use evalbot::config::{Backend, EvalService, Evaluation, Language};
use evalbot::exec::{exec_command, exec_result};
use evalbot::output::{truncate_output, wrap_and_trim_output};
use evalbot::persistent::{after_handshake, finish_payload, kill_command, Handshake, PersistentStep};
use evalbot::wire::{
    decode_request, decode_response, encode_response, make_persistent_input, response_length,
    u32_from_le,
};

fn strings(v: &[&str]) -> Vec<String> {
    v.iter().map(|s| s.to_string()).collect()
}

fn exec_lang(before: Option<&str>, after: Option<&str>, timeout: Option<usize>) -> Language {
    Language::new(
        timeout,
        before.map(|s| s.to_string()),
        after.map(|s| s.to_string()),
        Backend::Exec {
            path: "cmd".to_string(),
            args: strings(&["-t", "{TIMEOUT}"]),
            timeout_prefix: Some("T".to_string()),
        },
    )
}

#[test]
fn timeout_token_replaced_with_prefix() {
    let c = exec_command(&strings(&["cmd", "-t", "{TIMEOUT}"]), Some(5), Some("T")).unwrap();
    assert_eq!(c.program, "cmd");
    assert_eq!(c.args, strings(&["-t", "T5"]));
}

#[test]
fn timeout_token_dropped_without_timeout() {
    let c = exec_command(&strings(&["cmd", "-t", "{TIMEOUT}"]), None, Some("T")).unwrap();
    assert_eq!(c.program, "cmd");
    assert_eq!(c.args, strings(&["-t"]));
}

#[test]
fn timeout_token_without_prefix() {
    let c = exec_command(&strings(&["run", "{TIMEOUT}", "x", "{TIMEOUT}"]), Some(120), None).unwrap();
    assert_eq!(c.program, "run");
    assert_eq!(c.args, strings(&["120", "x", "120"]));
}

#[test]
fn empty_template_is_an_error() {
    let r = exec_command(&Vec::new(), Some(5), None);
    assert_eq!(r.err().unwrap(), "empty cmdline");
}

#[test]
fn exit_code_two_is_reported() {
    let r = exec_result(b"", b"oops", Some(2));
    assert_eq!(r, "oops\nexited with status 2\n");
    assert!(r.ends_with("exited with status 2\n"));
}

#[test]
fn killed_process_is_reported() {
    let r = exec_result(b"", b"partial\n", None);
    assert_eq!(r, "partial\nexited with unknown failure\n");
}

#[test]
fn failure_with_no_output_still_gets_newline() {
    assert_eq!(exec_result(b"", b"", Some(1)), "\nexited with status 1\n");
}

#[test]
fn negative_exit_code() {
    assert_eq!(exec_result(b"e\n", b"", Some(-3)), "e\nexited with status -3\n");
}

#[test]
fn stderr_comes_before_stdout() {
    assert_eq!(exec_result(b"err ", b"out", Some(0)), "err out");
}

#[test]
fn invalid_utf8_is_replaced() {
    assert_eq!(exec_result(b"", b"a\xffb", Some(0)), "a\u{FFFD}b");
}

#[test]
fn echo_returns_wrapped_payload() {
    let lang = exec_lang(Some("fn main() {"), Some("}"), Some(10));
    match lang.eval("println!(1);", None) {
        Evaluation::Exec { command, input } => {
            assert_eq!(input, "fn main() {println!(1);}");
            assert_eq!(command.program, "cmd");
            assert_eq!(command.args, strings(&["-t", "T10"]));
            let r = exec_result(b"", input.as_bytes(), Some(0));
            assert_eq!(r, input);
        }
        _ => panic!("expected a process to run"),
    }
}

#[test]
fn override_timeout_wins() {
    let lang = exec_lang(None, None, Some(10));
    match lang.eval("x", Some(0)) {
        Evaluation::Exec { command, input } => {
            assert_eq!(input, "x");
            assert_eq!(command.args, strings(&["-t", "T0"]));
        }
        _ => panic!("expected a process to run"),
    }
}

#[test]
fn no_timeout_drops_token() {
    let lang = exec_lang(None, None, None);
    match lang.eval("x", None) {
        Evaluation::Exec { command, .. } => assert_eq!(command.args, strings(&["-t"])),
        _ => panic!("expected a process to run"),
    }
}

#[test]
fn network_backend_is_unimplemented() {
    let lang = Language::new(
        Some(3),
        None,
        None,
        Backend::Network { network_addr: "127.0.0.1:9".to_string() },
    );
    match lang.eval("1+1", None) {
        Evaluation::Finished(Ok(t)) => assert_eq!(t, "Unimplemented"),
        _ => panic!("expected the placeholder"),
    }
}

#[test]
fn persistent_backend_sends_bare_code() {
    let lang = Language::new(
        Some(3),
        Some("before".to_string()),
        Some("after".to_string()),
        Backend::UnixSocket {
            socket_addr: "/tmp/worker.sock".to_string(),
            timeout_cmdline: Some(strings(&["pkill", "worker"])),
        },
    );
    match lang.eval("1+1", None) {
        Evaluation::Persistent { socket_addr, deadline, request, timeout_cmdline } => {
            assert_eq!(socket_addr, "/tmp/worker.sock");
            assert_eq!(deadline, Some(3));
            assert_eq!(timeout_cmdline, Some(strings(&["pkill", "worker"])));
            let (t, ctx, code) = decode_request(&request).unwrap();
            assert_eq!(t, 3000);
            assert_eq!(ctx, Vec::<u8>::new());
            assert_eq!(code, b"1+1".to_vec());
        }
        _ => panic!("expected a worker request"),
    }
}

#[test]
fn request_round_trip() {
    let frame = make_persistent_input(Some(3), Some(&b"ctx"[..]), b"1+1").unwrap();
    assert_eq!(
        frame,
        vec![0xb8, 0x0b, 0, 0, 3, 0, 0, 0, 3, 0, 0, 0, b'c', b't', b'x', b'1', b'+', b'1']
    );
    let (t, ctx, code) = decode_request(&frame).unwrap();
    assert_eq!(t, 3000);
    assert_eq!(ctx, b"ctx".to_vec());
    assert_eq!(code, b"1+1".to_vec());
}

#[test]
fn absent_context_and_timeout_are_zero() {
    let frame = make_persistent_input(None, None, b"x").unwrap();
    assert_eq!(frame, vec![0, 0, 0, 0, 0, 0, 0, 0, 1, 0, 0, 0, b'x']);
}

#[test]
fn oversized_timeout_does_not_fit() {
    assert!(make_persistent_input(Some(5_000_000), None, b"x").is_none());
    assert!(make_persistent_input(Some(4_294_967), None, b"x").is_some());
}

#[test]
fn malformed_request_is_rejected() {
    assert!(decode_request(&[1, 0, 0]).is_none());
    assert!(decode_request(&[0, 0, 0, 0, 1, 0, 0, 0, 0, 0, 0, 0]).is_none());
}

#[test]
fn response_round_trip() {
    let payload = "héllo\n".as_bytes();
    let frame = encode_response(payload).unwrap();
    assert_eq!(&frame[..4], &[7, 0, 0, 0]);
    let n = response_length([frame[0], frame[1], frame[2], frame[3]]);
    assert_eq!(n, payload.len());
    assert_eq!(decode_response(&frame[4..4 + n]), "héllo\n");
}

#[test]
fn little_endian_value() {
    assert_eq!(u32_from_le([0x78, 0x56, 0x34, 0x12]), 0x1234_5678);
    assert_eq!(u32_from_le([0xff, 0xff, 0xff, 0xff]), u32::MAX);
}

#[test]
fn elapsed_deadline_yields_sentinel_and_one_kill() {
    let cfg = Some(strings(&["pkill", "-9", "worker"]));
    match after_handshake(&cfg, Handshake::Elapsed) {
        PersistentStep::Done { result, kill } => {
            assert_eq!(result, Ok("time limit exceeded".to_string()));
            let k = kill.unwrap();
            assert_eq!(k.program, "pkill");
            assert_eq!(k.args, strings(&["-9", "worker"]));
        }
        _ => panic!("expected the evaluation to end"),
    }
}

#[test]
fn elapsed_deadline_without_kill_command() {
    match after_handshake(&None, Handshake::Elapsed) {
        PersistentStep::Done { result, kill } => {
            assert_eq!(result, Ok("time limit exceeded".to_string()));
            assert!(kill.is_none());
        }
        _ => panic!("expected the evaluation to end"),
    }
    assert!(kill_command(&Some(Vec::new())).is_none());
}

#[test]
fn header_leads_to_payload_read() {
    match after_handshake(&None, Handshake::Header([5, 1, 0, 0])) {
        PersistentStep::ReadPayload(n) => assert_eq!(n, 261),
        _ => panic!("expected a payload read"),
    }
}

#[test]
fn handshake_failures_are_described() {
    let cases = vec![
        (Handshake::ConnectFailed("refused".to_string()), "error connecting: refused"),
        (Handshake::WriteFailed("pipe".to_string()), "error writing: pipe"),
        (Handshake::FlushFailed("pipe".to_string()), "error flushing: pipe"),
        (Handshake::ReadFailed("eof".to_string()), "error reading result length: eof"),
        (Handshake::TimerFailed("gone".to_string()), "error from timeout: gone"),
    ];
    for (h, text) in cases {
        match after_handshake(&Some(strings(&["kill"])), h) {
            PersistentStep::Done { result, kill } => {
                assert_eq!(result, Err(text.to_string()));
                assert!(kill.is_none());
            }
            _ => panic!("expected a failure"),
        }
    }
}

#[test]
fn payload_is_decoded() {
    assert_eq!(finish_payload(Ok(b"2\n".to_vec())), Ok("2\n".to_string()));
    assert_eq!(
        finish_payload(Err("eof".to_string())),
        Err("error reading result: eof".to_string())
    );
}

#[test]
fn test_decode() {
    let rs = Language::new(
        None,
        None,
        None,
        Backend::Exec { path: "rustc".to_string(), args: strings(&["-O"]), timeout_prefix: None },
    );
    let rs_bang = Language::new(
        Some(0),
        None,
        None,
        Backend::Exec { path: "rustc".to_string(), args: strings(&["-O"]), timeout_prefix: None },
    );
    let svc = EvalService::new(20, vec![("rs".to_string(), rs), ("rs!".to_string(), rs_bang)])
        .unwrap();
    let a = svc.get("rs").unwrap();
    assert_eq!(a.name, "rs");
    assert_eq!(a.timeout, Some(20));
    let b = svc.get("rs!").unwrap();
    assert_eq!(b.name, "rs!");
    assert_eq!(b.timeout, Some(0));
    assert!(svc.get("py").is_none());
}

#[test]
fn duplicate_language_is_rejected() {
    let mk = || Language::new(None, None, None, Backend::Network { network_addr: "a".to_string() });
    let r = EvalService::new(5, vec![("x".to_string(), mk()), ("x".to_string(), mk())]);
    assert_eq!(r.err().unwrap(), "duplicate language");
}

#[test]
fn backend_selection() {
    let exec = Backend::select(
        Some("rustc".to_string()),
        Some(strings(&["-O"])),
        None,
        None,
        None,
        None,
    );
    assert!(matches!(exec, Ok(Backend::Exec { .. })));
    let sock = Backend::select(None, None, None, None, Some("/s".to_string()), None);
    assert!(matches!(sock, Ok(Backend::UnixSocket { .. })));
    let net = Backend::select(None, None, None, Some("h:1".to_string()), None, None);
    assert!(matches!(net, Ok(Backend::Network { .. })));
    let none = Backend::select(None, None, None, None, None, None);
    assert_eq!(none.err().unwrap(), "no backend configured");
    let both = Backend::select(
        Some("p".to_string()),
        Some(Vec::new()),
        None,
        None,
        Some("/s".to_string()),
        None,
    );
    assert_eq!(both.err().unwrap(), "more than one backend configured");
}

#[test]
fn wrap_trims_drops_and_cuts() {
    let r = wrap_and_trim_output("  abcdefg  \n\n \t\r\nhi\r\n", 3);
    assert_eq!(r, vec!["abc", "def", "g", "hi"]);
}

#[test]
fn wrap_counts_characters() {
    let r = wrap_and_trim_output("ééé\u{3000}é", 3);
    assert_eq!(r, vec!["ééé", "\u{3000}é"]);
    assert_eq!(wrap_and_trim_output("", 4), Vec::<&str>::new());
}

#[test]
fn truncate_keeps_first_lines() {
    assert_eq!(truncate_output(vec!["a", "b", "c"], 2), (true, vec!["a", "b"]));
    assert_eq!(truncate_output(vec!["a", "b"], 2), (false, vec!["a", "b"]));
    assert_eq!(truncate_output(vec![], 0), (false, vec![]));
}

#[test]
fn fixup_names_and_defaults() {
    let svc = EvalService {
        timeout: 7,
        languages: vec![
            ("py".to_string(), exec_lang(None, None, None)),
            ("sh".to_string(), exec_lang(None, None, Some(2))),
        ],
    }
    .fixup();
    assert_eq!(svc.timeout, 7);
    assert_eq!(svc.languages[0].0, "py");
    assert_eq!(svc.languages[0].1.name, "py");
    assert_eq!(svc.languages[0].1.timeout, Some(7));
    assert_eq!(svc.languages[1].1.name, "sh");
    assert_eq!(svc.languages[1].1.timeout, Some(2));
}

#[test]
fn args_without_path_select_nothing() {
    let r = Backend::select(None, Some(strings(&["-O"])), None, None, None, None);
    assert_eq!(r.err().unwrap(), "no backend configured");
}
