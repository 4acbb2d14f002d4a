//! The decisions of the persistent-worker strategy. The caller connects,
//! writes the request frame, flushes and reads the four-byte length header,
//! all within the deadline when one is resolved; it reports how that span
//! ended, and these functions say what comes next.

use vstd::prelude::*;
use vstd::string::*;
use crate::exec::CommandLine;
use crate::text::{decode_lossy, lossy_text};
use crate::wire::{le32_value, response_length};

verus! {

/// How the bounded span, from connecting through reading the length header,
/// ended. The strings are the descriptions of the underlying errors.
pub enum Handshake {
    /// The length header arrived.
    Header([u8; 4]),
    /// The deadline elapsed first.
    Elapsed,
    ConnectFailed(String),
    WriteFailed(String),
    FlushFailed(String),
    ReadFailed(String),
    /// The deadline timer itself failed.
    TimerFailed(String),
}

/// What to do once the bounded span has ended.
pub enum PersistentStep {
    /// Read exactly this many bytes of payload, then call `finish_payload`.
    ReadPayload(usize),
    /// The evaluation is over with this result; launch the kill command, if
    /// any, without waiting for it.
    Done { result: Result<String, String>, kill: Option<CommandLine> },
}

/// The sentinel text of an evaluation whose deadline elapsed.
pub open spec fn time_limit_text() -> Seq<char> {
    "time limit exceeded"@
}

/// The command to launch on a timeout: the configured command line split into
/// its program and arguments; none when not configured or empty.
pub open spec fn kill_plan(cmdline: Option<Seq<Seq<char>>>) -> Option<(Seq<char>, Seq<Seq<char>>)> {
    match cmdline {
        Some(c) => if c.len() > 0 {
            Some((c[0], c.drop_first()))
        } else {
            None
        },
        None => None,
    }
}

/// The views of an optional command line.
pub open spec fn cmdline_view(cmdline: &Option<Vec<String>>) -> Option<Seq<Seq<char>>> {
    match cmdline {
        Some(c) => Some(c@.map_values(|a: String| a@)),
        None => None,
    }
}

/// Whether `kill` is the command that the configured command line plans.
pub open spec fn kill_matches(kill: Option<CommandLine>, cmdline: &Option<Vec<String>>) -> bool {
    match kill {
        Some(k) => kill_plan(cmdline_view(cmdline)) == Some(k.view_tokens()),
        None => kill_plan(cmdline_view(cmdline)) is None,
    }
}

/// The failure text for each way the bounded span can fail.
pub open spec fn handshake_error(h: Handshake) -> Seq<char> {
    match h {
        Handshake::ConnectFailed(e) => "error connecting: "@ + e@,
        Handshake::WriteFailed(e) => "error writing: "@ + e@,
        Handshake::FlushFailed(e) => "error flushing: "@ + e@,
        Handshake::ReadFailed(e) => "error reading result length: "@ + e@,
        Handshake::TimerFailed(e) => "error from timeout: "@ + e@,
        _ => Seq::empty(),
    }
}

/// Splits a configured timeout-kill command line into the command to launch.
pub fn kill_command(cmdline: &Option<Vec<String>>) -> (r: Option<CommandLine>)
    ensures
        r matches Some(c) ==> kill_plan(cmdline_view(cmdline)) == Some(c.view_tokens()),
        r is None ==> kill_plan(cmdline_view(cmdline)) is None,
{
    match cmdline {
        Some(c) => {
            if c.len() == 0 {
                return None;
            }
            let ghost tokens = c@.map_values(|a: String| a@);
            let mut args: Vec<String> = Vec::new();
            let mut i: usize = 1;
            while i < c.len()
                invariant
                    1 <= i <= c@.len(),
                    tokens == c@.map_values(|a: String| a@),
                    args@.map_values(|a: String| a@) == tokens.subrange(1, i as int),
                decreases c@.len() - i,
            {
                let ghost before = args@.map_values(|a: String| a@);
                args.push(c[i].clone());
                assert(args@.map_values(|a: String| a@) =~= before.push(c@[i as int]@));
                assert(tokens.subrange(1, i + 1) =~= tokens.subrange(1, i as int).push(tokens[i as int]));
                i = i + 1;
            }
            assert(tokens.subrange(1, tokens.len() as int) =~= tokens.drop_first());
            Some(CommandLine { program: c[0].clone(), args })
        },
        None => None,
    }
}

/// Decides what follows the bounded span. With a header, the payload of the
/// announced length is read next. When the deadline elapsed, the result is the
/// sentinel text and the configured kill command, if any, is launched once.
/// Any other failure is returned as its description.
pub fn after_handshake(timeout_cmdline: &Option<Vec<String>>, h: Handshake) -> (r: PersistentStep)
    ensures
        h matches Handshake::Header(b) ==> r == PersistentStep::ReadPayload(le32_value(b@) as usize),
        h is Elapsed ==> (r matches PersistentStep::Done { result: Ok(t), kill } && t@
            == time_limit_text() && kill_matches(kill, timeout_cmdline)),
        !(h is Header) && !(h is Elapsed) ==> (r matches PersistentStep::Done {
            result: Err(e),
            kill,
        } && e@ == handshake_error(h) && kill is None),
{
    match h {
        Handshake::Header(b) => PersistentStep::ReadPayload(response_length(b)),
        Handshake::Elapsed => PersistentStep::Done {
            result: Ok(String::from_str("time limit exceeded")),
            kill: kill_command(timeout_cmdline),
        },
        Handshake::ConnectFailed(e) => PersistentStep::Done {
            result: Err(String::from_str("error connecting: ").concat(e.as_str())),
            kill: None,
        },
        Handshake::WriteFailed(e) => PersistentStep::Done {
            result: Err(String::from_str("error writing: ").concat(e.as_str())),
            kill: None,
        },
        Handshake::FlushFailed(e) => PersistentStep::Done {
            result: Err(String::from_str("error flushing: ").concat(e.as_str())),
            kill: None,
        },
        Handshake::ReadFailed(e) => PersistentStep::Done {
            result: Err(String::from_str("error reading result length: ").concat(e.as_str())),
            kill: None,
        },
        Handshake::TimerFailed(e) => PersistentStep::Done {
            result: Err(String::from_str("error from timeout: ").concat(e.as_str())),
            kill: None,
        },
    }
}

/// The result of reading the payload: its text, decoded as lossy UTF-8, or
/// the description of the read failure.
pub fn finish_payload(read: Result<Vec<u8>, String>) -> (r: Result<String, String>)
    ensures
        read matches Ok(b) ==> (r matches Ok(t) && t@ == lossy_text(b@)),
        read matches Err(e) ==> (r matches Err(m) && m@ == "error reading result: "@ + e@),
{
    match read {
        Ok(b) => Ok(decode_lossy(b.as_slice())),
        Err(e) => Err(String::from_str("error reading result: ").concat(e.as_str())),
    }
}

} // verus!
