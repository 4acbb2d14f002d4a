//! The one-shot subprocess strategy: the command line to spawn, and the text
//! made of what the process printed and how it ended. Spawning the process and
//! piping the code through its standard input is left to the caller.

use vstd::prelude::*;
use vstd::string::*;
use vstd::utf8::{decode_utf8, encode_utf8, encode_utf8_decode_utf8, encode_utf8_valid_utf8, valid_utf8};
use crate::text::{decimal, decode_lossy, push_char, push_decimal, push_signed_decimal, signed_decimal};

verus! {

/// A program and its arguments.
pub struct CommandLine {
    pub program: String,
    pub args: Vec<String>,
}

impl CommandLine {
    /// The program and arguments as character sequences.
    pub open spec fn view_tokens(&self) -> (Seq<char>, Seq<Seq<char>>) {
        (self.program@, self.args@.map_values(|a: String| a@))
    }
}

/// The token of an argument template that stands for the resolved timeout.
pub open spec fn timeout_token() -> Seq<char> {
    "{TIMEOUT}"@
}

/// The argument that replaces the timeout token: the prefix, if any, followed
/// by the timeout in decimal; none when no timeout is resolved.
pub open spec fn timeout_arg(timeout: Option<usize>, prefix: Option<Seq<char>>) -> Option<Seq<char>> {
    match timeout {
        Some(t) => Some(
            match prefix {
                Some(p) => p,
                None => Seq::empty(),
            } + decimal(t as nat),
        ),
        None => None,
    }
}

/// The arguments after substitution: each timeout token is replaced by `arg`,
/// or dropped when there is none; other tokens are kept in order.
pub open spec fn substitute(tokens: Seq<Seq<char>>, arg: Option<Seq<char>>) -> Seq<Seq<char>>
    decreases tokens.len(),
{
    if tokens.len() == 0 {
        Seq::empty()
    } else {
        let rest = substitute(tokens.drop_last(), arg);
        if tokens.last() == timeout_token() {
            match arg {
                Some(a) => rest.push(a),
                None => rest,
            }
        } else {
            rest.push(tokens.last())
        }
    }
}

/// Owned copies of the optional prefix's characters.
pub open spec fn opt_view(s: Option<&str>) -> Option<Seq<char>> {
    match s {
        Some(p) => Some(p@),
        None => None,
    }
}

/// Builds the command line that an argument template describes: its first
/// token is the program, the rest are arguments in which the timeout token is
/// replaced by the prefixed timeout, or dropped when no timeout is resolved.
/// An empty template is a configuration error.
pub fn exec_command(template: &Vec<String>, timeout: Option<usize>, timeout_prefix: Option<&str>) -> (r:
    Result<CommandLine, String>)
    ensures
        r is Err <==> template@.len() == 0,
        r matches Err(e) ==> e@ == "empty cmdline"@,
        r matches Ok(c) ==> c.program@ == template@[0]@ && c.args@.map_values(|a: String| a@)
            == substitute(
            template@.map_values(|a: String| a@).drop_first(),
            timeout_arg(timeout, opt_view(timeout_prefix)),
        ),
{
    if template.len() == 0 {
        return Err(String::from_str("empty cmdline"));
    }
    let arg: Option<String> = match timeout {
        Some(t) => {
            let mut a = String::new();
            match timeout_prefix {
                Some(p) => a.append(p),
                None => {},
            }
            push_decimal(&mut a, t as u64);
            Some(a)
        },
        None => None,
    };
    let ghost arg_view: Option<Seq<char>> = match &arg {
        Some(a) => Some(a@),
        None => None,
    };
    assert(arg_view == timeout_arg(timeout, opt_view(timeout_prefix)));
    let token = String::from_str("{TIMEOUT}");
    let ghost tokens = template@.map_values(|a: String| a@).drop_first();
    let mut args: Vec<String> = Vec::new();
    let mut i: usize = 1;
    while i < template.len()
        invariant
            1 <= i <= template@.len(),
            token@ == timeout_token(),
            arg matches Some(a) ==> arg_view == Some(a@),
            arg is None ==> arg_view is None,
            tokens == template@.map_values(|a: String| a@).drop_first(),
            args@.map_values(|a: String| a@) == substitute(tokens.subrange(0, i - 1), arg_view),
        decreases template@.len() - i,
    {
        let ghost before = args@.map_values(|a: String| a@);
        assert(tokens.subrange(0, i as int).drop_last() =~= tokens.subrange(0, i - 1));
        assert(tokens.subrange(0, i as int).last() == template@[i as int]@);
        let ghost prefix = tokens.subrange(0, i as int);
        assert(prefix.len() > 0);
        assert(substitute(prefix, arg_view) == if prefix.last() == timeout_token() {
            match arg_view {
                Some(a) => substitute(prefix.drop_last(), arg_view).push(a),
                None => substitute(prefix.drop_last(), arg_view),
            }
        } else {
            substitute(prefix.drop_last(), arg_view).push(prefix.last())
        });
        if template[i] == token {
            assert(prefix.last() == timeout_token());
            match &arg {
                Some(a) => {
                    args.push(a.clone());
                    assert(args@.map_values(|a: String| a@) =~= before.push(a@));
                },
                None => {
                    assert(args@.map_values(|a: String| a@) =~= before);
                },
            }
        } else {
            assert(prefix.last() != timeout_token());
            args.push(template[i].clone());
            assert(args@.map_values(|a: String| a@) =~= before.push(template@[i as int]@));
        }
        assert(args@.map_values(|a: String| a@) =~= substitute(tokens.subrange(0, i as int), arg_view));
        i = i + 1;
    }
    assert(tokens.subrange(0, tokens.len() as int) =~= tokens);
    Ok(CommandLine { program: template[0].clone(), args })
}

/// The note appended after a failed run: the exit code, or an unknown failure
/// when the process ended without one.
pub open spec fn exit_note(code: Option<i32>) -> Seq<char> {
    match code {
        Some(c) => "exited with status "@ + signed_decimal(c as int) + "\n"@,
        None => "exited with unknown failure\n"@,
    }
}

/// The result text of a run: standard error, then standard output. A run that
/// did not exit with code zero gets a newline, unless the text already ends in
/// one, and the exit note.
pub open spec fn exec_text(stderr: Seq<char>, stdout: Seq<char>, code: Option<i32>) -> Seq<char> {
    let t = stderr + stdout;
    if code == Some(0i32) {
        t
    } else {
        let ended = if t.len() > 0 && t.last() == '\n' {
            t
        } else {
            t.push('\n')
        };
        ended + exit_note(code)
    }
}

/// Composes the result text of a finished process from its captured standard
/// error and output, decoded as lossy UTF-8, and its exit code (`None` when it
/// ended without one, as when killed by a signal).
pub fn exec_result(stderr: &[u8], stdout: &[u8], code: Option<i32>) -> (r: String)
    ensures
        r@ == exec_text(crate::text::lossy_text(stderr@), crate::text::lossy_text(stdout@), code),
        valid_utf8(stderr@) && valid_utf8(stdout@) ==> r@ == exec_text(
            decode_utf8(stderr@),
            decode_utf8(stdout@),
            code,
        ),
{
    let mut r = decode_lossy(stderr);
    let out = decode_lossy(stdout);
    r.append(out.as_str());
    match code {
        Some(0i32) => {},
        _ => {
            let n = r.as_str().unicode_len();
            if n == 0 || r.as_str().get_char(n - 1) != '\n' {
                push_char(&mut r, '\n');
            }
            match code {
                Some(c) => {
                    r.append("exited with status ");
                    push_signed_decimal(&mut r, c as i64);
                    push_char(&mut r, '\n');
                    proof {
                        reveal_strlit("\n");
                    }
                },
                None => {
                    r.append("exited with unknown failure\n");
                },
            }
        },
    }
    r
}

/// A process that copies its standard input to its standard output, writes
/// nothing to standard error and exits with code zero yields exactly the text
/// it was given, with no note after it.
pub proof fn lemma_echo_result(input: Seq<char>)
    ensures
        valid_utf8(Seq::<u8>::empty()),
        valid_utf8(encode_utf8(input)),
        exec_text(decode_utf8(Seq::<u8>::empty()), decode_utf8(encode_utf8(input)), Some(0i32))
            == input,
{
    encode_utf8_valid_utf8(input);
    encode_utf8_decode_utf8(input);
    assert(decode_utf8(Seq::<u8>::empty()) =~= Seq::<char>::empty());
    assert(Seq::<char>::empty() + input =~= input);
}

} // verus!
