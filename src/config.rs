//! Language configuration and dispatch: each language names one backend
//! strategy, and evaluating code for it resolves the timeout and says what is
//! to be run.

use vstd::prelude::*;
use vstd::string::*;
use crate::exec::{exec_command, opt_view, substitute, timeout_arg, CommandLine};
use crate::wire::{context_bytes, make_persistent_input, request_fits, request_frame, timeout_millis};

verus! {

/// How code for a language is run.
pub enum Backend {
    /// A one-shot process per request: `path` with `args`, in which the
    /// timeout token stands for the resolved timeout, written after
    /// `timeout_prefix` when there is one.
    Exec { path: String, args: Vec<String>, timeout_prefix: Option<String> },
    /// A direct network address: recognised, not implemented.
    Network { network_addr: String },
    /// A long-lived worker reached at `socket_addr`, and the command to launch
    /// when an evaluation runs out of time.
    UnixSocket { socket_addr: String, timeout_cmdline: Option<Vec<String>> },
}

/// One configured language.
pub struct Language {
    /// The timeout in seconds; filled in from the service default on loading.
    pub timeout: Option<usize>,
    /// The language's key in the service.
    pub name: String,
    /// Text written before the code (one-shot processes only).
    pub code_before: Option<String>,
    /// Text written after the code (one-shot processes only).
    pub code_after: Option<String>,
    pub backend: Backend,
}

/// The configured languages by name, and the default timeout in seconds.
pub struct EvalService {
    pub timeout: usize,
    pub languages: Vec<(String, Language)>,
}

/// What evaluating code for a language comes to.
pub enum Evaluation {
    /// Spawn `command` with all three standard streams piped, write `input`
    /// to its standard input and close it, wait for it while collecting its
    /// output, and compose the result with `exec_result`.
    Exec { command: CommandLine, input: String },
    /// Connect to `socket_addr`, write `request`, flush and read the
    /// four-byte length header, within `deadline` seconds when there is one;
    /// then go on with `after_handshake` and `timeout_cmdline`.
    Persistent {
        socket_addr: String,
        deadline: Option<usize>,
        request: Vec<u8>,
        timeout_cmdline: Option<Vec<String>>,
    },
    /// Nothing is to be run: this is the result.
    Finished(Result<String, String>),
}

/// The characters of an optional text, none when absent.
pub open spec fn opt_chars(s: Option<String>) -> Seq<char> {
    match s {
        Some(t) => t@,
        None => Seq::empty(),
    }
}

/// The characters of an optional text, kept optional.
pub open spec fn opt_string_view(s: Option<String>) -> Option<Seq<char>> {
    match s {
        Some(t) => Some(t@),
        None => None,
    }
}

/// The timeout in effect: the one asked for, else the language's own.
pub open spec fn resolve_timeout(asked: Option<usize>, configured: Option<usize>) -> Option<usize> {
    match asked {
        Some(t) => Some(t),
        None => configured,
    }
}

/// The text of a string of characters as UTF-8 bytes.
pub open spec fn utf8_of(s: Seq<char>) -> Seq<u8> {
    vstd::utf8::encode_utf8(s)
}

/// The failure text of a request too large for its frame.
pub open spec fn oversized_text() -> Seq<char> {
    "error writing: request does not fit its frame"@
}

impl Language {
    /// The code as it is written to a one-shot process: wrapped in the
    /// configured text before and after it.
    pub open spec fn wrapped(&self, code: Seq<char>) -> Seq<char> {
        opt_chars(self.code_before) + code + opt_chars(self.code_after)
    }

    /// A language with the given settings and no name yet; the name is its key
    /// once a service is built from it.
    pub fn new(
        timeout: Option<usize>,
        code_before: Option<String>,
        code_after: Option<String>,
        backend: Backend,
    ) -> (r: Language)
        ensures
            r.timeout == timeout,
            r.name@ == Seq::<char>::empty(),
            r.code_before == code_before,
            r.code_after == code_after,
            r.backend == backend,
    {
        Language { timeout, name: empty_string(), code_before, code_after, backend }
    }

    /// Says what to run for `code`. The timeout in effect is `timeout` if given,
    /// else the language's own. A one-shot process gets the wrapped code; a
    /// persistent worker gets the bare code with no context; a network
    /// backend yields the text `Unimplemented` and runs nothing.
    pub fn eval(&self, code: &str, timeout: Option<usize>) -> (r: Evaluation)
        ensures
            ({
                let t = resolve_timeout(timeout, self.timeout);
                match self.backend {
                    Backend::Exec { path, args, timeout_prefix } => r matches Evaluation::Exec {
                        command,
                        input,
                    } && command.program@ == path@ && command.args@.map_values(|a: String| a@)
                        == substitute(
                        args@.map_values(|a: String| a@),
                        timeout_arg(t, opt_string_view(timeout_prefix)),
                    ) && input@ == self.wrapped(code@),
                    Backend::Network { .. } => r matches Evaluation::Finished(Ok(text)) && text@
                        == "Unimplemented"@,
                    Backend::UnixSocket { socket_addr, timeout_cmdline } => if request_fits(
                        t,
                        0,
                        utf8_of(code@).len(),
                    ) {
                        r matches Evaluation::Persistent {
                            socket_addr: a,
                            deadline,
                            request,
                            timeout_cmdline: k,
                        } && a@ == socket_addr@ && deadline == t && request@ == request_frame(
                            timeout_millis(t) as u32,
                            Seq::empty(),
                            utf8_of(code@),
                        ) && cmdline_views_equal(k, timeout_cmdline)
                    } else {
                        r matches Evaluation::Finished(Err(e)) && e@ == oversized_text()
                    },
                }
            }),
    {
        let t = match timeout {
            Some(t) => Some(t),
            None => self.timeout,
        };
        match &self.backend {
            Backend::Exec { path, args, timeout_prefix } => {
                let mut template: Vec<String> = Vec::new();
                template.push(path.clone());
                let mut i: usize = 0;
                while i < args.len()
                    invariant
                        i <= args@.len(),
                        template@.len() == i + 1,
                        template@[0]@ == path@,
                        forall|j: int| 0 <= j < i ==> template@[j + 1]@ == args@[j]@,
                    decreases args@.len() - i,
                {
                    template.push(args[i].clone());
                    i = i + 1;
                }
                assert(template@.map_values(|a: String| a@).drop_first() =~= args@.map_values(
                    |a: String| a@,
                ));
                let prefix: Option<&str> = match timeout_prefix {
                    Some(p) => Some(p.as_str()),
                    None => None,
                };
                assert(opt_view(prefix) == opt_string_view(*timeout_prefix));
                match exec_command(&template, t, prefix) {
                    Ok(command) => Evaluation::Exec { command, input: wrap_code(code, self) },
                    Err(e) => Evaluation::Finished(Err(e)),
                }
            },
            Backend::Network { .. } => Evaluation::Finished(Ok(String::from_str("Unimplemented"))),
            Backend::UnixSocket { socket_addr, timeout_cmdline } => {
                let ghost none: Option<&[u8]> = None;
                assert(context_bytes(none) =~= Seq::<u8>::empty());
                match make_persistent_input(t, None, code.as_bytes()) {
                    Some(request) => Evaluation::Persistent {
                        socket_addr: socket_addr.clone(),
                        deadline: t,
                        request,
                        timeout_cmdline: clone_cmdline(timeout_cmdline),
                    },
                    None => Evaluation::Finished(
                        Err(String::from_str("error writing: request does not fit its frame")),
                    ),
                }
            },
        }
    }
}

/// Whether no two entries share a key.
pub open spec fn keys_unique(entries: Seq<(String, Language)>) -> bool {
    forall|i: int, j: int|
        0 <= i < j < entries.len() ==> #[trigger] entries[i].0@ != #[trigger] entries[j].0@
}

/// Whether `after` is `before` with each language named by its key and given
/// the default timeout where it has none.
pub open spec fn fixed_up(before: Seq<(String, Language)>, after: Seq<(String, Language)>, default: usize) -> bool {
    &&& after.len() == before.len()
    &&& forall|i: int|
        0 <= i < before.len() ==> {
            let (k, l) = #[trigger] before[i];
            let (k2, l2) = after[i];
            &&& k2 == k
            &&& l2.name@ == k@
            &&& l2.timeout == resolve_timeout(l.timeout, Some(default))
            &&& l2.code_before == l.code_before
            &&& l2.code_after == l.code_after
            &&& l2.backend == l.backend
        }
}

/// The backend that a configuration's fields describe: a path with arguments
/// runs a process, a network address is the direct network backend, a socket
/// address a persistent worker. `None` unless exactly one of the three is
/// described.
pub open spec fn backend_choice(
    path: Option<String>,
    args: Option<Vec<String>>,
    network_addr: Option<String>,
    socket_addr: Option<String>,
) -> Option<int> {
    let exec = path is Some && args is Some;
    let net = network_addr is Some;
    let sock = socket_addr is Some;
    if exec && !net && !sock {
        Some(0)
    } else if !exec && net && !sock {
        Some(1)
    } else if !exec && !net && sock {
        Some(2)
    } else {
        None
    }
}

impl Backend {
    /// Chooses the backend from the fields present in a language's
    /// configuration, rejecting one that describes no backend or several.
    pub fn select(
        path: Option<String>,
        args: Option<Vec<String>>,
        timeout_prefix: Option<String>,
        network_addr: Option<String>,
        socket_addr: Option<String>,
        timeout_cmdline: Option<Vec<String>>,
    ) -> (r: Result<Backend, String>)
        ensures
            r is Err <==> backend_choice(path, args, network_addr, socket_addr) is None,
            backend_choice(path, args, network_addr, socket_addr) == Some(0int) ==> r == Ok::<
                Backend,
                String,
            >(Backend::Exec { path: path.unwrap(), args: args.unwrap(), timeout_prefix }),
            backend_choice(path, args, network_addr, socket_addr) == Some(1int) ==> r == Ok::<
                Backend,
                String,
            >(Backend::Network { network_addr: network_addr.unwrap() }),
            backend_choice(path, args, network_addr, socket_addr) == Some(2int) ==> r == Ok::<
                Backend,
                String,
            >(Backend::UnixSocket { socket_addr: socket_addr.unwrap(), timeout_cmdline }),
    {
        let exec = path.is_some() && args.is_some();
        let net = network_addr.is_some();
        let sock = socket_addr.is_some();
        if exec && !net && !sock {
            match (path, args) {
                (Some(path), Some(args)) => Ok(Backend::Exec { path, args, timeout_prefix }),
                _ => Err(String::from_str("no backend configured")),
            }
        } else if !exec && net && !sock {
            match network_addr {
                Some(network_addr) => Ok(Backend::Network { network_addr }),
                None => Err(String::from_str("no backend configured")),
            }
        } else if !exec && !net && sock {
            match socket_addr {
                Some(socket_addr) => Ok(Backend::UnixSocket { socket_addr, timeout_cmdline }),
                None => Err(String::from_str("no backend configured")),
            }
        } else if !exec && !net && !sock {
            Err(String::from_str("no backend configured"))
        } else {
            Err(String::from_str("more than one backend configured"))
        }
    }
}

impl EvalService {
    /// Builds a service from its default timeout and its languages by key,
    /// naming each language by its key and giving those without a timeout the
    /// default. Fails when two languages share a key.
    pub fn new(timeout: usize, languages: Vec<(String, Language)>) -> (r: Result<EvalService, String>)
        ensures
            r is Ok <==> keys_unique(languages@),
            r matches Ok(s) ==> s.timeout == timeout && fixed_up(languages@, s.languages@, timeout),
    {
        let mut i: usize = 0;
        while i < languages.len()
            invariant
                i <= languages@.len(),
                forall|a: int, b: int|
                    0 <= a < b < languages@.len() && a < i ==> #[trigger] languages@[a].0@
                        != #[trigger] languages@[b].0@,
            decreases languages@.len() - i,
        {
            let mut j: usize = i + 1;
            while j < languages.len()
                invariant
                    i < languages@.len(),
                    i + 1 <= j <= languages@.len(),
                    forall|a: int, b: int|
                        0 <= a < b < languages@.len() && a < i ==> #[trigger] languages@[a].0@
                            != #[trigger] languages@[b].0@,
                    forall|b: int| i < b < j ==> languages@[i as int].0@ != #[trigger] languages@[b].0@,
                decreases languages@.len() - j,
            {
                if languages[i].0 == languages[j].0 {
                    return Err(String::from_str("duplicate language"));
                }
                j = j + 1;
            }
            i = i + 1;
        }
        Ok(EvalService { timeout, languages }.fixup())
    }

    /// Names each language by its key and gives those without a timeout the
    /// service default.
    pub fn fixup(self) -> (r: Self)
        ensures
            r.timeout == self.timeout,
            fixed_up(self.languages@, r.languages@, self.timeout),
    {
        let timeout = self.timeout;
        let mut rest = self.languages;
        let ghost all = rest@;
        let mut done: Vec<(String, Language)> = Vec::new();
        while rest.len() > 0
            invariant
                done@.len() + rest@.len() == all.len(),
                rest@ == all.subrange(done@.len() as int, all.len() as int),
                fixed_up(all.subrange(0, done@.len() as int), done@, timeout),
            decreases rest@.len(),
        {
            let (name, lang) = rest.remove(0);
            let ghost n: int = done@.len() as int;
            assert(all[n as int] == (name, lang));
            let fixed = Language {
                timeout: match lang.timeout {
                    Some(t) => Some(t),
                    None => Some(timeout),
                },
                name: name.clone(),
                code_before: lang.code_before,
                code_after: lang.code_after,
                backend: lang.backend,
            };
            done.push((name, fixed));
            assert(all.subrange(0, n + 1).drop_last() =~= all.subrange(0, n));
            assert(rest@ =~= all.subrange(done@.len() as int, all.len() as int));
            assert forall|k: int| 0 <= k < n + 1 implies {
                let (a, b) = #[trigger] all.subrange(0, n + 1)[k];
                let (a2, b2) = done@[k];
                &&& a2 == a
                &&& b2.name@ == a@
                &&& b2.timeout == resolve_timeout(b.timeout, Some(timeout))
                &&& b2.code_before == b.code_before
                &&& b2.code_after == b.code_after
                &&& b2.backend == b.backend
            } by {
                if k < n {
                    assert(all.subrange(0, n + 1)[k] == all.subrange(0, n)[k]);
                }
            }
        }
        assert(all.subrange(0, all.len() as int) =~= all);
        EvalService { timeout, languages: done }
    }

    /// The language configured under `lang`, if any.
    pub fn get(&self, lang: &str) -> (r: Option<&Language>)
        ensures
            r is None <==> forall|i: int|
                0 <= i < self.languages@.len() ==> #[trigger] self.languages@[i].0@ != lang@,
            r matches Some(l) ==> exists|i: int|
                0 <= i < self.languages@.len() && #[trigger] self.languages@[i].0@ == lang@
                    && *l == self.languages@[i].1 && forall|j: int|
                    0 <= j < i ==> #[trigger] self.languages@[j].0@ != lang@,
    {
        let key = lang.to_owned();
        let mut i: usize = 0;
        while i < self.languages.len()
            invariant
                i <= self.languages@.len(),
                key@ == lang@,
                forall|j: int| 0 <= j < i ==> #[trigger] self.languages@[j].0@ != lang@,
            decreases self.languages@.len() - i,
        {
            if self.languages[i].0 == key {
                return Some(&self.languages[i].1);
            }
            i = i + 1;
        }
        None
    }
}

/// Whether two optional command lines hold the same tokens.
pub open spec fn cmdline_views_equal(a: Option<Vec<String>>, b: Option<Vec<String>>) -> bool {
    match (a, b) {
        (Some(x), Some(y)) => x@.map_values(|s: String| s@) == y@.map_values(|s: String| s@),
        (None, None) => true,
        _ => false,
    }
}

/// A copy of an optional command line.
fn clone_cmdline(c: &Option<Vec<String>>) -> (r: Option<Vec<String>>)
    ensures
        cmdline_views_equal(r, *c),
{
    match c {
        Some(v) => {
            let mut out: Vec<String> = Vec::new();
            let mut i: usize = 0;
            while i < v.len()
                invariant
                    i <= v@.len(),
                    out@.map_values(|s: String| s@) == v@.map_values(|s: String| s@).subrange(
                        0,
                        i as int,
                    ),
                decreases v@.len() - i,
            {
                let ghost before = out@.map_values(|s: String| s@);
                out.push(v[i].clone());
                assert(out@.map_values(|s: String| s@) =~= before.push(v@[i as int]@));
                assert(v@.map_values(|s: String| s@).subrange(0, i + 1) =~= v@.map_values(
                    |s: String| s@,
                ).subrange(0, i as int).push(v@[i as int]@));
                i = i + 1;
            }
            assert(v@.map_values(|s: String| s@).subrange(0, v@.len() as int) =~= v@.map_values(
                |s: String| s@,
            ));
            Some(out)
        },
        None => None,
    }
}

/// The empty name of a language not yet placed in a service.
fn empty_string() -> (r: String)
    ensures
        r@ == Seq::<char>::empty(),
{
    String::new()
}

/// The code wrapped in the language's text before and after it.
fn wrap_code(raw: &str, cfg: &Language) -> (r: String)
    ensures
        r@ == cfg.wrapped(raw@),
{
    let mut code = String::new();
    match &cfg.code_before {
        Some(prefix) => code.append(prefix.as_str()),
        None => {},
    }
    code.append(raw);
    match &cfg.code_after {
        Some(postfix) => code.append(postfix.as_str()),
        None => {},
    }
    code
}

} // verus!
