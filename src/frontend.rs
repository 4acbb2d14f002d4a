//! The decisions of the chat front end: who may evaluate, how the owners'
//! whitelist commands change it and what they answer, and how a result is
//! shown as an HTML message.

use std::collections::HashSet;
use vstd::prelude::*;
use vstd::string::*;
use vstd::utf8::encode_utf8;
use crate::output::{chars_of, is_white_space, is_whitespace, trim_lo};
use crate::text::{decode_lossy, lossy_text, push_char, push_signed_decimal, signed_decimal};

verus! {

broadcast use vstd::std_specs::hash::group_hash_axioms;

/// Which chats may evaluate code.
pub struct TgWhitelist {
    /// Whether private chats must be on the allowed list.
    pub priv_enabled: bool,
    /// Whether group chats must be on the allowed list.
    pub group_enabled: bool,
    pub allowed: HashSet<i64>,
    pub blocked: HashSet<i64>,
}

/// The owners' commands that switch a whitelist on or off.
pub enum WhitelistToggleOp {
    TogglePrivate,
    ToggleGroup,
}

/// The owners' commands that change the lists.
pub enum WhitelistModOp {
    Allow,
    Unallow,
    Block,
    Unblock,
}

/// The word with which a list change is answered.
pub open spec fn mod_verb(op: WhitelistModOp) -> Seq<char> {
    match op {
        WhitelistModOp::Allow => "Allowed "@,
        WhitelistModOp::Unallow => "Unallowed "@,
        WhitelistModOp::Block => "Blocked "@,
        WhitelistModOp::Unblock => "Unblocked "@,
    }
}

/// The allowed and blocked sets after a list change.
pub open spec fn mod_sets(allowed: Set<i64>, blocked: Set<i64>, op: WhitelistModOp, id: i64) -> (
    Set<i64>,
    Set<i64>,
) {
    match op {
        WhitelistModOp::Allow => (allowed.insert(id), blocked),
        WhitelistModOp::Unallow => (allowed.remove(id), blocked),
        WhitelistModOp::Block => (allowed, blocked.insert(id)),
        WhitelistModOp::Unblock => (allowed, blocked.remove(id)),
    }
}

/// The value of a string of decimal digits.
pub open spec fn digits_value(s: Seq<char>) -> int
    decreases s.len(),
{
    if s.len() == 0 {
        0
    } else {
        digits_value(s.drop_last()) * 10 + (s.last() as u32 - 48)
    }
}

/// Whether `s` is one or more ASCII decimal digits.
pub open spec fn is_digits(s: Seq<char>) -> bool {
    s.len() > 0 && forall|i: int| 0 <= i < s.len() ==> '0' <= #[trigger] s[i] <= '9'
}

/// The integer that `s` writes: an optional sign, then decimal digits, with a
/// value that fits in 64 bits; none otherwise.
pub open spec fn parsed_i64(s: Seq<char>) -> Option<i64> {
    let signed = s.len() > 0 && (s[0] == '-' || s[0] == '+');
    let body = if signed {
        s.drop_first()
    } else {
        s
    };
    let v = if s.len() > 0 && s[0] == '-' {
        -digits_value(body)
    } else {
        digits_value(body)
    };
    if is_digits(body) && i64::MIN <= v <= i64::MAX {
        Some(v as i64)
    } else {
        None
    }
}

/// Relies on `i64::from_str`: it accepts an optional `+` or `-` followed by
/// decimal digits whose value fits, and nothing else.
#[verifier::external_body]
fn parse_i64(s: &str) -> (r: Option<i64>)
    ensures
        r == parsed_i64(s@),
{
    s.parse::<i64>().ok()
}

/// The end of the word that starts at `p`: the next white space, or the end.
pub open spec fn word_end(s: Seq<char>, p: int) -> int
    decreases s.len() - p,
{
    if 0 <= p < s.len() && !is_white_space(s[p]) {
        word_end(s, p + 1)
    } else {
        p
    }
}

/// The chat id that a whitelist command names: its first white-space
/// separated word, read as an integer.
pub open spec fn command_id(s: Seq<char>) -> Option<i64> {
    let a = trim_lo(s, 0, s.len() as int);
    if a < s.len() {
        parsed_i64(s.subrange(a, word_end(s, a)))
    } else {
        None
    }
}

/// Reads the chat id given with a whitelist command.
pub fn command_chat_id(text: &str) -> (r: Option<i64>)
    ensures
        r == command_id(text@),
{
    let cs = chars_of(text);
    let n = cs.len();
    let mut a: usize = 0;
    while a < n && is_whitespace(cs[a])
        invariant
            n == cs@.len(),
            a <= n,
            trim_lo(cs@, 0, n as int) == trim_lo(cs@, a as int, n as int),
        decreases n - a,
    {
        a = a + 1;
    }
    if a >= n {
        return None;
    }
    let mut b: usize = a;
    while b < n && !is_whitespace(cs[b])
        invariant
            n == cs@.len(),
            a <= b <= n,
            word_end(cs@, a as int) == word_end(cs@, b as int),
        decreases n - b,
    {
        b = b + 1;
    }
    parse_i64(text.substring_char(a, b))
}

/// The longest prefix of a result, in bytes, that a message shows.
pub const SHOWN_BYTES: usize = 512;

/// The text of a boolean.
pub open spec fn bool_text(b: bool) -> Seq<char> {
    if b {
        "true"@
    } else {
        "false"@
    }
}

/// A character as it appears in HTML text; replacement characters vanish.
pub open spec fn html_char(c: char) -> Seq<char> {
    if c == '\u{FFFD}' {
        Seq::empty()
    } else if c == '&' {
        "&amp;"@
    } else if c == '<' {
        "&lt;"@
    } else if c == '>' {
        "&gt;"@
    } else if c == '"' {
        "&quot;"@
    } else {
        seq![c]
    }
}

/// Text escaped for HTML, without replacement characters.
pub open spec fn html_escaped(s: Seq<char>) -> Seq<char>
    decreases s.len(),
{
    if s.len() == 0 {
        Seq::empty()
    } else {
        html_escaped(s.drop_last()) + html_char(s.last())
    }
}

/// The message that shows a result: its first bytes, decoded leniently and
/// escaped, in a preformatted block, with a note when some were cut off.
pub open spec fn wrapped_result(s: Seq<char>) -> Seq<char> {
    let b = encode_utf8(s);
    if s.len() == 0 {
        "no output"@
    } else {
        let shown = if b.len() > SHOWN_BYTES {
            b.subrange(0, SHOWN_BYTES as int)
        } else {
            b
        };
        "<pre>"@ + html_escaped(lossy_text(shown)) + "</pre>"@ + if b.len() > SHOWN_BYTES {
            "... (truncated)"@
        } else {
            Seq::empty()
        }
    }
}

/// Shows a result as an HTML message for the chat.
pub fn telegram_wrap_result(s: &str) -> (r: String)
    ensures
        r@ == wrapped_result(s@),
{
    if s.is_empty() {
        return String::from_str("no output");
    }
    let input = s.as_bytes();
    let n = if input.len() > SHOWN_BYTES {
        SHOWN_BYTES
    } else {
        input.len()
    };
    let shown = decode_lossy(&input[0..n]);
    proof {
        assert(input@.subrange(0, n as int) == if input@.len() > SHOWN_BYTES {
            input@.subrange(0, SHOWN_BYTES as int)
        } else {
            input@
        });
    }
    let cs = chars_of(shown.as_str());
    let mut r = String::from_str("<pre>");
    let ghost start = r@;
    let mut i: usize = 0;
    while i < cs.len()
        invariant
            i <= cs@.len(),
            r@ == start + html_escaped(cs@.subrange(0, i as int)),
        decreases cs@.len() - i,
    {
        let c = cs[i];
        let ghost before = r@;
        if c == '\u{FFFD}' {
        } else if c == '&' {
            r.append("&amp;");
        } else if c == '<' {
            r.append("&lt;");
        } else if c == '>' {
            r.append("&gt;");
        } else if c == '"' {
            r.append("&quot;");
        } else {
            push_char(&mut r, c);
        }
        assert(r@ =~= before + html_char(c));
        assert(cs@.subrange(0, i + 1).drop_last() =~= cs@.subrange(0, i as int));
        i = i + 1;
    }
    assert(cs@.subrange(0, cs@.len() as int) =~= cs@);
    r.append("</pre>");
    if input.len() > SHOWN_BYTES {
        r.append("... (truncated)");
    }
    r
}

/// The answer to a chat that may not evaluate code.
pub fn not_whitelisted_text(chat_id: i64) -> (r: String)
    ensures
        r@ == "You or this group is not on the whitelist. Seek help. ID: "@ + signed_decimal(
            chat_id as int,
        ),
{
    let mut r = String::from_str("You or this group is not on the whitelist. Seek help. ID: ");
    push_signed_decimal(&mut r, chat_id);
    r
}

/// The timeout asked for an evaluation: none, so the language's own applies,
/// except for an owner's unlimited command, which asks for zero.
pub fn eval_timeout(unlimited_command: bool, from_owner: bool) -> (r: Option<usize>)
    ensures
        r == if unlimited_command && from_owner {
            Some(0usize)
        } else {
            None
        },
{
    if unlimited_command && from_owner {
        Some(0)
    } else {
        None
    }
}

impl TgWhitelist {
    /// Whether a private chat may evaluate: not blocked, and allowed if the
    /// private whitelist is on.
    pub open spec fn priv_allows(&self, id: i64) -> bool {
        (!self.priv_enabled || self.allowed@.contains(id)) && !self.blocked@.contains(id)
    }

    /// Whether a group chat may evaluate: not blocked, and allowed if the
    /// group whitelist is on.
    pub open spec fn group_allows(&self, id: i64) -> bool {
        (!self.group_enabled || self.allowed@.contains(id)) && !self.blocked@.contains(id)
    }

    /// A whitelist with both lists empty and neither switched on.
    pub fn new() -> (r: TgWhitelist)
        ensures
            !r.priv_enabled,
            !r.group_enabled,
            r.allowed@ == Set::<i64>::empty(),
            r.blocked@ == Set::<i64>::empty(),
    {
        TgWhitelist {
            priv_enabled: false,
            group_enabled: false,
            allowed: HashSet::new(),
            blocked: HashSet::new(),
        }
    }

    /// Whether a private chat may evaluate.
    pub fn priv_ok(&self, id: i64) -> (r: bool)
        ensures
            r == self.priv_allows(id),
    {
        (!self.priv_enabled || self.allowed.contains(&id)) && !self.blocked.contains(&id)
    }

    /// Whether a group chat may evaluate.
    pub fn group_ok(&self, id: i64) -> (r: bool)
        ensures
            r == self.group_allows(id),
    {
        (!self.group_enabled || self.allowed.contains(&id)) && !self.blocked.contains(&id)
    }

    /// Whether a chat, private or not, may evaluate.
    pub fn permits(&self, private: bool, id: i64) -> (r: bool)
        ensures
            r == if private {
                self.priv_allows(id)
            } else {
                self.group_allows(id)
            },
    {
        if private {
            self.priv_ok(id)
        } else {
            self.group_ok(id)
        }
    }

    pub fn allow(&mut self, id: i64)
        ensures
            final(self).allowed@ == old(self).allowed@.insert(id),
            final(self).blocked@ == old(self).blocked@,
            final(self).priv_enabled == old(self).priv_enabled,
            final(self).group_enabled == old(self).group_enabled,
    {
        self.allowed.insert(id);
    }

    pub fn unallow(&mut self, id: i64)
        ensures
            final(self).allowed@ == old(self).allowed@.remove(id),
            final(self).blocked@ == old(self).blocked@,
            final(self).priv_enabled == old(self).priv_enabled,
            final(self).group_enabled == old(self).group_enabled,
    {
        self.allowed.remove(&id);
    }

    pub fn block(&mut self, id: i64)
        ensures
            final(self).blocked@ == old(self).blocked@.insert(id),
            final(self).allowed@ == old(self).allowed@,
            final(self).priv_enabled == old(self).priv_enabled,
            final(self).group_enabled == old(self).group_enabled,
    {
        self.blocked.insert(id);
    }

    pub fn unblock(&mut self, id: i64)
        ensures
            final(self).blocked@ == old(self).blocked@.remove(id),
            final(self).allowed@ == old(self).allowed@,
            final(self).priv_enabled == old(self).priv_enabled,
            final(self).group_enabled == old(self).group_enabled,
    {
        self.blocked.remove(&id);
    }

    /// Switches a whitelist on or off and says how it now stands.
    pub fn toggle(&mut self, op: WhitelistToggleOp) -> (r: String)
        ensures
            final(self).allowed@ == old(self).allowed@,
            final(self).blocked@ == old(self).blocked@,
            op is TogglePrivate ==> final(self).priv_enabled == !old(self).priv_enabled
                && final(self).group_enabled == old(self).group_enabled && r@
                == "Private whitelist enabled: "@ + bool_text(final(self).priv_enabled),
            op is ToggleGroup ==> final(self).group_enabled == !old(self).group_enabled
                && final(self).priv_enabled == old(self).priv_enabled && r@
                == "Group whitelist enabled: "@ + bool_text(final(self).group_enabled),
    {
        match op {
            WhitelistToggleOp::TogglePrivate => {
                self.priv_enabled = !self.priv_enabled;
                let mut r = String::from_str("Private whitelist enabled: ");
                r.append(if self.priv_enabled { "true" } else { "false" });
                r
            },
            WhitelistToggleOp::ToggleGroup => {
                self.group_enabled = !self.group_enabled;
                let mut r = String::from_str("Group whitelist enabled: ");
                r.append(if self.group_enabled { "true" } else { "false" });
                r
            },
        }
    }

    /// Applies a list change to the chat `id` given with the command, and says
    /// what was done; a command without a valid chat id changes nothing.
    pub fn modify(&mut self, op: WhitelistModOp, id: Option<i64>) -> (r: String)
        ensures
            final(self).priv_enabled == old(self).priv_enabled,
            final(self).group_enabled == old(self).group_enabled,
            id is None ==> r@ == "Invalid ID"@ && final(self).allowed@ == old(self).allowed@
                && final(self).blocked@ == old(self).blocked@,
            id matches Some(i) ==> r@ == mod_verb(op) + signed_decimal(i as int) && (
            final(self).allowed@,
            final(self).blocked@,
            ) == mod_sets(old(self).allowed@, old(self).blocked@, op, i),
    {
        match id {
            None => String::from_str("Invalid ID"),
            Some(i) => {
                let mut r = match op {
                    WhitelistModOp::Allow => {
                        self.allow(i);
                        String::from_str("Allowed ")
                    },
                    WhitelistModOp::Unallow => {
                        self.unallow(i);
                        String::from_str("Unallowed ")
                    },
                    WhitelistModOp::Block => {
                        self.block(i);
                        String::from_str("Blocked ")
                    },
                    WhitelistModOp::Unblock => {
                        self.unblock(i);
                        String::from_str("Unblocked ")
                    },
                };
                push_signed_decimal(&mut r, i as i64);
                r
            },
        }
    }
}

} // verus!
