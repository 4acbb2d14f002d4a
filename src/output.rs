//! Presentation helpers: wrapping result text into lines of bounded width and
//! keeping at most a given number of lines.

use vstd::prelude::*;
use vstd::string::*;
use vstd::std_specs::iter::IteratorSpec;

verus! {

/// Whether `c` has the Unicode `White_Space` property.
pub open spec fn is_white_space(c: char) -> bool {
    ||| '\u{9}' <= c <= '\u{d}'
    ||| c == ' '
    ||| c == '\u{85}'
    ||| c == '\u{a0}'
    ||| c == '\u{1680}'
    ||| '\u{2000}' <= c <= '\u{200a}'
    ||| c == '\u{2028}'
    ||| c == '\u{2029}'
    ||| c == '\u{202f}'
    ||| c == '\u{205f}'
    ||| c == '\u{3000}'
}

/// Relies on `char::is_whitespace`, which tests the Unicode `White_Space`
/// property.
#[verifier::external_body]
pub(crate) fn is_whitespace(c: char) -> (r: bool)
    ensures
        r == is_white_space(c),
{
    c.is_whitespace()
}

/// The end of the line that starts at `start`: the position of the next
/// newline, or the end of the text.
pub open spec fn line_end(s: Seq<char>, start: int) -> int
    decreases s.len() - start,
{
    if start >= s.len() {
        s.len() as int
    } else if s[start] == '\n' {
        start
    } else {
        line_end(s, start + 1)
    }
}

/// The start of `s[a..b]` once leading white space is removed.
pub open spec fn trim_lo(s: Seq<char>, a: int, b: int) -> int
    decreases b - a,
{
    if a < b && is_white_space(s[a]) {
        trim_lo(s, a + 1, b)
    } else {
        a
    }
}

/// The end of `s[a..b]` once trailing white space is removed.
pub open spec fn trim_hi(s: Seq<char>, a: int, b: int) -> int
    decreases b - a,
{
    if a < b && is_white_space(s[b - 1]) {
        trim_hi(s, a, b - 1)
    } else {
        b
    }
}

/// `s[p..b]` cut into pieces of `w` characters, the last one shorter if need be.
pub open spec fn pieces(s: Seq<char>, p: int, b: int, w: int) -> Seq<Seq<char>>
    decreases b - p,
{
    if p >= b || w <= 0 {
        Seq::empty()
    } else if b - p <= w {
        seq![s.subrange(p, b)]
    } else {
        seq![s.subrange(p, p + w)] + pieces(s, p + w, b, w)
    }
}

/// The wrapped lines of the text from `start` on: each newline-separated line
/// is trimmed of white space at both ends and cut into pieces of `w`
/// characters; lines that are empty once trimmed give nothing.
pub open spec fn wrap_from(s: Seq<char>, start: int, w: int) -> Seq<Seq<char>>
    decreases s.len() - start,
{
    let e = line_end(s, start);
    let a = trim_lo(s, start, e);
    let b = trim_hi(s, a, e);
    pieces(s, a, b, w) + if start <= e < s.len() {
        wrap_from(s, e + 1, w)
    } else {
        Seq::empty()
    }
}

/// The characters of `s`.
pub(crate) fn chars_of(s: &str) -> (r: Vec<char>)
    ensures
        r@ == s@,
{
    broadcast use vstd::string::group_string_axioms;

    let mut it = s.chars();
    let mut v: Vec<char> = Vec::new();
    loop
        invariant
            v@ + it.remaining() == s@,
        ensures
            v@ == s@,
        decreases s@.len() - v@.len(),
    {
        match it.next() {
            Some(c) => {
                v.push(c);
            },
            None => {
                assert(v@ =~= s@);
                break ;
            },
        }
    }
    v
}

/// Keeps the first `max_lines` lines, and says whether any were dropped.
pub fn truncate_output<'a>(input: Vec<&'a str>, max_lines: usize) -> (r: (bool, Vec<&'a str>))
    ensures
        r.0 == (max_lines < input@.len()),
        r.1@ == if r.0 {
            input@.subrange(0, max_lines as int)
        } else {
            input@
        },
{
    let mut input = input;
    if max_lines < input.len() {
        input.truncate(max_lines);
        (true, input)
    } else {
        (false, input)
    }
}

/// Wraps text for display: each line is trimmed of white space at both ends,
/// lines that are then empty are dropped, and longer lines are cut into
/// pieces of `max_len` characters.
pub fn wrap_and_trim_output<'a>(input: &'a str, max_len: usize) -> (r: Vec<&'a str>)
    requires
        max_len > 0,
    ensures
        r@.map_values(|x: &str| x@) == wrap_from(input@, 0, max_len as int),
{
    let cs = chars_of(input);
    let n = cs.len();
    let ghost w = max_len as int;
    let mut ret: Vec<&'a str> = Vec::new();
    let mut start: usize = 0;
    assert(ret@.map_values(|x: &str| x@) + wrap_from(cs@, 0, w) =~= wrap_from(cs@, 0, w));
    loop
        invariant_except_break
            ret@.map_values(|x: &str| x@) + wrap_from(cs@, start as int, w) == wrap_from(cs@, 0, w),
        invariant
            n == cs@.len(),
            cs@ == input@,
            w == max_len,
            max_len > 0,
            start <= n,
        ensures
            ret@.map_values(|x: &str| x@) == wrap_from(cs@, 0, w),
        decreases n - start,
    {
        let mut e: usize = start;
        while e < n && cs[e] != '\n'
            invariant
                n == cs@.len(),
                start <= e <= n,
                line_end(cs@, start as int) == line_end(cs@, e as int),
            decreases n - e,
        {
            e = e + 1;
        }
        assert(line_end(cs@, e as int) == e);
        let mut a: usize = start;
        while a < e && is_whitespace(cs[a])
            invariant
                n == cs@.len(),
                e <= n,
                start <= a <= e,
                trim_lo(cs@, start as int, e as int) == trim_lo(cs@, a as int, e as int),
            decreases e - a,
        {
            a = a + 1;
        }
        let mut b: usize = e;
        while b > a && is_whitespace(cs[b - 1])
            invariant
                n == cs@.len(),
                e <= n,
                a <= b <= e,
                trim_hi(cs@, a as int, e as int) == trim_hi(cs@, a as int, b as int),
            decreases b - a,
        {
            b = b - 1;
        }
        let ghost base = ret@.map_values(|x: &str| x@);
        let ghost rest = if start <= e < n {
            wrap_from(cs@, e + 1, w)
        } else {
            Seq::empty()
        };
        assert(wrap_from(cs@, start as int, w) == pieces(cs@, a as int, b as int, w) + rest);
        let mut p: usize = a;
        while b - p > max_len
            invariant
                n == cs@.len(),
                cs@ == input@,
                w == max_len,
                max_len > 0,
                a <= p <= b <= n,
                ret@.map_values(|x: &str| x@) + pieces(cs@, p as int, b as int, w) == base + pieces(
                    cs@,
                    a as int,
                    b as int,
                    w,
                ),
            decreases b - p,
        {
            let ghost before = ret@.map_values(|x: &str| x@);
            let piece = input.substring_char(p, p + max_len);
            ret.push(piece);
            assert(ret@.map_values(|x: &str| x@) =~= before.push(cs@.subrange(p as int, p + w)));
            assert(pieces(cs@, p as int, b as int, w) == seq![cs@.subrange(p as int, p + w)]
                + pieces(cs@, p + w, b as int, w));
            assert(before.push(cs@.subrange(p as int, p + w)) + pieces(cs@, p + w, b as int, w)
                =~= before + pieces(cs@, p as int, b as int, w));
            p = p + max_len;
        }
        let ghost before = ret@.map_values(|x: &str| x@);
        if p < b {
            let piece = input.substring_char(p, b);
            ret.push(piece);
            assert(ret@.map_values(|x: &str| x@) =~= before.push(cs@.subrange(p as int, b as int)));
            assert(pieces(cs@, p as int, b as int, w) == seq![cs@.subrange(p as int, b as int)]);
            assert(before + pieces(cs@, p as int, b as int, w) =~= ret@.map_values(|x: &str| x@));
        } else {
            assert(pieces(cs@, p as int, b as int, w) =~= Seq::<Seq<char>>::empty());
            assert(before + pieces(cs@, p as int, b as int, w) =~= ret@.map_values(|x: &str| x@));
        }
        assert(ret@.map_values(|x: &str| x@) == base + pieces(cs@, a as int, b as int, w));
        assert(base + (pieces(cs@, a as int, b as int, w) + rest) =~= ret@.map_values(|x: &str| x@)
            + rest);
        if e >= n {
            assert(rest =~= Seq::<Seq<char>>::empty());
            assert(ret@.map_values(|x: &str| x@) + rest =~= ret@.map_values(|x: &str| x@));
            break ;
        }
        start = e + 1;
    }
    ret
}

} // verus!
