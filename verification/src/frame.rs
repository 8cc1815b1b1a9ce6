//! Syslog framing: seven header fields, each ended by one space, then the
//! payload.

use vstd::prelude::*;
use vstd::std_specs::iter::IteratorSpec;
use vstd::string::*;

use crate::sample::ParseError;

verus! {

/// Number of header fields that precede the payload.
pub const HEADER_FIELDS: usize = 7;

/// What is left of `s` behind its `n`-th space, or `None` where `s` holds
/// fewer than `n` spaces.
pub open spec fn skip_fields(s: Seq<char>, n: nat) -> Option<Seq<char>>
    decreases s.len(),
{
    if n == 0 {
        Some(s)
    } else if s.len() == 0 {
        None
    } else if s[0] == ' ' {
        skip_fields(s.drop_first(), (n - 1) as nat)
    } else {
        skip_fields(s.drop_first(), n)
    }
}

/// The payload of a line: everything behind the seventh space.
pub open spec fn payload_of(line: Seq<char>) -> Option<Seq<char>> {
    skip_fields(line, HEADER_FIELDS as nat)
}

/// The test for the character that ends a header field.
pub open spec fn is_space() -> spec_fn(char) -> bool {
    |c: char| c == ' '
}

/// Number of spaces in `s`.
pub open spec fn spaces(s: Seq<char>) -> nat {
    s.filter(is_space()).len()
}

/// Whether a line has the shape of a syslog line: it starts with `<`.
pub open spec fn is_syslog(line: Seq<char>) -> bool {
    line.len() > 0 && line[0] == '<'
}

/// What `skip_fields` gives, told by counting spaces: the rest behind the
/// space that has `n - 1` spaces before it, and `None` where `s` holds
/// fewer than `n` spaces.
proof fn lemma_skip_fields(s: Seq<char>, n: nat)
    ensures
        match skip_fields(s, n) {
            Some(p) => if n == 0 {
                p == s
            } else {
                exists|at: int|
                    0 <= at < s.len() && s[at] == ' ' && #[trigger] spaces(s.take(at)) == n - 1
                        && p == s.skip(at + 1)
            },
            None => spaces(s) < n,
        },
    decreases s.len(),
{
    reveal(Seq::filter);
    if n == 0 {
    } else if s.len() == 0 {
    } else {
        let tail = s.drop_first();
        let m = if s[0] == ' ' {
            (n - 1) as nat
        } else {
            n
        };
        lemma_skip_fields(tail, m);
        assert(s =~= seq![s[0]] + tail);
        tail.lemma_filter_prepend(s[0], is_space());
        match skip_fields(tail, m) {
            None => {},
            Some(p) => {
                if m == 0 {
                    assert(s.take(0) =~= Seq::<char>::empty());
                    assert(p == s.skip(1));
                    assert(spaces(s.take(0)) == n - 1);
                } else {
                    let back = choose|at: int|
                        0 <= at < tail.len() && tail[at] == ' ' && #[trigger] spaces(tail.take(at))
                            == m - 1 && p == tail.skip(at + 1);
                    let at = back + 1;
                    assert(s.take(at) =~= seq![s[0]] + tail.take(back));
                    tail.take(back).lemma_filter_prepend(s[0], is_space());
                    assert(tail.skip(back + 1) =~= s.skip(at + 1));
                    assert(spaces(s.take(at)) == n - 1);
                }
            },
        }
    }
}

/// The payload of a line is what follows its seventh space, and a line has
/// a payload where it holds seven spaces or more.
pub proof fn lemma_payload_follows_seventh_space(line: Seq<char>)
    ensures
        payload_of(line) is Some <==> spaces(line) >= 7,
        match payload_of(line) {
            Some(p) => exists|at: int|
                0 <= at < line.len() && line[at] == ' ' && #[trigger] spaces(line.take(at)) == 6
                    && p == line.skip(at + 1),
            None => spaces(line) < 7,
        },
{
    lemma_skip_fields(line, HEADER_FIELDS as nat);
    if let Some(p) = payload_of(line) {
        let at = choose|at: int|
            0 <= at < line.len() && line[at] == ' ' && #[trigger] spaces(line.take(at)) == 6 && p
                == line.skip(at + 1);
        let head = line.take(at).push(' ');
        assert(line =~= head + p);
        line.take(at).lemma_filter_push(' ', is_space());
        Seq::filter_distributes_over_add(head, p, is_space());
    }
}

/// Tells whether `line` starts with `<`.
pub fn looks_like_syslog(line: &str) -> (r: bool)
    ensures
        r == is_syslog(line@),
{
    let mut it = line.chars();
    let ghost before = it;
    let first = it.next();
    proof {
        assert(next_post(&before, &it, first));
    }
    match first {
        Some(c) => c == '<',
        None => false,
    }
}

/// Cuts the payload out of a line.
///
/// The line is split at its first seven spaces; what follows the seventh is
/// the payload, spaces included.  A line with fewer than seven spaces is
/// malformed.
pub fn payload(line: &str) -> (r: Result<&str, ParseError>)
    ensures
        match r {
            Ok(p) => payload_of(line@) == Some(p@),
            Err(e) => e is MalformedFrame && payload_of(line@) is None,
        },
{
    let total = line.unicode_len();
    let mut it = line.chars();
    let mut at: usize = 0;
    let mut seen: usize = 0;
    loop
        invariant
            it.obeys_prophetic_iter_laws(),
            it.decrease() is Some,
            seen < HEADER_FIELDS,
            total == line@.len(),
            at <= total,
            it.remaining() == line@.skip(at as int),
            payload_of(line@) == skip_fields(it.remaining(), (HEADER_FIELDS - seen) as nat),
        decreases it.decrease()->0,
    {
        let ghost before = it;
        let next = it.next();
        proof {
            assert(next_post(&before, &it, next));
        }
        match next {
            None => {
                return Err(ParseError::MalformedFrame);
            },
            Some(c) => {
                proof {
                    assert(line@.skip(at as int).drop_first() =~= line@.skip(at + 1));
                }
                at = at + 1;
                if c == ' ' {
                    seen = seen + 1;
                    if seen == HEADER_FIELDS {
                        let rest = line.substring_char(at, total);
                        proof {
                            assert(line@.subrange(at as int, total as int) =~= line@.skip(
                                at as int,
                            ));
                        }
                        return Ok(rest);
                    }
                }
            },
        }
    }
}

} // verus!
