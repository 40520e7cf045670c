//! Text rules shared by the stages: comparing, trimming and counting words.

use vstd::prelude::*;
use vstd::std_specs::iter::IteratorSpec;
use vstd::string::*;

verus! {

broadcast use vstd::string::group_string_axioms;

/// Whether `c` is whitespace: whether it has the Unicode property
/// White_Space. These are the control characters from tab to carriage
/// return, the space, next line, the no-break space, the ogham space mark,
/// the spaces from en quad to hair space, the line and paragraph separators,
/// the narrow no-break space, the medium mathematical space and the
/// ideographic space.
pub open spec fn white_space(c: char) -> bool {
    let code = c as u32;
    ||| 0x0009 <= code <= 0x000d
    ||| code == 0x0020
    ||| code == 0x0085
    ||| code == 0x00a0
    ||| code == 0x1680
    ||| 0x2000 <= code <= 0x200a
    ||| code == 0x2028
    ||| code == 0x2029
    ||| code == 0x202f
    ||| code == 0x205f
    ||| code == 0x3000
}

/// Asks `char::is_whitespace`, which tells whether a character has the
/// Unicode property White_Space. Claimed of it: that the characters with
/// the property are the twenty-five that `white_space` lists.
#[verifier::external_body]
fn is_whitespace(c: char) -> (b: bool)
    ensures
        b == white_space(c),
{
    c.is_whitespace()
}

/// `s` without its leading whitespace.
pub open spec fn skip_leading(s: Seq<char>) -> Seq<char>
    decreases s.len(),
{
    if s.len() > 0 && white_space(s[0]) {
        skip_leading(s.drop_first())
    } else {
        s
    }
}

/// `s` without its trailing whitespace.
pub open spec fn skip_trailing(s: Seq<char>) -> Seq<char>
    decreases s.len(),
{
    if s.len() > 0 && white_space(s.last()) {
        skip_trailing(s.drop_last())
    } else {
        s
    }
}

/// `s` without its leading and trailing whitespace.
pub open spec fn trimmed(s: Seq<char>) -> Seq<char> {
    skip_trailing(skip_leading(s))
}

/// Whether a word begins at index `i` of `s`: a character that is not
/// whitespace, at the start or after whitespace.
pub open spec fn starts_word(s: Seq<char>, i: int) -> bool {
    !white_space(s[i]) && (i == 0 || white_space(s[i - 1]))
}

/// The number of words in `s`: of maximal runs of characters that are not
/// whitespace.
pub open spec fn word_count(s: Seq<char>) -> nat
    decreases s.len(),
{
    if s.len() == 0 {
        0
    } else {
        word_count(s.drop_last()) + if starts_word(s, s.len() - 1) {
            1nat
        } else {
            0nat
        }
    }
}

/// Leading whitespace ends at the first character that is not whitespace.
proof fn lemma_skip_leading(s: Seq<char>, a: int)
    requires
        0 <= a <= s.len(),
        forall|k: int| 0 <= k < a ==> white_space(s[k]),
        a == s.len() || !white_space(s[a]),
    ensures
        skip_leading(s) == s.subrange(a, s.len() as int),
    decreases a,
{
    if a == 0 {
        assert(s.subrange(0, s.len() as int) =~= s);
    } else {
        let rest = s.drop_first();
        assert forall|k: int| 0 <= k < a - 1 implies white_space(rest[k]) by {
            assert(rest[k] == s[k + 1]);
        }
        lemma_skip_leading(rest, a - 1);
        assert(rest.subrange(a - 1, rest.len() as int) =~= s.subrange(a, s.len() as int));
    }
}

/// Trailing whitespace begins after the last character that is not
/// whitespace.
proof fn lemma_skip_trailing(s: Seq<char>, e: int)
    requires
        0 <= e <= s.len(),
        forall|k: int| e <= k < s.len() ==> white_space(s[k]),
        e == 0 || !white_space(s[e - 1]),
    ensures
        skip_trailing(s) == s.subrange(0, e),
    decreases s.len() - e,
{
    if e == s.len() {
        assert(s.subrange(0, e) =~= s);
    } else {
        let rest = s.drop_last();
        lemma_skip_trailing(rest, e);
        assert(rest.subrange(0, e) =~= s.subrange(0, e));
    }
}

/// The number of words is at most the number of characters.
pub proof fn lemma_word_count_bound(s: Seq<char>)
    ensures
        word_count(s) <= s.len(),
    decreases s.len(),
{
    if s.len() > 0 {
        lemma_word_count_bound(s.drop_last());
    }
}

/// Whether two texts hold the same characters.
pub fn same_text(a: &str, b: &str) -> (same: bool)
    ensures
        same == (a@ == b@),
{
    let mut x = a.chars();
    let mut y = b.chars();
    let ghost mut i: int = 0;
    loop
        invariant
            0 <= i <= a@.len(),
            i <= b@.len(),
            x.obeys_prophetic_iter_laws(),
            y.obeys_prophetic_iter_laws(),
            x.remaining() == a@.skip(i),
            y.remaining() == b@.skip(i),
            a@.take(i) == b@.take(i),
        decreases a@.len() - i,
    {
        let p = x.next();
        let q = y.next();
        match (p, q) {
            (None, None) => {
                proof {
                    assert(a@ =~= a@.take(i));
                    assert(b@ =~= b@.take(i));
                }
                return true;
            },
            (Some(c), Some(d)) => {
                if c != d {
                    proof {
                        assert(a@[i] == c);
                        assert(b@[i] == d);
                    }
                    return false;
                }
                proof {
                    assert(a@.take(i + 1) =~= a@.take(i).push(c));
                    assert(b@.take(i + 1) =~= b@.take(i).push(d));
                    assert(a@.skip(i).drop_first() =~= a@.skip(i + 1));
                    assert(b@.skip(i).drop_first() =~= b@.skip(i + 1));
                    i = i + 1;
                }
            },
            _ => {
                proof {
                    assert(a@.len() != b@.len());
                }
                return false;
            },
        }
    }
}

/// The text without its leading and trailing whitespace.
pub fn trim(text: &str) -> (out: String)
    ensures
        out@ == trimmed(text@),
{
    let len: usize = text.unicode_len();
    let mut seen: bool = false;
    let mut start: usize = 0;
    let mut end: usize = 0;
    let mut n: usize = 0;
    for c in it: text.chars()
        invariant
            n == it.index(),
            it.seq() == text@,
            len == text@.len(),
            !seen ==> forall|k: int| 0 <= k < n ==> white_space(text@[k]),
            seen ==> start < end <= n,
            seen ==> forall|k: int| 0 <= k < start ==> white_space(text@[k]),
            seen ==> !white_space(text@[start as int]),
            seen ==> !white_space(text@[end - 1]),
            seen ==> forall|k: int| end <= k < n ==> white_space(text@[k]),
    {
        if !is_whitespace(c) {
            if !seen {
                seen = true;
                start = n;
            }
            end = n + 1;
        }
        n = n + 1;
    }
    if !seen {
        proof {
            lemma_skip_leading(text@, len as int);
            assert(text@.subrange(len as int, len as int) =~= Seq::<char>::empty());
        }
        return String::new();
    }
    proof {
        let s = text@;
        lemma_skip_leading(s, start as int);
        let t = s.subrange(start as int, len as int);
        assert forall|k: int| end - start <= k < t.len() implies white_space(t[k]) by {
            assert(t[k] == s[k + start]);
        }
        assert(t[end - start - 1] == s[end - 1]);
        lemma_skip_trailing(t, end - start);
        assert(t.subrange(0, end - start) =~= s.subrange(start as int, end as int));
    }
    String::from_str(text.substring_char(start, end))
}

/// Counts the words of the text: its maximal runs of characters that are
/// not whitespace.
pub fn count_words(text: &str) -> (count: usize)
    ensures
        count == word_count(text@),
{
    let len: usize = text.unicode_len();
    let mut count: usize = 0;
    let mut after_space: bool = true;
    let mut n: usize = 0;
    for c in it: text.chars()
        invariant
            n == it.index(),
            it.seq() == text@,
            len == text@.len(),
            count == word_count(text@.take(n as int)),
            count <= n,
            after_space == (n == 0 || white_space(text@[n - 1])),
    {
        proof {
            assert(text@.take(n + 1).drop_last() =~= text@.take(n as int));
        }
        let space = is_whitespace(c);
        if !space && after_space {
            count = count + 1;
        }
        after_space = space;
        n = n + 1;
    }
    proof {
        assert(text@.take(len as int) =~= text@);
    }
    count
}

} // verus!
