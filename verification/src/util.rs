//! Small string utilities: stripping the line-ending artifacts of
//! line-buffered input, bounded character searches, and filename
//! legalization.

use crate::error::GenericError;
use vstd::prelude::*;
use vstd::string::StrSliceExecFns;
use vstd::string::StringExecFns;

verus! {

/// The pattern occurs in `s` starting at position `i`.
pub open spec fn matches_at(s: Seq<char>, pat: Seq<char>, i: int) -> bool {
    0 <= i && i + pat.len() <= s.len() && s.subrange(i, i + pat.len() as int) == pat
}

/// `prefix` is a prefix of `s`.
pub open spec fn is_prefix_of(prefix: Seq<char>, s: Seq<char>) -> bool {
    prefix.len() <= s.len() && s.subrange(0, prefix.len() as int) == prefix
}

/// The pattern occurs somewhere in `s`.
pub open spec fn contains_seq(s: Seq<char>, pat: Seq<char>) -> bool {
    exists|i: int| matches_at(s, pat, i)
}

pub(crate) fn prefix_matches_at(s: &str, pat: &str, i: usize) -> (b: bool)
    requires
        i + pat@.len() <= s@.len() <= usize::MAX,
    ensures
        b == matches_at(s@, pat@, i as int),
{
    let m = pat.unicode_len();
    let mut j: usize = 0;
    while j < m
        invariant
            j <= m == pat@.len(),
            i + m <= s@.len() <= usize::MAX,
            forall|k: int| 0 <= k < j ==> s@[i + k] == pat@[k],
        decreases m - j,
    {
        if s.get_char(i + j) != pat.get_char(j) {
            proof {
                if s@.subrange(i as int, i + m) == pat@ {
                    assert(s@.subrange(i as int, i + m)[j as int] == s@[i + j]);
                }
            }
            return false;
        }
        j = j + 1;
    }
    proof {
        assert(s@.subrange(i as int, i + m) =~= pat@);
    }
    true
}

/// Whether the pattern occurs anywhere in the string.
pub fn has_substring(s: &str, pat: &str) -> (b: bool)
    ensures
        b == contains_seq(s@, pat@),
{
    let n = s.unicode_len();
    let m = pat.unicode_len();
    if m > n {
        proof {
            assert forall|q: int| !matches_at(s@, pat@, q) by {
                assert(q + pat@.len() > s@.len() || q < 0);
            }
        }
        return false;
    }
    if m == 0 {
        proof {
            assert(s@.subrange(0, 0) =~= pat@);
            assert(matches_at(s@, pat@, 0));
        }
        return true;
    }
    let mut i: usize = 0;
    while i <= n - m
        invariant
            1 <= m <= n == s@.len(),
            m == pat@.len(),
            i <= n - m + 1,
            forall|q: int| 0 <= q < i ==> !matches_at(s@, pat@, q),
        decreases n - i,
    {
        if prefix_matches_at(s, pat, i) {
            return true;
        }
        i = i + 1;
    }
    proof {
        assert forall|q: int| !matches_at(s@, pat@, q) by {
            if 0 <= q < i {
            } else if q >= i {
                assert(q + pat@.len() > s@.len());
            }
        }
    }
    false
}

/// A character that line-buffered input may leave at the end of a line.
pub open spec fn is_newline_char(c: char) -> bool {
    c == '\r' || c == '\n'
}

/// The sequence with every trailing carriage-return / line-feed removed.
pub open spec fn strip_trailing_newlines(s: Seq<char>) -> Seq<char>
    decreases s.len(),
{
    if s.len() > 0 && is_newline_char(s[s.len() - 1]) {
        strip_trailing_newlines(s.drop_last())
    } else {
        s
    }
}

/// Stripping is idempotent.
pub proof fn lemma_strip_trailing_newlines_idempotent(s: Seq<char>)
    ensures
        strip_trailing_newlines(strip_trailing_newlines(s)) == strip_trailing_newlines(s),
    decreases s.len(),
{
    if s.len() > 0 && is_newline_char(s[s.len() - 1]) {
        lemma_strip_trailing_newlines_idempotent(s.drop_last());
    }
}

/// Appending carriage returns or line feeds does not change the stripped value.
pub proof fn lemma_strip_trailing_newlines_append(s: Seq<char>, c: char)
    requires
        is_newline_char(c),
    ensures
        strip_trailing_newlines(s.push(c)) == strip_trailing_newlines(s),
{
    assert(s.push(c).drop_last() =~= s);
}

fn newline_at_before(s: &str, end: usize) -> (b: bool)
    requires
        0 < end <= s@.len(),
    ensures
        b == is_newline_char(s@[end - 1]),
{
    let c = s.get_char(end - 1);
    c == '\r' || c == '\n'
}

/// Returns the input with trailing carriage-return / line-feed characters
/// removed; everything before them is kept as it is.
pub fn remove_newline(string: &str) -> (r: &str)
    ensures
        r@ == strip_trailing_newlines(string@),
{
    let len = string.unicode_len();
    let mut end: usize = len;
    proof {
        assert(string@.subrange(0, len as int) =~= string@);
    }
    while end > 0 && newline_at_before(string, end)
        invariant
            end <= len == string@.len(),
            strip_trailing_newlines(string@) == strip_trailing_newlines(
                string@.subrange(0, end as int),
            ),
        decreases end,
    {
        proof {
            assert(string@.subrange(0, end - 1) =~= string@.subrange(0, end as int).drop_last());
        }
        end = end - 1;
    }
    proof {
        assert(string@.subrange(0, end as int).len() == end);
        if end > 0 {
            assert(string@.subrange(0, end as int)[end - 1] == string@[end - 1]);
        }
    }
    string.substring_char(0, end)
}

/// In-place variant of [`remove_newline`]: removes the trailing
/// carriage-return / line-feed characters of the string.
pub fn remove_newline_string(string: &mut String)
    ensures
        final(string)@ == strip_trailing_newlines(old(string)@),
{
    let stripped = String::from_str(remove_newline(string.as_str()));
    *string = stripped;
}

/// The least position in `from ..= to` (and inside the string) holding
/// `to_find`, or a `GenericError` when there is none.
pub fn find_char(string: &str, to_find: char, from: usize, to: usize) -> (r: Result<
    usize,
    GenericError,
>)
    ensures
        match r {
            Ok(i) => from <= i <= to && i < string@.len() && string@[i as int] == to_find
                && forall|j: int| from <= j < i ==> string@[j] != to_find,
            Err(_) => forall|j: int|
                from <= j <= to && j < string@.len() ==> string@[j] != to_find,
        },
{
    let n = string.unicode_len();
    let mut i: usize = from;
    while i < n && i <= to
        invariant
            from <= i,
            n == string@.len(),
            forall|j: int| from <= j < i ==> string@[j] != to_find,
        decreases n - i,
    {
        if string.get_char(i) == to_find {
            return Ok(i);
        }
        i = i + 1;
    }
    Err(GenericError(String::from_str("character not found in the given range")))
}

/// Searches from the end of the string: with `i` counting positions from the
/// last character backwards, the least `i` in `from ..= to` such that the
/// character at `len - 1 - i` is `to_find`.  Returns `len - i`, the position
/// just after the found character, or a `GenericError` when there is none.
pub fn rfind_char(string: &str, to_find: char, from: usize, to: usize) -> (r: Result<
    usize,
    GenericError,
>)
    ensures
        match r {
            Ok(p) => {
                let n = string@.len();
                &&& 1 <= p <= n
                &&& from <= n - p <= to
                &&& string@[p - 1] == to_find
                &&& forall|q: int| p <= q < n && from <= n - 1 - q ==> string@[q] != to_find
            },
            Err(_) => {
                let n = string@.len();
                forall|q: int| 0 <= q < n && from <= n - 1 - q <= to ==> string@[q] != to_find
            },
        },
{
    let n = string.unicode_len();
    let mut i: usize = from;
    while i < n && i <= to
        invariant
            from <= i,
            n == string@.len(),
            forall|q: int| n - i <= q < n && from <= n - 1 - q ==> string@[q] != to_find,
        decreases n - i,
    {
        if string.get_char(n - 1 - i) == to_find {
            return Ok(n - i);
        }
        i = i + 1;
    }
    Err(GenericError(String::from_str("character not found in the given range")))
}

/// A character that must not appear in a filename.
pub open spec fn is_illegal_filename_char(c: char) -> bool {
    c == '<' || c == '>' || c == ':' || c == '"' || c == '/' || c == '\\' || c == '|' || c == '?'
        || c == '*'
}

/// The sequence with every illegal filename character removed.
pub open spec fn legal_filename_chars(s: Seq<char>) -> Seq<char> {
    s.filter(|c: char| !is_illegal_filename_char(c))
}

proof fn lemma_filter_push<A>(s: Seq<A>, c: A, pred: spec_fn(A) -> bool)
    ensures
        s.push(c).filter(pred) == if pred(c) {
            s.filter(pred).push(c)
        } else {
            s.filter(pred)
        },
{
    reveal(Seq::filter);
    assert(s.push(c).drop_last() =~= s);
    assert(s.push(c).last() == c);
}

fn legal_at(name: &str, i: usize) -> (b: bool)
    requires
        i < name@.len(),
    ensures
        b == !is_illegal_filename_char(name@[i as int]),
{
    let c = name.get_char(i);
    !(c == '<' || c == '>' || c == ':' || c == '"' || c == '/' || c == '\\' || c == '|' || c == '?'
        || c == '*')
}

/// The name with every character that is illegal in a filename removed.
pub fn legalize_filename(name: &str) -> (r: String)
    ensures
        r@ == legal_filename_chars(name@),
{
    let n = name.unicode_len();
    let mut out = String::new();
    let mut i: usize = 0;
    proof {
        assert(name@.subrange(0, 0) =~= Seq::<char>::empty());
        reveal(Seq::filter);
    }
    while i < n
        invariant
            i <= n == name@.len(),
            out@ == legal_filename_chars(name@.subrange(0, i as int)),
        decreases n - i,
    {
        proof {
            assert(name@.subrange(0, i + 1) =~= name@.subrange(0, i as int).push(name@[i as int]));
            lemma_filter_push(
                name@.subrange(0, i as int),
                name@[i as int],
                |c: char| !is_illegal_filename_char(c),
            );
        }
        if legal_at(name, i) {
            let piece = name.substring_char(i, i + 1);
            out.append(piece);
            proof {
                assert(piece@ =~= seq![name@[i as int]]);
                assert(out@ =~= legal_filename_chars(name@.subrange(0, i as int)).push(
                    name@[i as int],
                ));
            }
        }
        i = i + 1;
    }
    proof {
        assert(name@.subrange(0, n as int) =~= name@);
    }
    out
}

} // verus!
