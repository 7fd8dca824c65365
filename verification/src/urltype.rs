//! URL-shape classification: a URL names either a single playable item
//! (video) or a collection of items (playlist), decided by fixed marker
//! substrings in its path.  A stricter guard, [`verify_url`], checks the
//! service domain and the trailing numeric id before anything else runs.

use crate::error::ParseError;
use crate::util::{contains_seq, matches_at};
use vstd::prelude::*;

verus! {

/// The kind of a catalog URL: a single video or a playlist of videos.
#[derive(Clone, Copy, Debug, PartialEq, Eq, Structural)]
pub enum URLType {
    Video,
    Playlist,
}

/// What classification returns: the collection markers win over the item
/// markers, and a URL with neither is unrecognized.
pub open spec fn spec_url_type(s: Seq<char>) -> Result<URLType, ParseError> {
    if contains_seq(s, "saeson"@) || contains_seq(s, "serie"@) {
        Ok(URLType::Playlist)
    } else if contains_seq(s, "episode"@) || contains_seq(s, "se"@) {
        Ok(URLType::Video)
    } else {
        Err(ParseError::UnrecognizedKind)
    }
}

impl URLType {
    /// Classifies a URL by its marker substrings.
    pub fn get(url: &str) -> (r: Result<URLType, ParseError>)
        ensures
            r == spec_url_type(url@),
    {
        if crate::util::has_substring(url, "saeson") || crate::util::has_substring(url, "serie") {
            Ok(URLType::Playlist)
        } else if crate::util::has_substring(url, "episode") || crate::util::has_substring(
            url,
            "se",
        ) {
            Ok(URLType::Video)
        } else {
            Err(ParseError::UnrecognizedKind)
        }
    }
}

/// Every URL containing a collection marker is classified as a playlist;
/// one containing an item marker and no collection marker is classified as
/// a video; one containing neither kind of marker is rejected.
pub proof fn lemma_classification(s: Seq<char>)
    ensures
        contains_seq(s, "saeson"@) || contains_seq(s, "serie"@) ==> spec_url_type(s) == Ok::<
            URLType,
            ParseError,
        >(URLType::Playlist),
        !contains_seq(s, "saeson"@) && !contains_seq(s, "serie"@) && (contains_seq(s, "episode"@)
            || contains_seq(s, "se"@)) ==> spec_url_type(s) == Ok::<URLType, ParseError>(
            URLType::Video,
        ),
        !contains_seq(s, "saeson"@) && !contains_seq(s, "serie"@) && !contains_seq(s, "episode"@)
            && !contains_seq(s, "se"@) ==> spec_url_type(s) == Err::<URLType, ParseError>(
            ParseError::UnrecognizedKind,
        ),
{
}

/// Whether `c` is a decimal digit as the `\d` class of the `regex` crate
/// matches it: the Unicode `Nd` category, which holds the characters `0`
/// to `9` among others.
pub uninterp spec fn is_decimal_digit_char(c: char) -> bool;

/// The guard pattern accepts a URL that contains, anywhere, the service
/// prefix (with either scheme) followed — with no line break in between —
/// by an underscore and at least one digit: the trailing numeric id.
pub open spec fn guard_prefix_at(s: Seq<char>, i: int, p: int) -> bool {
    (p == "https://www.dr.dk/drtv/"@.len() && matches_at(s, "https://www.dr.dk/drtv/"@, i)) || (p
        == "http://www.dr.dk/drtv/"@.len() && matches_at(s, "http://www.dr.dk/drtv/"@, i))
}

/// The language of the guard pattern, over character sequences.
pub open spec fn guard_pattern_match(s: Seq<char>) -> bool {
    exists|i: int, p: int, k: int|
        #![trigger guard_prefix_at(s, i, p), s[k]]
        guard_prefix_at(s, i, p) && i + p <= k && k + 1 < s.len() && s[k] == '_'
            && is_decimal_digit_char(s[k + 1]) && (forall|j: int| i + p <= j < k ==> s[j] != '\n')
}

/// Relies on `regex::Regex::is_match` with the fixed pattern in the body:
/// an unanchored search for either scheme followed by the service host and
/// path prefix, then any characters other than a line break, then an
/// underscore and one or more digits — the `\d` class, whose `Nd` category
/// holds the characters `0` to `9` among others.
#[verifier::external_body]
fn guard_regex_match(url: &str) -> (b: bool)
    ensures
        b == (exists|i: int, p: int, k: int|
            #![trigger guard_prefix_at(url@, i, p), url@[k]]
            (guard_prefix_at(url@, i, p) && i + p <= k && k + 1 < url@.len() && url@[k] == '_'
                && is_decimal_digit_char(url@[k + 1]) && (forall|j: int|
                i + p <= j < k ==> url@[j] != '\n'))),
{
    regex::Regex::new(r#"(((https)|(http))(://www\.dr\.dk/drtv/)).*_\d+"#)
        .map(|re| re.is_match(url))
        .unwrap_or(false)
}

/// Rejects the input unless the restrictive guard pattern (service domain
/// plus trailing numeric id) matches; a hard precondition for all
/// downstream operations.
pub fn verify_url(url: &str) -> (r: Result<(), ParseError>)
    ensures
        r == if guard_pattern_match(url@) {
            Ok::<(), ParseError>(())
        } else {
            Err::<(), ParseError>(ParseError::MalformedUrl)
        },
{
    if guard_regex_match(url) {
        Ok(())
    } else {
        Err(ParseError::MalformedUrl)
    }
}

} // verus!
