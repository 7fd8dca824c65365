//! The catalog client: turns public-facing URLs into item descriptors,
//! query endpoints, and item-identifier lists.
//!
//! An item's URL carries its human-readable name as the last `/`-delimited
//! path segment and its identifier as the trailing `_<digits>` suffix; both
//! are parsed here, after stripping the trailing line-ending artifacts of
//! line-buffered input.

use crate::error::{FetchError, ParseError};
use crate::models::EpisodeInfo;
use crate::util::{remove_newline, strip_trailing_newlines};
use vstd::prelude::*;
use vstd::string::StrSliceExecFns;
use vstd::string::StringExecFns;

verus! {

/// The largest position of `c` in `s`, or `-1` when `c` does not occur.
pub open spec fn last_index_of(s: Seq<char>, c: char) -> int
    decreases s.len(),
{
    if s.len() == 0 {
        -1
    } else if s[s.len() - 1] == c {
        s.len() - 1
    } else {
        last_index_of(s.drop_last(), c)
    }
}

/// What [`last_index_of`] returns: the position of the last occurrence.
pub proof fn lemma_last_index_of(s: Seq<char>, c: char)
    ensures
        ({
            let i = last_index_of(s, c);
            &&& -1 <= i < s.len()
            &&& i >= 0 ==> s[i] == c
            &&& forall|j: int| i < j < s.len() ==> s[j] != c
        }),
    decreases s.len(),
{
    if s.len() > 0 && s[s.len() - 1] != c {
        lemma_last_index_of(s.drop_last(), c);
        assert forall|j: int| last_index_of(s, c) < j < s.len() implies s[j] != c by {
            if j < s.len() - 1 {
                assert(s.drop_last()[j] == s[j]);
            }
        }
    }
}

/// The least position of `c` in `s` at or after `from`, or `-1` when `c`
/// does not occur there.
pub open spec fn first_index_from(s: Seq<char>, c: char, from: int) -> int
    decreases s.len() - from,
{
    if !(0 <= from < s.len()) {
        -1
    } else if s[from] == c {
        from
    } else {
        first_index_from(s, c, from + 1)
    }
}

/// What [`first_index_from`] returns: the position of the first occurrence
/// at or after `from`.
pub proof fn lemma_first_index_from(s: Seq<char>, c: char, from: int)
    requires
        0 <= from,
    ensures
        ({
            let i = first_index_from(s, c, from);
            &&& i == -1 || from <= i < s.len()
            &&& i >= 0 ==> s[i] == c
            &&& forall|j: int| from <= j < s.len() && (i == -1 || j < i) ==> s[j] != c
        }),
    decreases s.len() - from,
{
    if 0 <= from < s.len() && s[from] != c {
        lemma_first_index_from(s, c, from + 1);
    }
}

/// The name span of an already-stripped item URL, given the position just
/// after the name's leading separator: up to the next `/`, or to the end
/// when there is none after the start.
pub open spec fn name_span(s: Seq<char>, start: int) -> Seq<char> {
    let e = first_index_from(s, '/', start);
    if e <= start {
        s.subrange(start, s.len() as int)
    } else {
        s.subrange(start, e)
    }
}

/// The human-readable name of an already-stripped item URL: the last
/// `/`-delimited path segment, taking the segment before a trailing `/`
/// when the URL ends with one.
pub open spec fn spec_episode_name(s: Seq<char>) -> Result<Seq<char>, ParseError> {
    let ls = last_index_of(s, '/');
    if ls == -1 {
        Err(ParseError::MalformedUrl)
    } else if ls + 1 == s.len() {
        let ls2 = last_index_of(s.subrange(0, s.len() - 1), '/');
        if ls2 == -1 {
            Err(ParseError::MalformedUrl)
        } else {
            Ok(name_span(s, ls2 + 1))
        }
    } else {
        Ok(name_span(s, ls + 1))
    }
}

/// The identifier of an already-stripped item URL: what follows the last
/// `_`, up to the next `/` or the end.
pub open spec fn spec_episode_id(s: Seq<char>) -> Result<Seq<char>, ParseError> {
    let us = last_index_of(s, '_');
    if us == -1 {
        Err(ParseError::MalformedUrl)
    } else {
        Ok(name_span(s, us + 1))
    }
}

/// What parsing an item URL yields: the URL is first stripped of trailing
/// line endings, then its name and identifier are located; either separator
/// being absent makes the URL malformed.
pub open spec fn spec_episode_info(s: Seq<char>) -> Result<(Seq<char>, Seq<char>), ParseError> {
    let clean = strip_trailing_newlines(s);
    match (spec_episode_name(clean), spec_episode_id(clean)) {
        (Ok(name), Ok(id)) => Ok((name, id)),
        _ => Err(ParseError::MalformedUrl),
    }
}

/// Parsing is a function of the URL's characters alone — parsing the same
/// URL twice yields identical descriptors — and trailing line endings do
/// not change the result: a URL with one more of them appended parses as
/// the URL itself does, and stripping them before parsing yields the same
/// result as leaving them in place.
pub proof fn lemma_episode_info_ignores_trailing_newlines(s: Seq<char>, c: char)
    requires
        crate::util::is_newline_char(c),
    ensures
        spec_episode_info(s.push(c)) == spec_episode_info(s),
        spec_episode_info(strip_trailing_newlines(s)) == spec_episode_info(s),
{
    crate::util::lemma_strip_trailing_newlines_append(s, c);
    crate::util::lemma_strip_trailing_newlines_idempotent(s);
}

fn find_span_end(s: &str, start: usize, n: usize) -> (end: usize)
    requires
        n == s@.len() <= usize::MAX,
        0 < start <= n,
    ensures
        start <= end <= n,
        s@.subrange(start as int, end as int) == name_span(s@, start as int),
{
    proof {
        lemma_first_index_from(s@, '/', start as int);
    }
    match crate::util::find_char(s, '/', start, n) {
        Ok(i) => {
            proof {
                let f = first_index_from(s@, '/', start as int);
                assert(f == i);
            }
            if i <= start {
                n
            } else {
                i
            }
        },
        Err(_) => {
            proof {
                let f = first_index_from(s@, '/', start as int);
                if f >= 0 {
                    assert(s@[f] == '/');
                }
            }
            n
        },
    }
}

/// Parses an item's public URL into its descriptor, after stripping the
/// trailing line-ending artifacts of line-buffered input.
pub fn get_episode_info(url: &str) -> (r: Result<EpisodeInfo, ParseError>)
    ensures
        r matches Ok(info) ==> (spec_episode_info(url@) matches Ok(p) && info.name@ == p.0
            && info.id@ == p.1),
        r matches Err(e) ==> spec_episode_info(url@) == Err::<(Seq<char>, Seq<char>), ParseError>(
            e,
        ),
{
    let clean = remove_newline(url);
    let n = clean.unicode_len();
    proof {
        lemma_last_index_of(clean@, '/');
        lemma_last_index_of(clean@, '_');
    }
    // The position just after the `/` that leads the name.
    let name_start: usize = match crate::util::rfind_char(clean, '/', 0, n) {
        Ok(p) => p,
        Err(_) => {
            return Err(ParseError::MalformedUrl);
        },
    };
    let name_start: usize = if name_start == n {
        proof {
            lemma_last_index_of(clean@.subrange(0, n - 1), '/');
        }
        match crate::util::rfind_char(clean, '/', 1, n - 1) {
            Ok(p) => {
                proof {
                    let t = clean@.subrange(0, n - 1);
                    let i = last_index_of(t, '/');
                    assert(t[p - 1] == clean@[p - 1]);
                    if i >= 0 {
                        assert(clean@[i] == t[i]);
                    }
                    assert(i == p - 1);
                }
                p
            },
            Err(_) => {
                proof {
                    let t = clean@.subrange(0, n - 1);
                    let i = last_index_of(t, '/');
                    if i >= 0 {
                        assert(clean@[i] == t[i]);
                    }
                }
                return Err(ParseError::MalformedUrl);
            },
        }
    } else {
        name_start
    };
    let name_end = find_span_end(clean, name_start, n);
    // The position just after the last `_`: the identifier's start.
    let id_start: usize = match crate::util::rfind_char(clean, '_', 0, n) {
        Ok(p) => p,
        Err(_) => {
            return Err(ParseError::MalformedUrl);
        },
    };
    let id_end = find_span_end(clean, id_start, n);
    let name = clean.substring_char(name_start, name_end);
    let id = clean.substring_char(id_start, id_end);
    Ok(EpisodeInfo { name: String::from_str(name), id: String::from_str(id) })
}

/// The largest position at which the pattern occurs in `s` when scanning
/// candidates at or below `i`, or `-1` when it occurs at none of them.
pub open spec fn last_match_from(s: Seq<char>, pat: Seq<char>, i: int) -> int
    decreases i + 1,
{
    if i < 0 {
        -1
    } else if crate::util::matches_at(s, pat, i) {
        i
    } else {
        last_match_from(s, pat, i - 1)
    }
}

/// The largest position at which the pattern occurs in `s`, or `-1`.
pub open spec fn last_match(s: Seq<char>, pat: Seq<char>) -> int {
    last_match_from(s, pat, s.len() - pat.len())
}

/// What [`last_match_from`] returns: the largest occurrence at or below `i`.
pub proof fn lemma_last_match_from(s: Seq<char>, pat: Seq<char>, i: int)
    ensures
        ({
            let m = last_match_from(s, pat, i);
            &&& m == -1 || 0 <= m <= i
            &&& m >= 0 ==> crate::util::matches_at(s, pat, m)
            &&& forall|j: int| m < j <= i ==> !crate::util::matches_at(s, pat, j)
        }),
    decreases i + 1,
{
    if i >= 0 && !crate::util::matches_at(s, pat, i) {
        lemma_last_match_from(s, pat, i - 1);
    }
}

/// The largest position at which the pattern occurs in the string, when it
/// occurs at all.
pub(crate) fn find_last_match(s: &str, pat: &str) -> (r: Option<usize>)
    requires
        pat@.len() >= 1,
    ensures
        r matches Some(i) ==> last_match(s@, pat@) == i,
        r is None ==> last_match(s@, pat@) == -1,
{
    let n = s.unicode_len();
    let m = pat.unicode_len();
    proof {
        lemma_last_match_from(s@, pat@, s@.len() - pat@.len());
    }
    if m > n {
        return None;
    }
    let mut i: usize = n - m + 1;
    while i > 0
        invariant
            i <= n - m + 1,
            1 <= m == pat@.len(),
            m <= n == s@.len() <= usize::MAX,
            forall|j: int| i <= j <= n - m ==> !crate::util::matches_at(s@, pat@, j),
        decreases i,
    {
        i = i - 1;
        if crate::util::prefix_matches_at(s, pat, i) {
            proof {
                let lm = last_match(s@, pat@);
                lemma_last_match_from(s@, pat@, s@.len() - pat@.len());
            }
            return Some(i);
        }
    }
    None
}

/// How one character of a show path is written in the page query: `/` and
/// the space are percent-encoded, everything else is kept.
pub open spec fn encoded_char(c: char) -> Seq<char> {
    if c == '/' {
        "%2F"@
    } else if c == ' ' {
        "%20"@
    } else {
        seq![c]
    }
}

/// The percent-encoded form of a show path.
pub open spec fn percent_encoded(s: Seq<char>) -> Seq<char>
    decreases s.len(),
{
    if s.len() == 0 {
        Seq::empty()
    } else {
        percent_encoded(s.drop_last()) + encoded_char(s.last())
    }
}

fn percent_encode(s: &str) -> (r: String)
    ensures
        r@ == percent_encoded(s@),
{
    let n = s.unicode_len();
    let mut out = String::new();
    let mut i: usize = 0;
    proof {
        assert(s@.subrange(0, 0) =~= Seq::<char>::empty());
    }
    while i < n
        invariant
            i <= n == s@.len(),
            out@ == percent_encoded(s@.subrange(0, i as int)),
        decreases n - i,
    {
        proof {
            let t = s@.subrange(0, i + 1);
            assert(t.drop_last() =~= s@.subrange(0, i as int));
            assert(t.last() == s@[i as int]);
        }
        let c = s.get_char(i);
        if c == '/' {
            out.append("%2F");
        } else if c == ' ' {
            out.append("%20");
        } else {
            let piece = s.substring_char(i, i + 1);
            out.append(piece);
            proof {
                assert(piece@ =~= seq![s@[i as int]]);
            }
        }
        i = i + 1;
    }
    proof {
        assert(s@.subrange(0, n as int) =~= s@);
    }
    out
}

/// The show path that the page query carries: what follows the last `drtv`
/// marker of the show URL (the whole URL when the marker is absent),
/// percent-encoded.
pub open spec fn show_path(s: Seq<char>) -> Seq<char> {
    let m = last_match(s, "drtv"@);
    if m >= 0 {
        percent_encoded(s.subrange(m + "drtv"@.len(), s.len() as int))
    } else {
        percent_encoded(s)
    }
}

/// The percent-encoded path component of the catalog-page query, derived
/// from the show URL.
pub fn parse_show_path_from_url(show_url: &str) -> (r: String)
    ensures
        r@ == show_path(show_url@),
{
    proof {
        reveal_strlit("drtv");
    }
    match find_last_match(show_url, "drtv") {
        Some(i) => {
            proof {
                lemma_last_match_from(show_url@, "drtv"@, show_url@.len() - 4);
            }
            let n = show_url.unicode_len();
            percent_encode(show_url.substring_char(i + 4, n))
        },
        None => percent_encode(show_url),
    }
}

/// The catalog-page query endpoint for a show URL.
pub fn construct_show_query_url(show_url: &str) -> (r: String)
    ensures
        r@ == "https://www.dr-massive.com/api/page?device=web_browser&ff=idp%2Cldp%2Crpt&geoLocation=dk&isDeviceAbroad=false&item_detail_expand=children&lang=da&list_page_size=24&max_list_prefetch=3&path="@
            + show_path(show_url@)
            + "&segments=drtv%2Coptedin&sub=Anonymous&text_entry_format=html"@,
{
    let mut url = String::from_str(
        "https://www.dr-massive.com/api/page?device=web_browser&ff=idp%2Cldp%2Crpt&geoLocation=dk&isDeviceAbroad=false&item_detail_expand=children&lang=da&list_page_size=24&max_list_prefetch=3&path=",
    );
    let path = parse_show_path_from_url(show_url);
    url.append(path.as_str());
    url.append("&segments=drtv%2Coptedin&sub=Anonymous&text_entry_format=html");
    url
}

/// The item-resolution query endpoint for an item identifier.
pub fn construct_ep_query_url(ep_id: &str) -> (r: String)
    ensures
        r@ == "https://production.dr-massive.com/api/account/items/"@ + ep_id@
            + "/videos?delivery=stream&device=web_browser&ff=idp%2Cldp%2Crpt&lang=da&resolution=HD-1080&sub=Anonymous"@,
{
    let mut url = String::from_str("https://production.dr-massive.com/api/account/items/");
    url.append(ep_id);
    url.append(
        "/videos?delivery=stream&device=web_browser&ff=idp%2Cldp%2Crpt&lang=da&resolution=HD-1080&sub=Anonymous",
    );
    url
}

/// The prefix put before each `watchPath` of a collection listing: the
/// collection URL up to the end of its last `drtv` marker, or the fixed
/// service prefix when the marker is absent.
pub open spec fn item_url_prefix(s: Seq<char>) -> Seq<char> {
    let m = last_match(s, "drtv"@);
    if m >= 0 {
        s.subrange(0, m + "drtv"@.len())
    } else {
        "https://www.dr.dk/drtv"@
    }
}

fn item_prefix(collection_url: &str) -> (r: String)
    ensures
        r@ == item_url_prefix(collection_url@),
{
    proof {
        reveal_strlit("drtv");
    }
    let _chars: usize = collection_url.unicode_len();
    match find_last_match(collection_url, "drtv") {
        Some(i) => {
            proof {
                lemma_last_match_from(collection_url@, "drtv"@, collection_url@.len() - 4);
            }
            String::from_str(collection_url.substring_char(0, i + 4))
        },
        None => String::from_str("https://www.dr.dk/drtv"),
    }
}

/// The item URLs named by a collection listing's body: each element's
/// `watchPath`, in order, prefixed into a full item URL; the expected JSON
/// path being absent or of the wrong shape is a service-contract mismatch.
pub fn collection_items_from_body(collection_url: &str, body: &str) -> (r: Result<
    Vec<String>,
    FetchError,
>)
    ensures
        crate::jsonx::watch_paths(body@) is None ==> r == Err::<Vec<String>, FetchError>(
            FetchError::UnexpectedShape,
        ),
        crate::jsonx::watch_paths(body@) matches Some(ps) ==> (r matches Ok(v) && v.deep_view()
            == ps.map_values(|p: Seq<char>| item_url_prefix(collection_url@) + p)),
{
    let paths = match crate::jsonx::extract_watch_paths(body) {
        None => {
            return Err(FetchError::UnexpectedShape);
        },
        Some(p) => p,
    };
    let prefix = item_prefix(collection_url);
    let ghost ps = paths.deep_view();
    let mut out: Vec<String> = Vec::new();
    let mut k: usize = 0;
    while k < paths.len()
        invariant
            k <= paths@.len(),
            ps == paths.deep_view(),
            ps.len() == paths@.len(),
            prefix@ == item_url_prefix(collection_url@),
            out@.len() == k,
            forall|j: int| 0 <= j < k ==> out.deep_view()[j] == prefix@ + ps[j],
        decreases paths@.len() - k,
    {
        let mut u = prefix.clone();
        u.append(paths[k].as_str());
        let ghost prev = out.deep_view();
        let ghost uv = u@;
        out.push(u);
        proof {
            assert(paths[k as int].deep_view() == ps[k as int]);
            assert(out.deep_view() =~= prev.push(uv));
        }
        k = k + 1;
    }
    proof {
        assert(out.deep_view() =~= ps.map_values(
            |p: Seq<char>| item_url_prefix(collection_url@) + p,
        ));
    }
    Ok(out)
}

/// Resolves a collection URL into the full item URLs of its items: builds
/// the catalog-page query, issues an unauthenticated GET, and reads the
/// listing's `watchPath` entries.  Every returned item URL is the
/// collection's item prefix followed by one `watchPath` of the reply, in
/// the reply's order.
pub fn get_show_episodes(session: &crate::auth::AuthSession, show_url: &str) -> (r: Result<
    Vec<String>,
    FetchError,
>)
    ensures
        r matches Ok(v) ==> forall|j: int|
            0 <= j < v.deep_view().len() ==> crate::util::is_prefix_of(
                item_url_prefix(show_url@),
                #[trigger] v.deep_view()[j],
            ),
        r matches Err(e) ==> (e is Transport || e is UnexpectedShape),
{
    let query = construct_show_query_url(show_url);
    match crate::http::http_get(session.client(), query.as_str()) {
        Err(_) => Err(FetchError::Transport),
        Ok(rep) => {
            let r = collection_items_from_body(show_url, rep.body.as_str());
            proof {
                if r is Ok {
                    let ps = crate::jsonx::watch_paths(rep.body@)->0;
                    let v = r->Ok_0;
                    let prefix = item_url_prefix(show_url@);
                    assert forall|j: int| 0 <= j < v.deep_view().len() implies crate::util::is_prefix_of(
                        prefix,
                        #[trigger] v.deep_view()[j],
                    ) by {
                        assert(v.deep_view()[j] == prefix + ps[j]);
                        assert((prefix + ps[j]).subrange(0, prefix.len() as int) =~= prefix);
                    }
                }
            }
            r
        },
    }
}

} // verus!
