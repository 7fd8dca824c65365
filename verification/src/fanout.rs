//! The fan-out orchestrator: resolves a collection URL into its items and
//! fetches each one, isolating per-item failure from the batch — a single
//! item's failure is wrapped into its outcome, never propagated to its
//! siblings, and a collection fetch always yields one outcome per item.
//!
//! [`Downloader::download_show`] runs the items one after another and
//! assembles their results through the same verified fan-in,
//! [`assemble_outcomes`], that a concurrent runner uses: one task per item,
//! `(index, result)` pairs collected in whatever order the tasks complete,
//! and one outcome per item, in the collection's order — with the isolation
//! of a single failing item proved by [`lemma_fanout_isolation`].

use crate::auth::AuthSession;
use crate::catalog::{get_episode_info, get_show_episodes, item_url_prefix, spec_episode_info};
use crate::error::{DownloadError, FetchError, ItemFailure, ParseError};
use crate::event::Event;
use crate::models::{EpisodeCollection, EpisodeData, FetchOutcome};
use crate::resolver::{fetch_payload, get_episode_url};
use crate::urltype::{guard_pattern_match, spec_url_type, verify_url, URLType};
use crate::util::{is_prefix_of, remove_newline, strip_trailing_newlines};
use vstd::prelude::*;
use vstd::string::StringExecFns;

verus! {

/// The outcome that one item's result assembles into: a success keeps the
/// fetched data, a failure is recorded under the item's URL with its cause.
pub open spec fn spec_outcome_matches(
    item_url: Seq<char>,
    res: Result<EpisodeData, ItemFailure>,
    o: FetchOutcome,
) -> bool {
    match res {
        Ok(d) => o matches FetchOutcome::Success(d2) && d2.info == d.info && d2.data@ == d.data@,
        Err(c) => o matches FetchOutcome::Failure(id, cause) && id@ == item_url && cause == c,
    }
}

/// Some collected result carries the index `k`.
pub open spec fn has_result_for(
    results: Seq<(usize, Result<EpisodeData, ItemFailure>)>,
    k: int,
) -> bool {
    exists|j: int| 0 <= j < results.len() && (#[trigger] results[j].0 as int) == k
}

/// Position `k` of the assembled sequence holds the outcome of the
/// collected result that carries index `k`.
pub open spec fn assembled_at(
    items: Seq<String>,
    results: Seq<(usize, Result<EpisodeData, ItemFailure>)>,
    out: Seq<FetchOutcome>,
    k: int,
) -> bool {
    exists|j: int|
        0 <= j < results.len() && (#[trigger] results[j].0 as int) == k && spec_outcome_matches(
            items[k]@,
            results[j].1,
            out[k],
        )
}

fn find_result_index(results: &Vec<(usize, Result<EpisodeData, ItemFailure>)>, k: usize) -> (j:
    usize)
    requires
        has_result_for(results@, k as int),
    ensures
        j < results@.len() && results@[j as int].0 == k,
{
    let mut j: usize = 0;
    while j < results.len()
        invariant
            forall|q: int| 0 <= q < j ==> (#[trigger] results@[q].0 as int) != k,
            has_result_for(results@, k as int),
        decreases results@.len() - j,
    {
        if results[j].0 == k {
            return j;
        }
        j = j + 1;
    }
    unreached()
}

/// The fan-in of a concurrent collection fetch.  The runner dispatched one
/// task per item and collected one `(index, result)` pair per task, in
/// whatever order the tasks completed; every index appears exactly once.
/// The assembled sequence holds, at each position, the outcome of that
/// position's item: the fetched data on success, or the item's URL with the
/// failure's cause — so every identifier appears exactly once in the
/// output, and no failure disturbs any other position.
pub fn assemble_outcomes(
    items: &Vec<String>,
    results: &Vec<(usize, Result<EpisodeData, ItemFailure>)>,
) -> (r: Vec<FetchOutcome>)
    requires
        results@.len() == items@.len(),
        forall|k: int| 0 <= k < items@.len() ==> #[trigger] has_result_for(results@, k),
    ensures
        r@.len() == items@.len(),
        forall|k: int| 0 <= k < items@.len() ==> #[trigger] assembled_at(items@, results@, r@, k),
{
    let n = items.len();
    let mut out: Vec<FetchOutcome> = Vec::new();
    let mut k: usize = 0;
    while k < n
        invariant
            k <= n == items@.len() == results@.len(),
            out@.len() == k,
            forall|k2: int| 0 <= k2 < items@.len() ==> #[trigger] has_result_for(results@, k2),
            forall|k2: int|
                0 <= k2 < k ==> #[trigger] assembled_at(items@, results@, out@, k2),
        decreases n - k,
    {
        let j = find_result_index(results, k);
        let outcome = match &results[j].1 {
            Ok(d) => FetchOutcome::Success(d.clone()),
            Err(c) => FetchOutcome::Failure(items[k].clone(), *c),
        };
        let ghost prev = out@;
        out.push(outcome);
        proof {
            assert((results@[j as int].0 as int) == k && spec_outcome_matches(
                items@[k as int]@,
                results@[j as int].1,
                out@[k as int],
            ));
            assert(assembled_at(items@, results@, out@, k as int));
            assert forall|k2: int| 0 <= k2 < k implies #[trigger] assembled_at(
                items@,
                results@,
                out@,
                k2,
            ) by {
                assert(assembled_at(items@, results@, prev, k2));
                let j2 = choose|j2: int|
                    0 <= j2 < results@.len() && (#[trigger] results@[j2].0 as int) == k2
                        && spec_outcome_matches(items@[k2]@, results@[j2].1, prev[k2]);
                assert(out@[k2] == prev[k2]);
                assert((results@[j2].0 as int) == k2 && spec_outcome_matches(
                    items@[k2]@,
                    results@[j2].1,
                    out@[k2],
                ));
            }
        }
        k = k + 1;
    }
    out
}

/// Fan-out isolation: when exactly the task of item `k` failed (its result
/// is the one `Err`, every other task's result is `Ok`), the assembled
/// outcomes hold a failure at position `k` — under item `k`'s URL — and a
/// success at every other position.
pub proof fn lemma_fanout_isolation(
    items: Seq<String>,
    results: Seq<(usize, Result<EpisodeData, ItemFailure>)>,
    out: Seq<FetchOutcome>,
    k: int,
)
    requires
        results.len() == items.len(),
        0 <= k < items.len(),
        forall|j: int|
            0 <= j < results.len() ==> ((#[trigger] results[j].0 as int) == k <==> results[j].1
                is Err),
        out.len() == items.len(),
        forall|k2: int| 0 <= k2 < items.len() ==> #[trigger] assembled_at(items, results, out, k2),
    ensures
        forall|i: int| 0 <= i < out.len() && i != k ==> out[i] is Success,
        out[k] is Failure,
        out[k]->Failure_0@ == items[k]@,
{
    assert forall|i: int| 0 <= i < out.len() && i != k implies out[i] is Success by {
        assert(assembled_at(items, results, out, i));
        let j = choose|j: int|
            0 <= j < results.len() && (#[trigger] results[j].0 as int) == i
                && spec_outcome_matches(items[i]@, results[j].1, out[i]);
        assert(results[j].1 is Ok);
    }
    assert(assembled_at(items, results, out, k));
    let j = choose|j: int|
        0 <= j < results.len() && (#[trigger] results[j].0 as int) == k && spec_outcome_matches(
            items[k]@,
            results[j].1,
            out[k],
        );
    assert(results[j].1 is Err);
}

/// The fan-out orchestrator: owns the authenticated session and records
/// the lifecycle notifications of every download.
pub struct Downloader {
    pub session: AuthSession,
    pub download_event: Event,
    pub finished_event: Event,
    pub failed_event: Event,
}

impl Downloader {
    /// A new orchestrator over the given session, with empty queues.
    pub fn new(session: AuthSession) -> (r: Downloader)
        ensures
            r.session == session,
            r.download_event@ == Seq::<Seq<char>>::empty(),
            r.finished_event@ == Seq::<Seq<char>>::empty(),
            r.failed_event@ == Seq::<Seq<char>>::empty(),
    {
        Downloader {
            session,
            download_event: Event::new(),
            finished_event: Event::new(),
            failed_event: Event::new(),
        }
    }

    /// Downloads a single item: records the start, parses the URL into the
    /// item's descriptor, resolves the media URL (refreshing the credential
    /// at most once), fetches the payload, and records the end — `finished`
    /// on success, `failed` on any failure, never both.
    pub fn download_episode(&mut self, ep_url: &str) -> (r: Result<EpisodeData, ItemFailure>)
        requires
            old(self).session.spec_token() is Some,
            !old(self).session.spec_in_flight(),
        ensures
            final(self).download_event@ == old(self).download_event@.push(ep_url@),
            r is Ok ==> final(self).finished_event@ == old(self).finished_event@.push(ep_url@)
                && final(self).failed_event@ == old(self).failed_event@,
            r is Err ==> final(self).failed_event@ == old(self).failed_event@.push(ep_url@)
                && final(self).finished_event@ == old(self).finished_event@,
            r matches Ok(d) ==> (spec_episode_info(ep_url@) matches Ok(p) && d.info.name@ == p.0
                && d.info.id@ == p.1),
            r matches Ok(d) ==> exists|b: Seq<char>| d.data@ == vstd::utf8::encode_utf8(b),
            spec_episode_info(ep_url@) matches Err(e) ==> r == Err::<EpisodeData, ItemFailure>(
                ItemFailure::Parse(e),
            ),
            final(self).session.spec_token() is Some,
            !final(self).session.spec_in_flight(),
            final(self).session.spec_refreshes() <= old(self).session.spec_refreshes() + 1,
            final(self).session.spec_handshakes() == old(self).session.spec_handshakes(),
    {
        self.download_event.call(String::from_str(ep_url));
        let info = match get_episode_info(ep_url) {
            Ok(info) => info,
            Err(e) => {
                self.failed_event.call(String::from_str(ep_url));
                return Err(ItemFailure::Parse(e));
            },
        };
        let media_url = match get_episode_url(&mut self.session, info.id.as_str()) {
            Ok(u) => u,
            Err(e) => {
                self.failed_event.call(String::from_str(ep_url));
                return Err(ItemFailure::Resolve(e));
            },
        };
        let data = match fetch_payload(&self.session, media_url.as_str()) {
            Ok(d) => d,
            Err(e) => {
                self.failed_event.call(String::from_str(ep_url));
                return Err(ItemFailure::Fetch(e));
            },
        };
        self.finished_event.call(String::from_str(ep_url));
        Ok(EpisodeData { info, data })
    }

    /// Downloads a whole collection, one outcome per item: resolves the
    /// item list (a failure there is a hard failure of the whole fetch,
    /// since there is nothing to fan out over, and fires no per-item
    /// notification), then runs every item's pipeline to a terminal result
    /// and assembles the results through [`assemble_outcomes`] — a single
    /// item's failure is recorded in its own outcome, under an item URL
    /// bearing the collection's prefix, and never aborts the batch (see
    /// [`lemma_fanout_isolation`]).  Every item records exactly one
    /// terminal notification, and the credential is refreshed at most once
    /// per item.
    pub fn download_show(&mut self, show_url: &str) -> (r: Result<EpisodeCollection, FetchError>)
        requires
            old(self).session.spec_token() is Some,
            !old(self).session.spec_in_flight(),
        ensures
            r matches Ok(v) ==> {
                &&& final(self).download_event@.len() == old(self).download_event@.len() + 1
                    + v@.len()
                &&& final(self).download_event@[old(self).download_event@.len() as int]
                    == show_url@
                &&& final(self).finished_event@.len() + final(self).failed_event@.len() == old(
                    self,
                ).finished_event@.len() + old(self).failed_event@.len() + v@.len()
                &&& final(self).session.spec_refreshes() <= old(self).session.spec_refreshes()
                    + v@.len()
                &&& forall|i: int|
                    0 <= i < v@.len() ==> (#[trigger] v@[i] matches FetchOutcome::Failure(id, _)
                        ==> is_prefix_of(item_url_prefix(show_url@), id@))
            },
            r is Err ==> final(self).download_event@ == old(self).download_event@.push(show_url@),
            r is Err ==> final(self).finished_event@ == old(self).finished_event@
                && final(self).failed_event@ == old(self).failed_event@,
            r matches Err(e) ==> (e is Transport || e is UnexpectedShape),
            final(self).session.spec_token() is Some,
            !final(self).session.spec_in_flight(),
            final(self).session.spec_handshakes() == old(self).session.spec_handshakes(),
    {
        self.download_event.call(String::from_str(show_url));
        let items = match get_show_episodes(&self.session, show_url) {
            Err(e) => {
                return Err(e);
            },
            Ok(items) => items,
        };
        let ghost base = *self;
        let mut results: Vec<(usize, Result<EpisodeData, ItemFailure>)> = Vec::new();
        let mut i: usize = 0;
        while i < items.len()
            invariant
                i <= items@.len(),
                results@.len() == i,
                forall|j: int| 0 <= j < i ==> (#[trigger] results@[j].0 as int) == j,
                self.session.spec_token() is Some,
                !self.session.spec_in_flight(),
                self.session.spec_handshakes() == base.session.spec_handshakes(),
                self.session.spec_refreshes() <= base.session.spec_refreshes() + i,
                self.download_event@.len() == base.download_event@.len() + i,
                self.download_event@.subrange(0, base.download_event@.len() as int)
                    == base.download_event@,
                base.download_event@ == old(self).download_event@.push(show_url@),
                self.finished_event@.len() + self.failed_event@.len()
                    == base.finished_event@.len() + base.failed_event@.len() + i,
                forall|q: int|
                    0 <= q < items@.len() ==> is_prefix_of(
                        item_url_prefix(show_url@),
                        #[trigger] items.deep_view()[q],
                    ),
            decreases items@.len() - i,
        {
            let ep_url = items[i].clone();
            let outcome = self.download_episode(ep_url.as_str());
            results.push((i, outcome));
            proof {
                assert(self.download_event@.subrange(0, base.download_event@.len() as int)
                    =~= base.download_event@);
            }
            i = i + 1;
        }
        proof {
            assert forall|k: int| 0 <= k < items@.len() implies #[trigger] has_result_for(
                results@,
                k,
            ) by {
                assert((results@[k].0 as int) == k);
            }
        }
        let outcomes = assemble_outcomes(&items, &results);
        proof {
            assert forall|k: int|
                0 <= k < outcomes@.len() implies (#[trigger] outcomes@[k] matches FetchOutcome::Failure(id, _)
                ==> is_prefix_of(item_url_prefix(show_url@), id@)) by {
                assert(assembled_at(items@, results@, outcomes@, k));
                let j = choose|j: int|
                    0 <= j < results@.len() && (#[trigger] results@[j].0 as int) == k
                        && spec_outcome_matches(items@[k]@, results@[j].1, outcomes@[k]);
                assert(items.deep_view()[k] == items@[k]@);
            }
            let l = old(self).download_event@.len() as int;
            assert(self.download_event@[l] == self.download_event@.subrange(
                0,
                base.download_event@.len() as int,
            )[l]);
        }
        Ok(outcomes)
    }

    /// Downloads whatever a URL names: the URL is stripped of trailing line
    /// endings, must pass the guard pattern, and is then classified — a
    /// playlist is fetched as a collection of outcomes, a single video as
    /// one outcome, atomically: it succeeds wholly or fails wholly.
    pub fn download(&mut self, url: &str) -> (r: Result<EpisodeCollection, DownloadError>)
        requires
            old(self).session.spec_token() is Some,
            !old(self).session.spec_in_flight(),
        ensures
            !guard_pattern_match(strip_trailing_newlines(url@)) ==> r == Err::<
                EpisodeCollection,
                DownloadError,
            >(DownloadError::Unrecognized(ParseError::MalformedUrl)),
            (guard_pattern_match(strip_trailing_newlines(url@)) && (spec_url_type(
                strip_trailing_newlines(url@),
            ) matches Err(e))) ==> r == Err::<EpisodeCollection, DownloadError>(
                DownloadError::Unrecognized(spec_url_type(strip_trailing_newlines(url@))->Err_0),
            ),
            spec_url_type(strip_trailing_newlines(url@)) == Ok::<URLType, ParseError>(
                URLType::Video,
            ) ==> (r matches Ok(v) ==> v@.len() == 1 && v@[0] is Success),
            spec_url_type(strip_trailing_newlines(url@)) == Ok::<URLType, ParseError>(
                URLType::Playlist,
            ) ==> (r matches Ok(v) ==> forall|i: int|
                0 <= i < v@.len() ==> (#[trigger] v@[i] matches FetchOutcome::Failure(id, _)
                    ==> is_prefix_of(item_url_prefix(strip_trailing_newlines(url@)), id@))),
            (!guard_pattern_match(strip_trailing_newlines(url@)) || spec_url_type(
                strip_trailing_newlines(url@),
            ) is Err) ==> {
                &&& final(self).download_event@ == old(self).download_event@
                &&& final(self).finished_event@ == old(self).finished_event@
                &&& final(self).failed_event@ == old(self).failed_event@
            },
            guard_pattern_match(strip_trailing_newlines(url@)) && spec_url_type(
                strip_trailing_newlines(url@),
            ) == Ok::<URLType, ParseError>(URLType::Video) ==> {
                &&& final(self).download_event@ == old(self).download_event@.push(
                    strip_trailing_newlines(url@),
                )
                &&& (r is Ok ==> final(self).finished_event@ == old(self).finished_event@.push(
                    strip_trailing_newlines(url@),
                ) && final(self).failed_event@ == old(self).failed_event@)
                &&& (r is Err ==> final(self).failed_event@ == old(self).failed_event@.push(
                    strip_trailing_newlines(url@),
                ) && final(self).finished_event@ == old(self).finished_event@)
            },
            guard_pattern_match(strip_trailing_newlines(url@)) && spec_url_type(
                strip_trailing_newlines(url@),
            ) == Ok::<URLType, ParseError>(URLType::Playlist) ==> {
                &&& (r matches Ok(v) ==> final(self).download_event@.len()
                    == old(self).download_event@.len() + 1 + v@.len()
                    && final(self).download_event@[old(self).download_event@.len() as int]
                    == strip_trailing_newlines(url@)
                    && final(self).finished_event@.len() + final(self).failed_event@.len()
                    == old(self).finished_event@.len() + old(self).failed_event@.len() + v@.len())
                &&& (r is Err ==> final(self).download_event@ == old(self).download_event@.push(
                    strip_trailing_newlines(url@),
                ) && final(self).finished_event@ == old(self).finished_event@
                    && final(self).failed_event@ == old(self).failed_event@)
            },
            final(self).session.spec_token() is Some,
            !final(self).session.spec_in_flight(),
            final(self).session.spec_handshakes() == old(self).session.spec_handshakes(),
    {
        let clean = remove_newline(url);
        match verify_url(clean) {
            Err(e) => {
                return Err(DownloadError::Unrecognized(e));
            },
            Ok(()) => {},
        }
        match URLType::get(clean) {
            Err(e) => Err(DownloadError::Unrecognized(e)),
            Ok(URLType::Playlist) => {
                match self.download_show(clean) {
                    Ok(v) => Ok(v),
                    Err(e) => Err(DownloadError::Collection(e)),
                }
            },
            Ok(URLType::Video) => {
                match self.download_episode(clean) {
                    Ok(d) => {
                        let mut v: Vec<FetchOutcome> = Vec::new();
                        v.push(FetchOutcome::Success(d));
                        Ok(v)
                    },
                    Err(c) => Err(DownloadError::Item(c)),
                }
            },
        }
    }
}

} // verus!
