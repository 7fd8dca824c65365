//! Data model: an item descriptor parsed from a catalog URL, the fetched
//! payload, and the per-item outcome of a collection fetch.

use crate::error::ItemFailure;
use vstd::prelude::*;

verus! {

/// Descriptor of a single playable item: a human-readable name (which may
/// still contain characters illegal in filenames) and the unique identifier
/// assigned by the remote catalog.
#[derive(Debug)]
pub struct EpisodeInfo {
    pub name: String,
    pub id: String,
}

impl PartialEq for EpisodeInfo {
    fn eq(&self, other: &EpisodeInfo) -> (r: bool) {
        self.name == other.name && self.id == other.id
    }
}

impl vstd::std_specs::cmp::PartialEqSpecImpl for EpisodeInfo {
    open spec fn obeys_eq_spec() -> bool {
        true
    }

    open spec fn eq_spec(&self, other: &EpisodeInfo) -> bool {
        self.name@ == other.name@ && self.id@ == other.id@
    }
}

impl Eq for EpisodeInfo {}

impl Clone for EpisodeInfo {
    fn clone(&self) -> (r: Self)
        ensures
            r == *self,
    {
        EpisodeInfo { name: self.name.clone(), id: self.id.clone() }
    }
}

/// A fetched item: its descriptor and the raw payload bytes.
#[derive(Debug)]
pub struct EpisodeData {
    pub info: EpisodeInfo,
    pub data: Vec<u8>,
}

impl Clone for EpisodeData {
    fn clone(&self) -> (r: Self)
        ensures
            r.info == self.info,
            r.data@ == self.data@,
    {
        EpisodeData { info: self.info.clone(), data: self.data.clone() }
    }
}

/// The outcome of one item of a collection fetch: the payload with its
/// descriptor, or the item's identifying URL with the cause of its failure.
/// One outcome is produced per item; a failure never aborts the siblings.
#[derive(Debug)]
pub enum FetchOutcome {
    Success(EpisodeData),
    Failure(String, ItemFailure),
}

impl FetchOutcome {
    /// Whether this outcome is a success.
    pub fn is_success(&self) -> (r: bool)
        ensures
            r == (self is Success),
    {
        match self {
            FetchOutcome::Success(_) => true,
            FetchOutcome::Failure(_, _) => false,
        }
    }
}

/// The outcomes of a whole collection fetch, one per item.
pub type EpisodeCollection = Vec<FetchOutcome>;

} // verus!
