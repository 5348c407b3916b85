//! Timeline errors and the tracks of a timeline.
use crate::frame::zero_duration;
use std::time::Duration;
use uuid::Uuid;
use vstd::prelude::*;

verus! {

#[verifier::external_type_specification]
#[verifier::external_body]
pub struct ExUuid(uuid::Uuid);

/// Relies on `Clone` of `uuid::Uuid`, which derives `Clone` and `Copy`: the
/// clone is the same value.
pub assume_specification[ <uuid::Uuid as std::clone::Clone>::clone ](u: &uuid::Uuid) -> (r:
    uuid::Uuid)
    ensures
        r == *u,
;

/// Relies on `uuid::Uuid::new_v4`: a random identifier, about which nothing
/// is promised.
#[verifier::external_body]
fn random_id() -> Uuid {
    Uuid::new_v4()
}

/// Errors of timeline editing.
#[derive(Debug)]
pub enum TimelineError {
    InvalidPosition,
    TrackNotFound(Uuid),
    ClipOverlap,
}

/// Result type of timeline operations.
pub type Result<T> = std::result::Result<T, TimelineError>;

/// A clip placed on a track.
#[derive(Debug, Clone)]
pub struct Clip {
    pub id: Uuid,
    pub start_time: Duration,
    pub duration: Duration,
    pub source_path: String,
    pub in_point: Duration,
    pub out_point: Duration,
}

/// A track of clips.
#[derive(Debug, Clone)]
pub struct Track {
    pub id: Uuid,
    pub name: String,
    pub clips: Vec<Clip>,
    pub enabled: bool,
    pub locked: bool,
}

/// A timeline of tracks.
#[derive(Debug)]
pub struct Timeline {
    pub id: Uuid,
    pub name: String,
    pub duration: Duration,
    pub tracks: Vec<Track>,
}

impl Timeline {
    /// An empty timeline named `name`, with a fresh identifier.
    pub fn new(name: String) -> (r: Self)
        ensures
            r.name == name,
            r.tracks@.len() == 0,
    {
        Timeline { id: random_id(), name, duration: zero_duration(), tracks: Vec::new() }
    }

    /// Appends an empty, enabled and unlocked track named `name`, with a
    /// fresh identifier, and returns it.
    pub fn add_track(&mut self, name: String) -> (r: &Track)
        ensures
            final(self).tracks@.len() == old(self).tracks@.len() + 1,
            final(self).tracks@.subrange(0, old(self).tracks@.len() as int) == old(self).tracks@,
            final(self).tracks@.last().name == name,
            final(self).tracks@.last().clips@.len() == 0,
            final(self).tracks@.last().enabled,
            !final(self).tracks@.last().locked,
            *r == final(self).tracks@.last(),
            final(self).name == old(self).name,
    {
        let track = Track { id: random_id(), name, clips: Vec::new(), enabled: true, locked: false };
        self.tracks.push(track);
        let last = self.tracks.len() - 1;
        &self.tracks[last]
    }
}

} // verus!
