//! A single, platform-independent view of what media is currently playing on
//! a machine: normalized track metadata, transport status, and timeline.
//!
//! The library models the raw property bags and raw transport-status values
//! that native session backends hand over, and verifies the layer above them:
//! per-field normalization with fallback defaults, status resolution,
//! timeline time-base reconciliation, the facade contract shared by the
//! backends, and the deduplicated change-notification state machine.
//! Acquiring native session handles and moving bytes over a bus are left to
//! the embedding program, which feeds the observations modeled here.

use vstd::prelude::*;

pub mod error;
pub mod linux;
pub mod status;
pub mod watcher;
pub mod win;

use crate::error::{Error, ErrorKind};

verus! {

/// Normalized seek/position/timestamp record with one canonical time base.
///
/// All six fields are in the unit that the producing backend adapter declares
/// (see each manager's `time_unit`); `last_update` is always an absolute
/// timestamp in that unit, never a relative delta.
#[derive(Clone, Copy, Debug, Hash, PartialEq, Eq, Structural)]
pub struct TimelineProps {
    pub min_seek: i64,
    pub max_seek: i64,
    pub position: i64,
    pub started: i64,
    pub ended: i64,
    pub last_update: i64,
}

/// The all-zero timeline used when a backend reports nothing.
pub open spec fn zero_timeline() -> TimelineProps {
    TimelineProps {
        min_seek: 0,
        max_seek: 0,
        position: 0,
        started: 0,
        ended: 0,
        last_update: 0,
    }
}

impl Default for TimelineProps {
    /// Defaults to all-zero, matching an unavailable timeline.
    fn default() -> (r: Self)
        ensures
            r == zero_timeline(),
    {
        TimelineProps {
            min_seek: 0,
            max_seek: 0,
            position: 0,
            started: 0,
            ended: 0,
            last_update: 0,
        }
    }
}

/// Tri-state transport status carrying an optional timeline snapshot.
///
/// `Playing`/`Paused` carry `None` only when the timeline fetch itself failed
/// or is unsupported; that is distinct from "no media at all", which is the
/// `NoMedia` variant.
#[derive(Clone, Copy, Debug, Hash, PartialEq, Eq, Structural)]
pub enum PlayerStatus {
    NoMedia,
    Playing(Option<TimelineProps>),
    Paused(Option<TimelineProps>),
}

impl Default for PlayerStatus {
    /// Defaults to no media.
    fn default() -> (r: Self)
        ensures
            r == PlayerStatus::NoMedia,
    {
        PlayerStatus::NoMedia
    }
}

/// Spec-level content of a [`MediaProps`] record.
#[verifier::ext_equal]
pub ghost struct MediaPropsV {
    pub artist: Seq<char>,
    pub title: Seq<char>,
    pub album_artist: Seq<char>,
    pub album_title: Seq<char>,
    pub subtitle: Seq<char>,
    pub album_track_count: i32,
    pub track_number: i32,
}

/// Normalized track metadata record.
///
/// Absence of a native field maps to `""` for text fields and `-1` for the
/// two counters; a missing field is never a propagated failure. On the
/// poll-based backend `subtitle` carries the source URL.
#[derive(Debug, Hash)]
pub struct MediaProps {
    pub artist: String,
    pub title: String,
    pub album_artist: String,
    pub album_title: String,
    pub subtitle: String,
    pub album_track_count: i32,
    pub track_number: i32,
}

impl View for MediaProps {
    type V = MediaPropsV;

    open spec fn view(&self) -> MediaPropsV {
        MediaPropsV {
            artist: self.artist@,
            title: self.title@,
            album_artist: self.album_artist@,
            album_title: self.album_title@,
            subtitle: self.subtitle@,
            album_track_count: self.album_track_count,
            track_number: self.track_number,
        }
    }
}

/// The record in which every field holds its "absent" default.
pub open spec fn empty_props() -> MediaPropsV {
    MediaPropsV {
        artist: Seq::empty(),
        title: Seq::empty(),
        album_artist: Seq::empty(),
        album_title: Seq::empty(),
        subtitle: Seq::empty(),
        album_track_count: -1i32,
        track_number: -1i32,
    }
}

impl MediaProps {
    /// A record with every field at its "absent" default.
    pub fn new() -> (r: Self)
        ensures
            r@ == empty_props(),
    {
        let r = MediaProps {
            artist: String::new(),
            title: String::new(),
            album_artist: String::new(),
            album_title: String::new(),
            subtitle: String::new(),
            album_track_count: -1,
            track_number: -1,
        };
        proof {
            assert(r@ =~= empty_props());
        }
        r
    }
}

impl Default for MediaProps {
    /// Defaults to the all-absent record.
    fn default() -> (r: Self)
        ensures
            r@ == empty_props(),
    {
        MediaProps::new()
    }
}

impl Clone for MediaProps {
    /// Cloning preserves every field.
    fn clone(&self) -> (r: Self)
        ensures
            r@ == self@,
    {
        let r = MediaProps {
            artist: self.artist.clone(),
            title: self.title.clone(),
            album_artist: self.album_artist.clone(),
            album_title: self.album_title.clone(),
            subtitle: self.subtitle.clone(),
            album_track_count: self.album_track_count,
            track_number: self.track_number,
        };
        proof {
            assert(r@ =~= self@);
        }
        r
    }
}

impl PartialEq for MediaProps {
    /// Structural equality over all fields, the relation change detection uses.
    fn eq(&self, other: &Self) -> (r: bool) {
        let r = self.artist == other.artist && self.title == other.title
            && self.album_artist == other.album_artist && self.album_title == other.album_title
            && self.subtitle == other.subtitle
            && self.album_track_count == other.album_track_count
            && self.track_number == other.track_number;
        proof {
            if r {
                assert(self@ =~= other@);
            }
        }
        r
    }
}

impl Eq for MediaProps {

}

impl vstd::std_specs::cmp::PartialEqSpecImpl for MediaProps {
    open spec fn obeys_eq_spec() -> bool {
        true
    }

    open spec fn eq_spec(&self, other: &Self) -> bool {
        self@ == other@
    }
}

/// Spec view of one optional text field as the backend reported it.
pub open spec fn text_view(f: Option<String>) -> Option<Seq<char>> {
    match f {
        Some(s) => Some(s@),
        None => None,
    }
}

/// One optional text field normalized: the accessor's value, or empty.
pub open spec fn text_or_empty(f: Option<Seq<char>>) -> Seq<char> {
    match f {
        Some(s) => s,
        None => Seq::empty(),
    }
}

/// One optional counter normalized: the accessor's value, or -1.
pub open spec fn count_or_minus_one(f: Option<i32>) -> i32 {
    match f {
        Some(n) => n,
        None => -1i32,
    }
}

/// One optional time value normalized: the accessor's value, or zero.
pub open spec fn time_or_zero(f: Option<i64>) -> i64 {
    match f {
        Some(v) => v,
        None => 0,
    }
}

pub(crate) fn field_or_empty(f: &Option<String>) -> (r: String)
    ensures
        r@ == text_or_empty(text_view(*f)),
{
    match f {
        Some(s) => s.clone(),
        None => String::new(),
    }
}

pub(crate) fn count_field(f: &Option<i32>) -> (r: i32)
    ensures
        r == count_or_minus_one(*f),
{
    match f {
        Some(n) => *n,
        None => -1,
    }
}

pub(crate) fn time_field(f: Option<i64>) -> (r: i64)
    ensures
        r == time_or_zero(f),
{
    match f {
        Some(v) => v,
        None => 0,
    }
}

/// The time base a backend adapter declares for the `TimelineProps` values it
/// produces. The unit is a fixed contract per adapter: values are exposed
/// verbatim in the backend's native absolute base, never silently rescaled.
#[derive(Clone, Copy, Debug, Hash, PartialEq, Eq, Structural)]
pub enum TimeUnit {
    /// 100-nanosecond ticks on an absolute epoch.
    HundredNanosecondTicks,
    /// Whole seconds on the Unix epoch.
    Seconds,
}

/// Spec view of a metadata fetch outcome: the normalized record's content, or
/// the error's taxonomy kind.
pub open spec fn props_result_view(r: Result<MediaProps, Error>) -> Result<MediaPropsV, ErrorKind> {
    match r {
        Ok(p) => Ok(p@),
        Err(e) => Err(e@.kind),
    }
}

/// Spec view of a status fetch outcome.
pub open spec fn status_result_view(r: Result<PlayerStatus, Error>) -> Result<
    PlayerStatus,
    ErrorKind,
> {
    match r {
        Ok(s) => Ok(s),
        Err(e) => Err(e@.kind),
    }
}

/// Spec view of a timeline fetch outcome.
pub open spec fn timeline_result_view(r: Result<TimelineProps, Error>) -> Result<
    TimelineProps,
    ErrorKind,
> {
    match r {
        Ok(t) => Ok(t),
        Err(e) => Err(e@.kind),
    }
}

/// The timeline a resolved status owes its caller: the payload carried by
/// `Playing`/`Paused`, and `NoTimeline` when the status is `NoMedia` or the
/// payload is absent. A failed status resolution keeps its own kind.
pub open spec fn timeline_of_status(s: Result<PlayerStatus, ErrorKind>) -> Result<
    TimelineProps,
    ErrorKind,
> {
    match s {
        Ok(st) => match st {
            PlayerStatus::Playing(Some(t)) => Ok(t),
            PlayerStatus::Paused(Some(t)) => Ok(t),
            _ => Err(ErrorKind::NoTimeline),
        },
        Err(k) => Err(k),
    }
}

/// The facade contract a backend manager satisfies: single-shot fetches whose
/// results are pinned, via the two spec functions, to the backend observation
/// the manager holds.
pub trait OsMediaProps {
    /// What a metadata fetch returns for this manager's observation.
    spec fn playing_spec(&self) -> Result<MediaPropsV, ErrorKind>;

    /// What a status fetch returns for this manager's observation.
    spec fn status_spec(&self) -> Result<PlayerStatus, ErrorKind>;

    /// Single-shot fetch of the active session's normalized metadata.
    fn currently_playing(&self) -> (r: Result<MediaProps, Error>)
        ensures
            props_result_view(r) == self.playing_spec(),
    ;

    /// Single-shot transport-status fetch.
    fn player_status(&self) -> (r: Result<PlayerStatus, Error>)
        ensures
            status_result_view(r) == self.status_spec(),
    ;

    /// Convenience accessor for the timeline the current status carries;
    /// fails with `NoTimeline` when the status carries none.
    fn timeline(&self) -> (r: Result<TimelineProps, Error>)
        ensures
            timeline_result_view(r) == timeline_of_status(self.status_spec()),
    ;
}

/// Law: `currently_playing` is referentially transparent. Any two calls
/// against one unchanged backend observation return structurally equal
/// results, since each result is pinned to `playing_spec`.
pub proof fn lemma_currently_playing_idempotent<M: OsMediaProps>(
    m: &M,
    r1: Result<MediaProps, Error>,
    r2: Result<MediaProps, Error>,
)
    requires
        props_result_view(r1) == m.playing_spec(),
        props_result_view(r2) == m.playing_spec(),
    ensures
        props_result_view(r1) == props_result_view(r2),
{
}

/// Law: `player_status` is referentially transparent in the same way.
pub proof fn lemma_player_status_idempotent<M: OsMediaProps>(
    m: &M,
    r1: Result<PlayerStatus, Error>,
    r2: Result<PlayerStatus, Error>,
)
    requires
        status_result_view(r1) == m.status_spec(),
        status_result_view(r2) == m.status_spec(),
    ensures
        status_result_view(r1) == status_result_view(r2),
{
}

} // verus!
