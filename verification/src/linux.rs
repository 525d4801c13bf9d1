//! The poll-style backend adapter: models the observation that a D-Bus
//! player-control tracker hands over, and verifies its normalization,
//! status resolution and time-base reconciliation. The native layer finds
//! the active player, ticks its progress tracker, and copies the sample
//! into the raw records here.
//!
//! Declared time base: whole seconds; `last_update` is reconciled onto the
//! absolute Unix epoch before it leaves this module.

use vstd::prelude::*;
use vstd::string::StringExecFns;

use crate::error::{Error, ErrorKind};
use crate::status::{resolve_status, resolved_status, STATUS_PAUSED, STATUS_PLAYING,
    STATUS_STOPPED};
use crate::{
    count_field, count_or_minus_one, field_or_empty, props_result_view, status_result_view,
    text_or_empty, text_view, time_field, time_or_zero, MediaProps, MediaPropsV, OsMediaProps,
    PlayerStatus, TimeUnit, TimelineProps,
};

verus! {

/// The text made of the given parts joined with a comma and a space.
pub open spec fn joined(parts: Seq<Seq<char>>) -> Seq<char>
    decreases parts.len(),
{
    if parts.len() == 0 {
        Seq::empty()
    } else if parts.len() == 1 {
        parts[0]
    } else {
        joined(parts.drop_last()) + ", "@ + parts.last()
    }
}

/// Joins a backend-reported text list with `", "`, the representation the
/// normalized record uses for sequence-valued fields.
pub fn join_list(items: &Vec<String>) -> (r: String)
    ensures
        r@ == joined(items@.map_values(|s: String| s@)),
{
    let ghost m = items@.map_values(|s: String| s@);
    let mut r = String::new();
    let mut i: usize = 0;
    while i < items.len()
        invariant
            i <= items.len(),
            m == items@.map_values(|s: String| s@),
            r@ == joined(m.subrange(0, i as int)),
        decreases items.len() - i,
    {
        if i > 0 {
            r.append(", ");
        }
        r.append(items[i].as_str());
        proof {
            let s = m.subrange(0, i as int + 1);
            assert(s.last() == m[i as int]);
            if i == 0 {
                assert(r@ =~= s[0]);
            } else {
                assert(s.drop_last() =~= m.subrange(0, i as int));
                assert(r@ == joined(s.drop_last()) + ", "@ + s.last());
            }
        }
        i += 1;
    }
    proof {
        assert(m.subrange(0, items@.len() as int) =~= m);
    }
    r
}

/// Raw metadata record of the poll backend, each field independently
/// optional: the tracker reports only the tags a player supplies.
pub struct RawMetadata {
    pub artists: Option<Vec<String>>,
    pub album_artists: Option<Vec<String>>,
    pub title: Option<String>,
    pub album_name: Option<String>,
    pub url: Option<String>,
    pub track_number: Option<i32>,
}

/// Spec view of one optional text list.
pub open spec fn list_view(f: Option<Vec<String>>) -> Option<Seq<Seq<char>>> {
    match f {
        Some(v) => Some(v@.map_values(|s: String| s@)),
        None => None,
    }
}

/// Spec-level content of a [`RawMetadata`].
#[verifier::ext_equal]
pub ghost struct RawMetadataV {
    pub artists: Option<Seq<Seq<char>>>,
    pub album_artists: Option<Seq<Seq<char>>>,
    pub title: Option<Seq<char>>,
    pub album_name: Option<Seq<char>>,
    pub url: Option<Seq<char>>,
    pub track_number: Option<i32>,
}

impl View for RawMetadata {
    type V = RawMetadataV;

    open spec fn view(&self) -> RawMetadataV {
        RawMetadataV {
            artists: list_view(self.artists),
            album_artists: list_view(self.album_artists),
            title: text_view(self.title),
            album_name: text_view(self.album_name),
            url: text_view(self.url),
            track_number: self.track_number,
        }
    }
}

/// One optional text list normalized: the parts joined with `", "`, or empty.
pub open spec fn list_or_empty(f: Option<Seq<Seq<char>>>) -> Seq<char> {
    match f {
        Some(l) => joined(l),
        None => Seq::empty(),
    }
}

/// Per-field normalization of a raw metadata record: text lists are joined
/// with `", "`, the source URL lands in `subtitle`, every missing field is
/// substituted by its default, and the album track count, which this backend
/// does not report, stays at -1.
pub open spec fn normalize_metadata(m: RawMetadataV) -> MediaPropsV {
    MediaPropsV {
        artist: list_or_empty(m.artists),
        title: text_or_empty(m.title),
        album_artist: list_or_empty(m.album_artists),
        album_title: text_or_empty(m.album_name),
        subtitle: text_or_empty(m.url),
        album_track_count: -1i32,
        track_number: count_or_minus_one(m.track_number),
    }
}

fn list_or_empty_field(f: &Option<Vec<String>>) -> (r: String)
    ensures
        r@ == list_or_empty(list_view(*f)),
{
    match f {
        Some(l) => join_list(l),
        None => String::new(),
    }
}

impl MediaProps {
    /// Normalizes a raw poll-backend metadata record into a fresh immutable
    /// record, substituting `""`/`-1` in exactly the missing slots.
    pub fn from_metadata(m: &RawMetadata) -> (r: Self)
        ensures
            r@ == normalize_metadata(m@),
    {
        let r = MediaProps {
            artist: list_or_empty_field(&m.artists),
            title: field_or_empty(&m.title),
            album_artist: list_or_empty_field(&m.album_artists),
            album_title: field_or_empty(&m.album_name),
            subtitle: field_or_empty(&m.url),
            album_track_count: -1,
            track_number: count_field(&m.track_number),
        };
        proof {
            assert(r@ =~= normalize_metadata(m@));
        }
        r
    }
}

/// Raw progress sample of the poll backend, reduced to plain values.
#[derive(Clone, Copy, Debug, Hash, PartialEq, Eq, Structural)]
pub struct RawProgress {
    /// Track length in seconds, when the player reports one.
    pub length_secs: Option<i64>,
    /// Position in seconds at the start of the sample.
    pub position_secs: i64,
    /// Monotonic seconds elapsed since the tracker was created: a relative
    /// delta, not an absolute time.
    pub elapsed_secs: i64,
}

/// The reconciled absolute update time: wall-clock "now" minus the relative
/// elapsed delta, clamped at the representable bounds.
pub open spec fn reconciled_last_update(now_secs: i64, elapsed_secs: i64) -> i64 {
    if now_secs - elapsed_secs > i64::MAX {
        i64::MAX
    } else if now_secs - elapsed_secs < i64::MIN {
        i64::MIN
    } else {
        (now_secs - elapsed_secs) as i64
    }
}

/// The reconciled timeline of one progress sample observed at wall-clock
/// `now_secs`: seek bounds from zero to the track length, and `last_update`
/// converted from the tracker's relative delta to an absolute epoch time.
pub open spec fn reconciled_timeline(p: RawProgress, now_secs: i64) -> TimelineProps {
    TimelineProps {
        min_seek: 0,
        max_seek: time_or_zero(p.length_secs),
        position: p.position_secs,
        started: 0,
        ended: 0,
        last_update: reconciled_last_update(now_secs, p.elapsed_secs),
    }
}

impl TimelineProps {
    /// Reconciles one raw progress sample observed at wall-clock `now_secs`
    /// (Unix-epoch seconds) into a timeline whose `last_update` is absolute.
    pub fn from_progress(p: &RawProgress, now_secs: i64) -> (r: Result<TimelineProps, Error>)
        ensures
            r is Ok,
            r->Ok_0 == reconciled_timeline(*p, now_secs),
    {
        let last_update = match now_secs.checked_sub(p.elapsed_secs) {
            Some(v) => v,
            None => if p.elapsed_secs < 0 {
                i64::MAX
            } else {
                i64::MIN
            },
        };
        Ok(
            TimelineProps {
                min_seek: 0,
                max_seek: time_field(p.length_secs),
                position: p.position_secs,
                started: 0,
                ended: 0,
                last_update,
            },
        )
    }
}

/// Raw transport status of the poll backend: its control protocol defines
/// exactly these three values, so this domain is total.
#[derive(Clone, Copy, Debug, Hash, PartialEq, Eq, Structural)]
pub enum RawPlaybackStatus {
    Playing,
    Paused,
    Stopped,
}

/// The shared resolver code a raw poll-backend status maps to.
pub open spec fn code_of(s: RawPlaybackStatus) -> i32 {
    match s {
        RawPlaybackStatus::Playing => STATUS_PLAYING,
        RawPlaybackStatus::Paused => STATUS_PAUSED,
        RawPlaybackStatus::Stopped => STATUS_STOPPED,
    }
}

impl RawPlaybackStatus {
    /// The shared resolver code of this status.
    pub fn code(&self) -> (c: i32)
        ensures
            c == code_of(*self),
    {
        match self {
            RawPlaybackStatus::Playing => STATUS_PLAYING,
            RawPlaybackStatus::Paused => STATUS_PAUSED,
            RawPlaybackStatus::Stopped => STATUS_STOPPED,
        }
    }
}

/// One observation of the active player's progress tracker.
pub struct PlayerSnapshot {
    pub metadata: RawMetadata,
    pub progress: RawProgress,
    pub status: RawPlaybackStatus,
    /// Wall-clock Unix-epoch seconds at the moment of the sample.
    pub now_secs: i64,
}

/// Spec-level content of a [`PlayerSnapshot`].
#[verifier::ext_equal]
pub ghost struct PlayerSnapshotV {
    pub metadata: RawMetadataV,
    pub progress: RawProgress,
    pub status: RawPlaybackStatus,
    pub now_secs: i64,
}

impl View for PlayerSnapshot {
    type V = PlayerSnapshotV;

    open spec fn view(&self) -> PlayerSnapshotV {
        PlayerSnapshotV {
            metadata: self.metadata@,
            progress: self.progress,
            status: self.status,
            now_secs: self.now_secs,
        }
    }
}

/// How resolving the active player ended.
pub enum SessionFetch {
    /// The bus could not be reached at all.
    Unavailable,
    /// The bus answered, but no active player was found.
    NoPlayer,
    /// A player was found, but its progress tracker could not be started.
    TrackerFailed,
    /// The active player's observation.
    Active(PlayerSnapshot),
}

/// Spec-level content of a [`SessionFetch`].
pub ghost enum SessionFetchV {
    Unavailable,
    NoPlayer,
    TrackerFailed,
    Active(PlayerSnapshotV),
}

impl View for SessionFetch {
    type V = SessionFetchV;

    open spec fn view(&self) -> SessionFetchV {
        match self {
            SessionFetch::Unavailable => SessionFetchV::Unavailable,
            SessionFetch::NoPlayer => SessionFetchV::NoPlayer,
            SessionFetch::TrackerFailed => SessionFetchV::TrackerFailed,
            SessionFetch::Active(p) => SessionFetchV::Active(p@),
        }
    }
}

/// The metadata a player observation owes: the normalized record, or the
/// error kind that classifies how far resolution got.
pub open spec fn playing_of(s: SessionFetchV) -> Result<MediaPropsV, ErrorKind> {
    match s {
        SessionFetchV::Unavailable => Err(ErrorKind::BackendUnavailable),
        SessionFetchV::NoPlayer => Err(ErrorKind::NoActiveSession),
        SessionFetchV::TrackerFailed => Err(ErrorKind::NativeCallFailure),
        SessionFetchV::Active(p) => Ok(normalize_metadata(p.metadata)),
    }
}

/// The status a player observation owes: the resolved code, always carrying
/// the sample's reconciled timeline as payload.
pub open spec fn status_of(s: SessionFetchV) -> Result<PlayerStatus, ErrorKind> {
    match s {
        SessionFetchV::Unavailable => Err(ErrorKind::BackendUnavailable),
        SessionFetchV::NoPlayer => Err(ErrorKind::NoActiveSession),
        SessionFetchV::TrackerFailed => Err(ErrorKind::NativeCallFailure),
        SessionFetchV::Active(p) => resolved_status(
            code_of(p.status),
            Some(reconciled_timeline(p.progress, p.now_secs)),
        ),
    }
}

/// Facade over one observation of the poll backend's player layer.
pub struct MediaManager {
    pub session: SessionFetch,
}

impl View for MediaManager {
    type V = SessionFetchV;

    open spec fn view(&self) -> SessionFetchV {
        self.session@
    }
}

impl MediaManager {
    /// The declared time base of this adapter: whole seconds, with
    /// `last_update` reconciled onto the absolute Unix epoch.
    pub fn time_unit() -> (u: TimeUnit)
        ensures
            u == TimeUnit::Seconds,
    {
        TimeUnit::Seconds
    }

    /// Single-shot fetch of the active player's normalized metadata.
    pub fn get_media_properties(&self) -> (r: Result<MediaProps, Error>)
        ensures
            props_result_view(r) == playing_of(self@),
    {
        match &self.session {
            SessionFetch::Unavailable => Err(
                Error::new(ErrorKind::BackendUnavailable, "Unable to reach the session bus"),
            ),
            SessionFetch::NoPlayer => Err(
                Error::new(ErrorKind::NoActiveSession, "No active player"),
            ),
            SessionFetch::TrackerFailed => Err(
                Error::new(ErrorKind::NativeCallFailure, "Unable to track player progress"),
            ),
            SessionFetch::Active(p) => Ok(MediaProps::from_metadata(&p.metadata)),
        }
    }

    /// Single-shot fetch of the timeline the current status carries: the
    /// reconciled progress sample while the player is playing or paused, and
    /// `NoTimeline` when it is stopped, since a stopped player presents no
    /// media whose timeline could be owed.
    pub fn get_timeline(&self) -> (r: Result<TimelineProps, Error>)
        ensures
            crate::timeline_result_view(r) == crate::timeline_of_status(status_of(self@)),
    {
        match &self.session {
            SessionFetch::Unavailable => Err(
                Error::new(ErrorKind::BackendUnavailable, "Unable to reach the session bus"),
            ),
            SessionFetch::NoPlayer => Err(
                Error::new(ErrorKind::NoActiveSession, "No active player"),
            ),
            SessionFetch::TrackerFailed => Err(
                Error::new(ErrorKind::NativeCallFailure, "Unable to track player progress"),
            ),
            SessionFetch::Active(p) => match p.status {
                RawPlaybackStatus::Stopped => Err(
                    Error::new(ErrorKind::NoTimeline, "No timeline found."),
                ),
                RawPlaybackStatus::Playing | RawPlaybackStatus::Paused => {
                    TimelineProps::from_progress(&p.progress, p.now_secs)
                },
            },
        }
    }

    /// Single-shot transport-status fetch. This backend's tracker always has
    /// a progress sample, so a `Playing`/`Paused` status always carries a
    /// timeline payload.
    pub fn get_status(&self) -> (r: Result<PlayerStatus, Error>)
        ensures
            status_result_view(r) == status_of(self@),
    {
        match &self.session {
            SessionFetch::Unavailable => Err(
                Error::new(ErrorKind::BackendUnavailable, "Unable to reach the session bus"),
            ),
            SessionFetch::NoPlayer => Err(
                Error::new(ErrorKind::NoActiveSession, "No active player"),
            ),
            SessionFetch::TrackerFailed => Err(
                Error::new(ErrorKind::NativeCallFailure, "Unable to track player progress"),
            ),
            SessionFetch::Active(p) => {
                match TimelineProps::from_progress(&p.progress, p.now_secs) {
                    Ok(timeline) => resolve_status(p.status.code(), Some(timeline)),
                    Err(e) => Err(e),
                }
            },
        }
    }
}

impl OsMediaProps for MediaManager {
    open spec fn playing_spec(&self) -> Result<MediaPropsV, ErrorKind> {
        playing_of(self@)
    }

    open spec fn status_spec(&self) -> Result<PlayerStatus, ErrorKind> {
        status_of(self@)
    }

    fn currently_playing(&self) -> (r: Result<MediaProps, Error>) {
        self.get_media_properties()
    }

    fn player_status(&self) -> (r: Result<PlayerStatus, Error>) {
        self.get_status()
    }

    fn timeline(&self) -> (r: Result<TimelineProps, Error>) {
        self.get_timeline()
    }
}

} // verus!
