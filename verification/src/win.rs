//! The push-style backend adapter: models the observation that a global
//! media-transport-control session hands over, and verifies its
//! normalization and resolution. The native layer resolves the session and
//! copies each fallible accessor's outcome into the raw records here.
//!
//! Declared time base: absolute 100-nanosecond ticks, exposed verbatim.

use vstd::prelude::*;

use crate::error::{Error, ErrorKind};
use crate::status::{resolve_status, resolved_status};
use crate::{
    count_field, count_or_minus_one, field_or_empty, props_result_view, status_result_view,
    text_or_empty, text_view, time_field, time_or_zero, MediaProps, MediaPropsV, OsMediaProps,
    PlayerStatus, TimeUnit, TimelineProps,
};

verus! {

/// Raw property bag of the push backend. Each native accessor is
/// independently fallible; a `None` field records that its accessor failed,
/// never failing the bag as a whole.
pub struct RawMediaBag {
    pub artist: Option<String>,
    pub title: Option<String>,
    pub album_artist: Option<String>,
    pub album_title: Option<String>,
    pub subtitle: Option<String>,
    pub album_track_count: Option<i32>,
    pub track_number: Option<i32>,
}

/// Spec-level content of a [`RawMediaBag`].
#[verifier::ext_equal]
pub ghost struct RawMediaBagV {
    pub artist: Option<Seq<char>>,
    pub title: Option<Seq<char>>,
    pub album_artist: Option<Seq<char>>,
    pub album_title: Option<Seq<char>>,
    pub subtitle: Option<Seq<char>>,
    pub album_track_count: Option<i32>,
    pub track_number: Option<i32>,
}

impl View for RawMediaBag {
    type V = RawMediaBagV;

    open spec fn view(&self) -> RawMediaBagV {
        RawMediaBagV {
            artist: text_view(self.artist),
            title: text_view(self.title),
            album_artist: text_view(self.album_artist),
            album_title: text_view(self.album_title),
            subtitle: text_view(self.subtitle),
            album_track_count: self.album_track_count,
            track_number: self.track_number,
        }
    }
}

/// Per-field normalization of a raw bag: every missing accessor value is
/// substituted by the field's default, and nothing else changes.
pub open spec fn normalize_bag(b: RawMediaBagV) -> MediaPropsV {
    MediaPropsV {
        artist: text_or_empty(b.artist),
        title: text_or_empty(b.title),
        album_artist: text_or_empty(b.album_artist),
        album_title: text_or_empty(b.album_title),
        subtitle: text_or_empty(b.subtitle),
        album_track_count: count_or_minus_one(b.album_track_count),
        track_number: count_or_minus_one(b.track_number),
    }
}

impl MediaProps {
    /// Normalizes a raw push-backend bag into a fresh immutable record,
    /// substituting `""`/`-1` in exactly the slots whose accessor failed.
    pub fn from_raw(bag: &RawMediaBag) -> (r: Self)
        ensures
            r@ == normalize_bag(bag@),
    {
        let r = MediaProps {
            artist: field_or_empty(&bag.artist),
            title: field_or_empty(&bag.title),
            album_artist: field_or_empty(&bag.album_artist),
            album_title: field_or_empty(&bag.album_title),
            subtitle: field_or_empty(&bag.subtitle),
            album_track_count: count_field(&bag.album_track_count),
            track_number: count_field(&bag.track_number),
        };
        proof {
            assert(r@ =~= normalize_bag(bag@));
        }
        r
    }
}

/// Raw timeline record of the push backend, each accessor independently
/// fallible. All values are absolute 100-nanosecond ticks.
#[derive(Clone, Copy, Debug, Hash, PartialEq, Eq, Structural)]
pub struct RawTimeline {
    pub min_seek: Option<i64>,
    pub max_seek: Option<i64>,
    pub position: Option<i64>,
    pub started: Option<i64>,
    pub ended: Option<i64>,
    pub last_update: Option<i64>,
}

/// Per-field normalization of a raw timeline: zero in exactly the slots whose
/// accessor failed, every reported value kept verbatim.
pub open spec fn normalize_timeline(t: RawTimeline) -> TimelineProps {
    TimelineProps {
        min_seek: time_or_zero(t.min_seek),
        max_seek: time_or_zero(t.max_seek),
        position: time_or_zero(t.position),
        started: time_or_zero(t.started),
        ended: time_or_zero(t.ended),
        last_update: time_or_zero(t.last_update),
    }
}

impl TimelineProps {
    /// Normalizes a raw push-backend timeline, substituting zero in exactly
    /// the slots whose accessor failed.
    pub fn from_raw(t: &RawTimeline) -> (r: Self)
        ensures
            r == normalize_timeline(*t),
    {
        TimelineProps {
            min_seek: time_field(t.min_seek),
            max_seek: time_field(t.max_seek),
            position: time_field(t.position),
            started: time_field(t.started),
            ended: time_field(t.ended),
            last_update: time_field(t.last_update),
        }
    }
}

/// The raw observation of one active session: what the three native fetches
/// produced. A `None` records that the corresponding call failed as a whole.
pub struct SessionSnapshot {
    /// The raw property bag; `None` when the bag-level fetch failed.
    pub props: Option<RawMediaBag>,
    /// The raw transport-status code; `None` when the playback-info call failed.
    pub playback: Option<i32>,
    /// The raw timeline; `None` when the timeline fetch failed.
    pub timeline: Option<RawTimeline>,
}

/// Spec-level content of a [`SessionSnapshot`].
#[verifier::ext_equal]
pub ghost struct SessionSnapshotV {
    pub props: Option<RawMediaBagV>,
    pub playback: Option<i32>,
    pub timeline: Option<RawTimeline>,
}

impl View for SessionSnapshot {
    type V = SessionSnapshotV;

    open spec fn view(&self) -> SessionSnapshotV {
        SessionSnapshotV {
            props: match self.props {
                Some(b) => Some(b@),
                None => None,
            },
            playback: self.playback,
            timeline: self.timeline,
        }
    }
}

/// How resolving the current session ended.
pub enum SessionFetch {
    /// The native service could not be reached at all.
    Unavailable,
    /// The service answered, but no media session is active.
    NoSession,
    /// The active session's raw observation.
    Active(SessionSnapshot),
}

/// Spec-level content of a [`SessionFetch`].
pub ghost enum SessionFetchV {
    Unavailable,
    NoSession,
    Active(SessionSnapshotV),
}

impl View for SessionFetch {
    type V = SessionFetchV;

    open spec fn view(&self) -> SessionFetchV {
        match self {
            SessionFetch::Unavailable => SessionFetchV::Unavailable,
            SessionFetch::NoSession => SessionFetchV::NoSession,
            SessionFetch::Active(snap) => SessionFetchV::Active(snap@),
        }
    }
}

/// The metadata a session observation owes: the normalized bag, or the error
/// kind that classifies how far resolution got.
pub open spec fn playing_of(s: SessionFetchV) -> Result<MediaPropsV, ErrorKind> {
    match s {
        SessionFetchV::Unavailable => Err(ErrorKind::BackendUnavailable),
        SessionFetchV::NoSession => Err(ErrorKind::NoActiveSession),
        SessionFetchV::Active(snap) => match snap.props {
            Some(b) => Ok(normalize_bag(b)),
            None => Err(ErrorKind::NativeCallFailure),
        },
    }
}

/// The timeline payload a snapshot contributes to a resolved status: `None`
/// exactly when the timeline fetch itself failed.
pub open spec fn timeline_payload_of(snap: SessionSnapshotV) -> Option<TimelineProps> {
    match snap.timeline {
        Some(t) => Some(normalize_timeline(t)),
        None => None,
    }
}

/// The status a session observation owes: the resolved code with its timeline
/// payload, or the error kind that classifies how far resolution got.
pub open spec fn status_of(s: SessionFetchV) -> Result<PlayerStatus, ErrorKind> {
    match s {
        SessionFetchV::Unavailable => Err(ErrorKind::BackendUnavailable),
        SessionFetchV::NoSession => Err(ErrorKind::NoActiveSession),
        SessionFetchV::Active(snap) => match snap.playback {
            Some(code) => resolved_status(code, timeline_payload_of(snap)),
            None => Err(ErrorKind::NativeCallFailure),
        },
    }
}

/// Facade over one observation of the push backend's session layer.
pub struct MediaManager {
    pub session: SessionFetch,
}

impl View for MediaManager {
    type V = SessionFetchV;

    open spec fn view(&self) -> SessionFetchV {
        self.session@
    }
}

impl MediaManager {
    /// The declared time base of this adapter: absolute 100-nanosecond
    /// ticks, exposed verbatim.
    pub fn time_unit() -> (u: TimeUnit)
        ensures
            u == TimeUnit::HundredNanosecondTicks,
    {
        TimeUnit::HundredNanosecondTicks
    }

    /// Single-shot fetch of the active session's normalized metadata.
    pub fn get_media_properties(&self) -> (r: Result<MediaProps, Error>)
        ensures
            props_result_view(r) == playing_of(self@),
    {
        match &self.session {
            SessionFetch::Unavailable => Err(
                Error::new(ErrorKind::BackendUnavailable, "Unable to reach the session service"),
            ),
            SessionFetch::NoSession => Err(
                Error::new(ErrorKind::NoActiveSession, "No active media session"),
            ),
            SessionFetch::Active(snap) => match &snap.props {
                Some(bag) => Ok(MediaProps::from_raw(bag)),
                None => Err(
                    Error::new(ErrorKind::NativeCallFailure, "Unable to fetch media properties"),
                ),
            },
        }
    }

    /// Single-shot transport-status fetch. A failed timeline fetch downgrades
    /// the payload to `None` inside the status; it never fails the call.
    pub fn get_player_status(&self) -> (r: Result<PlayerStatus, Error>)
        ensures
            status_result_view(r) == status_of(self@),
    {
        match &self.session {
            SessionFetch::Unavailable => Err(
                Error::new(ErrorKind::BackendUnavailable, "Unable to reach the session service"),
            ),
            SessionFetch::NoSession => Err(
                Error::new(ErrorKind::NoActiveSession, "No active media session"),
            ),
            SessionFetch::Active(snap) => match snap.playback {
                Some(code) => {
                    let tline: Option<TimelineProps> = match &snap.timeline {
                        Some(t) => Some(TimelineProps::from_raw(t)),
                        None => None,
                    };
                    resolve_status(code, tline)
                },
                None => Err(
                    Error::new(ErrorKind::NativeCallFailure, "Unable to get playback status"),
                ),
            },
        }
    }
}

impl OsMediaProps for MediaManager {
    open spec fn playing_spec(&self) -> Result<MediaPropsV, ErrorKind> {
        playing_of(self@)
    }

    open spec fn status_spec(&self) -> Result<PlayerStatus, ErrorKind> {
        status_of(self@)
    }

    fn currently_playing(&self) -> (r: Result<MediaProps, Error>) {
        self.get_media_properties()
    }

    fn player_status(&self) -> (r: Result<PlayerStatus, Error>) {
        self.get_player_status()
    }

    fn timeline(&self) -> (r: Result<TimelineProps, Error>) {
        let status = match self.get_player_status() {
            Ok(s) => s,
            Err(e) => {
                return Err(e);
            },
        };
        let tline: Option<TimelineProps> = match status {
            PlayerStatus::NoMedia => None,
            PlayerStatus::Paused(tl) => tl,
            PlayerStatus::Playing(tl) => tl,
        };
        if let Some(tl) = tline {
            Ok(tl)
        } else {
            Err(Error::new(ErrorKind::NoTimeline, "No timeline found."))
        }
    }
}

} // verus!
