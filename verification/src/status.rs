//! Status resolution: deriving a [`PlayerStatus`] from a raw backend
//! transport-status code plus an optional timeline payload.

use vstd::prelude::*;

use crate::error::{Error, ErrorKind};
use crate::{PlayerStatus, TimelineProps};

verus! {

/// The session is closed; no transport is available.
pub const STATUS_CLOSED: i32 = 0;

/// The session is opened but playback has not begun.
pub const STATUS_OPENED: i32 = 1;

/// The session is changing tracks or sources.
pub const STATUS_CHANGING: i32 = 2;

/// Playback is stopped.
pub const STATUS_STOPPED: i32 = 3;

/// Playback is running.
pub const STATUS_PLAYING: i32 = 4;

/// Playback is paused.
pub const STATUS_PAUSED: i32 = 5;

/// Classification of one raw transport-status code: the "stopped/closed/
/// opening/changing" class maps to no media, "playing" and "paused" map to
/// the corresponding variant carrying the timeline payload, and any code
/// outside the known set is surfaced as `UnknownStatus`, never defaulted.
pub open spec fn resolved_status(code: i32, timeline: Option<TimelineProps>) -> Result<
    PlayerStatus,
    ErrorKind,
> {
    if code == STATUS_CLOSED || code == STATUS_OPENED || code == STATUS_CHANGING || code
        == STATUS_STOPPED {
        Ok(PlayerStatus::NoMedia)
    } else if code == STATUS_PLAYING {
        Ok(PlayerStatus::Playing(timeline))
    } else if code == STATUS_PAUSED {
        Ok(PlayerStatus::Paused(timeline))
    } else {
        Err(ErrorKind::UnknownStatus)
    }
}

/// Derives a `PlayerStatus` from a raw transport-status code and the timeline
/// payload that a separate fetch produced (`None` when that fetch failed: the
/// downgrade stays inside the status instead of failing the call).
pub fn resolve_status(code: i32, timeline: Option<TimelineProps>) -> (r: Result<
    PlayerStatus,
    Error,
>)
    ensures
        crate::status_result_view(r) == resolved_status(code, timeline),
{
    if code == STATUS_CLOSED || code == STATUS_OPENED || code == STATUS_CHANGING || code
        == STATUS_STOPPED {
        Ok(PlayerStatus::NoMedia)
    } else if code == STATUS_PLAYING {
        Ok(PlayerStatus::Playing(timeline))
    } else if code == STATUS_PAUSED {
        Ok(PlayerStatus::Paused(timeline))
    } else {
        Err(Error::new(ErrorKind::UnknownStatus, "Unable to get playback status"))
    }
}

/// Law: the resolver is total over the known raw-status domain. Every
/// "stopped/closed/opening/changing" code maps to no media, "playing" and
/// "paused" map to their variant, and every code outside the known set yields
/// `UnknownStatus`.
pub proof fn lemma_status_resolver_total(code: i32, timeline: Option<TimelineProps>)
    ensures
        (code == STATUS_CLOSED || code == STATUS_OPENED || code == STATUS_CHANGING || code
            == STATUS_STOPPED) ==> resolved_status(code, timeline) == Ok::<
            PlayerStatus,
            ErrorKind,
        >(PlayerStatus::NoMedia),
        code == STATUS_PLAYING ==> resolved_status(code, timeline) == Ok::<
            PlayerStatus,
            ErrorKind,
        >(PlayerStatus::Playing(timeline)),
        code == STATUS_PAUSED ==> resolved_status(code, timeline) == Ok::<
            PlayerStatus,
            ErrorKind,
        >(PlayerStatus::Paused(timeline)),
        (code < STATUS_CLOSED || code > STATUS_PAUSED) ==> resolved_status(code, timeline)
            == Err::<PlayerStatus, ErrorKind>(ErrorKind::UnknownStatus),
{
}

} // verus!
