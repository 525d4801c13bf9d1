use media_session::error::ErrorKind;
use media_session::linux::RawProgress;
use media_session::status::{
    resolve_status, STATUS_CHANGING, STATUS_CLOSED, STATUS_OPENED, STATUS_PAUSED, STATUS_PLAYING,
    STATUS_STOPPED,
};
use media_session::win::RawTimeline;
use media_session::{PlayerStatus, TimelineProps};

fn sample_timeline() -> TimelineProps {
    TimelineProps {
        min_seek: 0,
        max_seek: 180,
        position: 42,
        started: 0,
        ended: 180,
        last_update: 1_700_000_000,
    }
}

#[test]
fn stopped_class_codes_resolve_to_no_media() {
    for code in [STATUS_CLOSED, STATUS_OPENED, STATUS_CHANGING, STATUS_STOPPED] {
        let status = resolve_status(code, Some(sample_timeline())).expect("known code");
        assert_eq!(status, PlayerStatus::NoMedia);
    }
}

#[test]
fn playing_and_paused_codes_carry_the_payload() {
    let status = resolve_status(STATUS_PLAYING, Some(sample_timeline())).expect("known code");
    assert_eq!(status, PlayerStatus::Playing(Some(sample_timeline())));
    let status = resolve_status(STATUS_PAUSED, Some(sample_timeline())).expect("known code");
    assert_eq!(status, PlayerStatus::Paused(Some(sample_timeline())));
    let status = resolve_status(STATUS_PLAYING, None).expect("known code");
    assert_eq!(status, PlayerStatus::Playing(None));
}

#[test]
fn unknown_codes_are_surfaced_not_defaulted() {
    for code in [-1, 6, 7, 42, i32::MAX, i32::MIN] {
        let err = resolve_status(code, None).expect_err("unknown code");
        assert_eq!(err.kind(), ErrorKind::UnknownStatus);
    }
}

#[test]
fn elapsed_delta_is_reconciled_to_absolute_time() {
    // A raw "elapsed 5 seconds since creation" sample observed at wall-clock
    // time T must expose last_update == T - 5, not 5.
    let progress = RawProgress {
        length_secs: Some(180),
        position_secs: 42,
        elapsed_secs: 5,
    };
    let observed_at: i64 = 1_700_000_000;
    let timeline = TimelineProps::from_progress(&progress, observed_at).expect("reconciled");
    assert_eq!(timeline.last_update, observed_at - 5);
    assert_eq!(timeline.min_seek, 0);
    assert_eq!(timeline.max_seek, 180);
    assert_eq!(timeline.position, 42);
    assert_eq!(timeline.started, 0);
    assert_eq!(timeline.ended, 0);
}

#[test]
fn missing_length_defaults_to_zero() {
    let progress = RawProgress {
        length_secs: None,
        position_secs: 0,
        elapsed_secs: 0,
    };
    let timeline = TimelineProps::from_progress(&progress, 100).expect("reconciled");
    assert_eq!(timeline.max_seek, 0);
    assert_eq!(timeline.last_update, 100);
}

#[test]
fn reconciliation_clamps_instead_of_wrapping() {
    let progress = RawProgress {
        length_secs: None,
        position_secs: 0,
        elapsed_secs: -1,
    };
    let timeline = TimelineProps::from_progress(&progress, i64::MAX).expect("reconciled");
    assert_eq!(timeline.last_update, i64::MAX);

    let progress = RawProgress {
        length_secs: None,
        position_secs: 0,
        elapsed_secs: 1,
    };
    let timeline = TimelineProps::from_progress(&progress, i64::MIN).expect("reconciled");
    assert_eq!(timeline.last_update, i64::MIN);
}

#[test]
fn raw_timeline_missing_fields_default_to_zero() {
    let raw = RawTimeline {
        min_seek: None,
        max_seek: Some(1_800_000_000),
        position: None,
        started: None,
        ended: None,
        last_update: Some(133_700_000_000_000_000),
    };
    let timeline = TimelineProps::from_raw(&raw);
    assert_eq!(timeline.min_seek, 0);
    assert_eq!(timeline.max_seek, 1_800_000_000);
    assert_eq!(timeline.position, 0);
    assert_eq!(timeline.started, 0);
    assert_eq!(timeline.ended, 0);
    assert_eq!(timeline.last_update, 133_700_000_000_000_000);
}

#[test]
fn timeline_default_is_all_zero() {
    let timeline = TimelineProps::default();
    assert_eq!(
        timeline,
        TimelineProps {
            min_seek: 0,
            max_seek: 0,
            position: 0,
            started: 0,
            ended: 0,
            last_update: 0,
        }
    );
    assert_eq!(PlayerStatus::default(), PlayerStatus::NoMedia);
}
