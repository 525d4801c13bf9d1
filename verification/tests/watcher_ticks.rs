use media_session::watcher::ChangeWatcher;
use media_session::MediaProps;

fn record(title: &str) -> MediaProps {
    let mut props = MediaProps::new();
    props.title = String::from(title);
    props
}

fn feed(watcher: &mut ChangeWatcher, ticks: Vec<Option<MediaProps>>) -> Vec<MediaProps> {
    let mut delivered = Vec::new();
    for tick in ticks {
        if watcher.on_tick(tick) {
            delivered.push(watcher.current().expect("delivered snapshot").clone());
        }
    }
    delivered
}

#[test]
fn duplicate_ticks_are_deduplicated() {
    // Ticks [A, A, A, failure, B, B, C] must yield exactly [A, B, C]: the
    // transient failure neither produces a delivery nor stops B and C.
    let a = record("A");
    let b = record("B");
    let c = record("C");
    let mut watcher = ChangeWatcher::new();
    let delivered = feed(
        &mut watcher,
        vec![
            Some(a.clone()),
            Some(a.clone()),
            Some(a.clone()),
            None,
            Some(b.clone()),
            Some(b.clone()),
            Some(c.clone()),
        ],
    );
    assert_eq!(delivered, vec![a, b, c]);
}

#[test]
fn plain_duplicate_sequence_yields_three_deliveries() {
    let a = record("A");
    let b = record("B");
    let c = record("C");
    let mut watcher = ChangeWatcher::new();
    let delivered = feed(
        &mut watcher,
        vec![
            Some(a.clone()),
            Some(a.clone()),
            Some(a.clone()),
            Some(b.clone()),
            Some(b.clone()),
            Some(c.clone()),
        ],
    );
    assert_eq!(delivered, vec![a, b, c]);
}

#[test]
fn initial_tick_always_delivers() {
    let mut watcher = ChangeWatcher::new();
    assert!(watcher.current().is_none());
    assert!(watcher.on_tick(Some(record("A"))));
    assert_eq!(watcher.current().expect("baseline"), &record("A"));
}

#[test]
fn failed_tick_changes_nothing() {
    let mut watcher = ChangeWatcher::new();
    assert!(!watcher.on_tick(None));
    assert!(watcher.current().is_none());
    assert!(watcher.on_tick(Some(record("A"))));
    assert!(!watcher.on_tick(None));
    assert_eq!(watcher.current().expect("baseline"), &record("A"));
}

#[test]
fn returning_to_an_old_value_delivers_again() {
    let a = record("A");
    let b = record("B");
    let mut watcher = ChangeWatcher::new();
    let delivered = feed(
        &mut watcher,
        vec![Some(a.clone()), Some(b.clone()), Some(a.clone())],
    );
    assert_eq!(delivered, vec![a.clone(), b, a]);
}

#[test]
fn cancellation_stops_deliveries_and_releases_the_subscription() {
    let mut watcher = ChangeWatcher::new();
    assert!(watcher.is_subscribed());
    assert!(watcher.on_tick(Some(record("A"))));
    watcher.cancel();
    assert!(watcher.is_cancelled());
    assert!(!watcher.is_subscribed());
    // no tick after cancellation produces a delivery
    assert!(!watcher.on_tick(Some(record("B"))));
    assert!(!watcher.on_tick(Some(record("A"))));
    assert_eq!(watcher.current().expect("snapshot kept"), &record("A"));
}
