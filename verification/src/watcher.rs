//! The deduplicated change-notification state machine: decides, tick by
//! tick, when a freshly normalized record is delivered to the caller. The
//! embedding loop performs the native work (subscribing, sleeping, fetching)
//! and feeds each tick's outcome in; the decisions here are verified.

use vstd::prelude::*;

use crate::{MediaProps, MediaPropsV};

verus! {

/// Spec view of one tick's fetch outcome: the normalized record when the
/// fetch succeeded, nothing when it failed.
pub open spec fn opt_props_view(o: Option<MediaProps>) -> Option<MediaPropsV> {
    match o {
        Some(m) => Some(m@),
        None => None,
    }
}

/// The delivery one tick causes: the freshly fetched record when it differs
/// structurally from the last delivered snapshot, nothing on a duplicate,
/// and nothing on a failed tick (a transient failure is reported aside and
/// never produces a spurious delivery).
pub open spec fn delivery_of(last: Option<MediaPropsV>, tick: Option<MediaPropsV>) -> Option<
    MediaPropsV,
> {
    match tick {
        Some(m) => if last == Some(m) {
            None
        } else {
            Some(m)
        },
        None => None,
    }
}

/// The snapshot after one tick: advanced exactly when a delivery happened,
/// so that delivering and updating are one atomic step.
pub open spec fn snapshot_after(last: Option<MediaPropsV>, tick: Option<MediaPropsV>) -> Option<
    MediaPropsV,
> {
    match delivery_of(last, tick) {
        Some(m) => Some(m),
        None => last,
    }
}

/// The full delivery stream a tick sequence produces, starting from the
/// given snapshot.
pub open spec fn deliveries(
    last: Option<MediaPropsV>,
    ticks: Seq<Option<MediaPropsV>>,
) -> Seq<MediaPropsV>
    decreases ticks.len(),
{
    if ticks.len() == 0 {
        Seq::empty()
    } else {
        match delivery_of(last, ticks[0]) {
            Some(m) => seq![m] + deliveries(Some(m), ticks.drop_first()),
            None => deliveries(snapshot_after(last, ticks[0]), ticks.drop_first()),
        }
    }
}

/// Spec-level state of a [`ChangeWatcher`].
#[verifier::ext_equal]
pub ghost struct ChangeWatcherV {
    /// The last delivered snapshot; `None` before the first delivery.
    pub last: Option<MediaPropsV>,
    /// Whether the native subscription is still held.
    pub subscribed: bool,
    /// Whether cancellation has been requested.
    pub cancelled: bool,
}

/// The long-lived watcher state: one mutable "last delivered snapshot" slot,
/// exclusively owned, plus the cancellation and subscription flags. The
/// embedding loop calls [`ChangeWatcher::on_tick`] with each fetch outcome
/// and delivers the current snapshot to its callback exactly when told to.
pub struct ChangeWatcher {
    last: Option<MediaProps>,
    subscribed: bool,
    cancelled: bool,
}

impl View for ChangeWatcher {
    type V = ChangeWatcherV;

    closed spec fn view(&self) -> ChangeWatcherV {
        ChangeWatcherV {
            last: opt_props_view(self.last),
            subscribed: self.subscribed,
            cancelled: self.cancelled,
        }
    }
}

impl ChangeWatcher {
    /// A fresh watcher holding its native subscription, with no baseline
    /// snapshot yet: the first successful tick always delivers.
    pub fn new() -> (w: Self)
        ensures
            w@.last is None,
            w@.subscribed,
            !w@.cancelled,
    {
        ChangeWatcher { last: None, subscribed: true, cancelled: false }
    }

    /// Feeds one tick's fetch outcome in and decides the delivery. Returns
    /// true exactly when the caller must deliver the new snapshot, which is
    /// then readable through [`ChangeWatcher::current`]. A failed fetch
    /// (`None`) changes nothing and never tears the watcher down; after
    /// cancellation no tick delivers.
    pub fn on_tick(&mut self, fetched: Option<MediaProps>) -> (delivered: bool)
        ensures
            final(self)@.subscribed == old(self)@.subscribed,
            final(self)@.cancelled == old(self)@.cancelled,
            old(self)@.cancelled ==> !delivered && final(self)@.last == old(self)@.last,
            !old(self)@.cancelled ==> delivered == (delivery_of(
                old(self)@.last,
                opt_props_view(fetched),
            ) is Some),
            !old(self)@.cancelled ==> final(self)@.last == snapshot_after(
                old(self)@.last,
                opt_props_view(fetched),
            ),
    {
        if self.cancelled {
            return false;
        }
        match fetched {
            None => false,
            Some(m) => {
                let differs = match &self.last {
                    None => true,
                    Some(prev) => !(*prev == m),
                };
                if differs {
                    self.last = Some(m);
                    true
                } else {
                    false
                }
            },
        }
    }

    /// The last delivered snapshot, the value the caller's callback receives
    /// when [`ChangeWatcher::on_tick`] said to deliver.
    pub fn current(&self) -> (r: Option<&MediaProps>)
        ensures
            match r {
                Some(m) => self@.last == Some(m@),
                None => self@.last is None,
            },
    {
        self.last.as_ref()
    }

    /// Requests cancellation: no later tick delivers, and the native
    /// subscription is released before control returns to the loop.
    pub fn cancel(&mut self)
        ensures
            final(self)@.cancelled,
            !final(self)@.subscribed,
            final(self)@.last == old(self)@.last,
    {
        self.cancelled = true;
        self.subscribed = false;
    }

    /// Whether cancellation has been requested.
    pub fn is_cancelled(&self) -> (c: bool)
        ensures
            c == self@.cancelled,
    {
        self.cancelled
    }

    /// Whether the native subscription is still held.
    pub fn is_subscribed(&self) -> (s: bool)
        ensures
            s == self@.subscribed,
    {
        self.subscribed
    }
}

/// Law: the initial tick delivers unconditionally. With no baseline
/// snapshot, any successfully fetched record is handed to the caller and
/// becomes the baseline.
pub proof fn lemma_first_tick_delivers(m: MediaPropsV)
    ensures
        delivery_of(Option::<MediaPropsV>::None, Some(m)) == Some(m),
        snapshot_after(Option::<MediaPropsV>::None, Some(m)) == Some(m),
{
}

/// Law: the delivery stream never repeats a snapshot back-to-back, and its
/// first delivery differs from the snapshot the stream started with.
pub proof fn lemma_deliveries_adjacent_distinct(
    last: Option<MediaPropsV>,
    ticks: Seq<Option<MediaPropsV>>,
)
    ensures
        forall|i: int|
            0 <= i < deliveries(last, ticks).len() - 1 ==> #[trigger] deliveries(last, ticks)[i]
                != deliveries(last, ticks)[i + 1],
        deliveries(last, ticks).len() > 0 ==> last != Some(deliveries(last, ticks)[0]),
    decreases ticks.len(),
{
    if ticks.len() > 0 {
        let rest = ticks.drop_first();
        match delivery_of(last, ticks[0]) {
            Some(m) => {
                lemma_deliveries_adjacent_distinct(Some(m), rest);
                let tail = deliveries(Some(m), rest);
                let all = deliveries(last, ticks);
                assert(all == seq![m] + tail);
                assert forall|i: int| 0 <= i < all.len() - 1 implies #[trigger] all[i] != all[i
                    + 1] by {
                    if i == 0 {
                        assert(all[1] == tail[0]);
                        assert(Some(m) != Some(tail[0]));
                    } else {
                        assert(all[i] == tail[i - 1]);
                        assert(all[i + 1] == tail[i]);
                    }
                }
            },
            None => {
                lemma_deliveries_adjacent_distinct(snapshot_after(last, ticks[0]), rest);
            },
        }
    }
}

/// Law: a duplicate-heavy tick sequence is deduplicated. Feeding the watcher
/// three fetches of one record, a transient fetch failure, two fetches of a
/// second record and one of a third yields exactly three deliveries, in
/// order, and the failure neither produces a delivery nor stops later ones.
pub proof fn lemma_watcher_dedup(a: MediaPropsV, b: MediaPropsV, c: MediaPropsV)
    requires
        a != b,
        b != c,
    ensures
        deliveries(
            Option::<MediaPropsV>::None,
            seq![Some(a), Some(a), Some(a), None, Some(b), Some(b), Some(c)],
        ) == seq![a, b, c],
{
    let t7 = seq![
        Some(a),
        Some(a),
        Some(a),
        Option::<MediaPropsV>::None,
        Some(b),
        Some(b),
        Some(c),
    ];
    let t6 = seq![Some(a), Some(a), Option::<MediaPropsV>::None, Some(b), Some(b), Some(c)];
    let t5 = seq![Some(a), Option::<MediaPropsV>::None, Some(b), Some(b), Some(c)];
    let t4 = seq![Option::<MediaPropsV>::None, Some(b), Some(b), Some(c)];
    let t3 = seq![Some(b), Some(b), Some(c)];
    let t2 = seq![Some(b), Some(c)];
    let t1 = seq![Some(c)];
    let t0 = Seq::<Option<MediaPropsV>>::empty();
    assert(t7.drop_first() =~= t6);
    assert(t6.drop_first() =~= t5);
    assert(t5.drop_first() =~= t4);
    assert(t4.drop_first() =~= t3);
    assert(t3.drop_first() =~= t2);
    assert(t2.drop_first() =~= t1);
    assert(t1.drop_first() =~= t0);
    assert(deliveries(Some(c), t0) =~= Seq::<MediaPropsV>::empty());
    assert(deliveries(Some(b), t1) =~= seq![c]);
    assert(deliveries(Some(b), t2) =~= seq![c]);
    assert(deliveries(Some(a), t3) =~= seq![b, c]);
    assert(deliveries(Some(a), t4) =~= seq![b, c]);
    assert(deliveries(Some(a), t5) =~= seq![b, c]);
    assert(deliveries(Some(a), t6) =~= seq![b, c]);
    assert(deliveries(Option::<MediaPropsV>::None, t7) =~= seq![a, b, c]);
}

} // verus!
