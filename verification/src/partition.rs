//! Splitting team events by a level threshold.
//!
//! There are many team events, so they are shown in two groups: those whose
//! level requirement is strictly below the threshold, and the rest. Each group
//! keeps the events in the order in which they were given.

use vstd::prelude::*;
use crate::error::MenuError;
use crate::event::{events_view, GroupEvent, GroupEventView};
use crate::order::{lemma_filter_keeps_order, stands_in_order};

verus! {

/// A team event whose level requirement is strictly below `threshold`.
pub open spec fn is_below(event: GroupEventView, threshold: u8) -> bool {
    event matches GroupEventView::TeamEvent { level_requirement, .. } && level_requirement
        < threshold
}

/// A team event whose level requirement is `threshold` or more.
pub open spec fn is_at_or_above(event: GroupEventView, threshold: u8) -> bool {
    event matches GroupEventView::TeamEvent { level_requirement, .. } && level_requirement
        >= threshold
}

/// Every event of the list is a team event.
pub open spec fn only_team_events(events: Seq<GroupEventView>) -> bool {
    forall|i: int| 0 <= i < events.len() ==> #[trigger] events[i] is TeamEvent
}

/// Every event of the list is a team event.
pub open spec fn all_team_events(events: Seq<GroupEvent>) -> bool {
    forall|i: int| 0 <= i < events.len() ==> #[trigger] events[i] is TeamEvent
}

/// The events below the threshold, in their order.
pub open spec fn low_bucket(events: Seq<GroupEvent>, threshold: u8) -> Seq<GroupEvent> {
    events.filter(|event: GroupEvent| is_below(event@, threshold))
}

/// The events at or above the threshold, in their order.
pub open spec fn high_bucket(events: Seq<GroupEvent>, threshold: u8) -> Seq<GroupEvent> {
    events.filter(|event: GroupEvent| is_at_or_above(event@, threshold))
}

/// What the events below the threshold hold, in their order.
pub open spec fn low_views(events: Seq<GroupEventView>, threshold: u8) -> Seq<GroupEventView> {
    events.filter(|event: GroupEventView| is_below(event, threshold))
}

/// What the events at or above the threshold hold, in their order.
pub open spec fn high_views(events: Seq<GroupEventView>, threshold: u8) -> Seq<GroupEventView> {
    events.filter(|event: GroupEventView| is_at_or_above(event, threshold))
}

/// A list holds only team events exactly when its views say so.
pub proof fn lemma_team_events_views(events: Seq<GroupEvent>)
    ensures
        all_team_events(events) <==> only_team_events(events_view(events)),
{
    let views = events_view(events);
    if all_team_events(events) {
        assert forall|i: int| 0 <= i < views.len() implies #[trigger] views[i] is TeamEvent by {
            assert(events[i] is TeamEvent);
        }
    }
    if only_team_events(views) {
        assert forall|i: int| 0 <= i < events.len() implies #[trigger] events[i] is TeamEvent by {
            assert(views[i] is TeamEvent);
        }
    }
}

/// The buckets of a list hold what the buckets of its views say.
pub proof fn lemma_bucket_views(events: Seq<GroupEvent>, threshold: u8)
    ensures
        events_view(low_bucket(events, threshold)) == low_views(events_view(events), threshold),
        events_view(high_bucket(events, threshold)) == high_views(events_view(events), threshold),
    decreases events.len(),
{
    reveal(Seq::filter);
    if events.len() == 0 {
        assert(events_view(low_bucket(events, threshold)) =~= low_views(
            events_view(events),
            threshold,
        ));
        assert(events_view(high_bucket(events, threshold)) =~= high_views(
            events_view(events),
            threshold,
        ));
    } else {
        let head = events.drop_last();
        let last = events.last();
        lemma_bucket_views(head, threshold);
        assert(events_view(events).drop_last() =~= events_view(head));
        assert(events_view(events).last() == last@);
        assert(events_view(low_bucket(events, threshold)) =~= low_views(
            events_view(events),
            threshold,
        ));
        assert(events_view(high_bucket(events, threshold)) =~= high_views(
            events_view(events),
            threshold,
        ));
    }
}

/// The two buckets together hold each event as often as the input does:
/// nothing is lost and nothing is added.
pub proof fn lemma_buckets_hold_every_event(events: Seq<GroupEvent>, threshold: u8)
    requires
        all_team_events(events),
    ensures
        (low_bucket(events, threshold) + high_bucket(events, threshold)).to_multiset()
            == events.to_multiset(),
        low_bucket(events, threshold).len() + high_bucket(events, threshold).len() == events.len(),
    decreases events.len(),
{
    broadcast use vstd::seq_lib::group_to_multiset_ensures;

    let below = |event: GroupEvent| is_below(event@, threshold);
    let above = |event: GroupEvent| is_at_or_above(event@, threshold);
    reveal(Seq::filter);
    if events.len() == 0 {
        assert(low_bucket(events, threshold) + high_bucket(events, threshold) =~= events);
    } else {
        let head = events.drop_last();
        let last = events.last();
        lemma_buckets_hold_every_event(head, threshold);
        let low = head.filter(below);
        let high = head.filter(above);
        assert(events =~= head.push(last));
        assert(last is TeamEvent);
        vstd::seq_lib::lemma_multiset_commutative(low, high);
        if is_below(last@, threshold) {
            assert(events.filter(below) == low.push(last));
            assert(events.filter(above) == high);
            vstd::seq_lib::lemma_multiset_commutative(low.push(last), high);
            assert(low.push(last).to_multiset().add(high.to_multiset()) =~= low.to_multiset().add(
                high.to_multiset(),
            ).insert(last));
        } else {
            assert(events.filter(below) == low);
            assert(events.filter(above) == high.push(last));
            assert(low + high.push(last) =~= (low + high).push(last));
        }
    }
}

/// The low bucket holds only events below the threshold, the high bucket
/// only events at or above it; together they hold every event of the input
/// exactly as often as the input does; and each bucket keeps the input's
/// order.
pub proof fn lemma_partition(events: Seq<GroupEvent>, threshold: u8)
    requires
        all_team_events(events),
    ensures
        forall|i: int|
            0 <= i < low_bucket(events, threshold).len() ==> is_below(
                (#[trigger] low_bucket(events, threshold)[i])@,
                threshold,
            ),
        forall|i: int|
            0 <= i < high_bucket(events, threshold).len() ==> is_at_or_above(
                (#[trigger] high_bucket(events, threshold)[i])@,
                threshold,
            ),
        (low_bucket(events, threshold) + high_bucket(events, threshold)).to_multiset()
            == events.to_multiset(),
        exists|places: Seq<int>| stands_in_order(low_bucket(events, threshold), events, places),
        exists|places: Seq<int>| stands_in_order(high_bucket(events, threshold), events, places),
{
    let below = |event: GroupEvent| is_below(event@, threshold);
    let above = |event: GroupEvent| is_at_or_above(event@, threshold);
    assert forall|i: int| 0 <= i < low_bucket(events, threshold).len() implies is_below(
        (#[trigger] low_bucket(events, threshold)[i])@,
        threshold,
    ) by {
        events.lemma_filter_pred(below, i);
    }
    assert forall|i: int| 0 <= i < high_bucket(events, threshold).len() implies is_at_or_above(
        (#[trigger] high_bucket(events, threshold)[i])@,
        threshold,
    ) by {
        events.lemma_filter_pred(above, i);
    }
    lemma_buckets_hold_every_event(events, threshold);
    lemma_filter_keeps_order(events, below);
    lemma_filter_keeps_order(events, above);
}

/// Splits team events into those below `threshold` and the rest, each group
/// in the order of the input. A league event among them is refused.
pub fn partition_by_level(events: Vec<GroupEvent>, threshold: u8) -> (result: Result<
    (Vec<GroupEvent>, Vec<GroupEvent>),
    MenuError,
>)
    ensures
        all_team_events(events@) ==> (result matches Ok(buckets) && buckets.0@ == low_bucket(
            events@,
            threshold,
        ) && buckets.1@ == high_bucket(events@, threshold)),
        !all_team_events(events@) ==> result == Err::<(Vec<GroupEvent>, Vec<GroupEvent>), MenuError>(
            MenuError::InvalidVariant,
        ),
        result matches Ok(buckets) ==> events_view(buckets.0@) == low_views(
            events_view(events@),
            threshold,
        ) && events_view(buckets.1@) == high_views(events_view(events@), threshold),
{
    broadcast use vstd::std_specs::vec::group_vec_axioms;

    let ghost all = events@;
    let ghost below = |event: GroupEvent| is_below(event@, threshold);
    let ghost above = |event: GroupEvent| is_at_or_above(event@, threshold);
    let mut low: Vec<GroupEvent> = Vec::new();
    let mut high: Vec<GroupEvent> = Vec::new();
    proof {
        reveal(Seq::filter);
        assert(all.take(0).filter(below) =~= Seq::<GroupEvent>::empty());
        assert(all.take(0).filter(above) =~= Seq::<GroupEvent>::empty());
    }
    for event in it: events.into_iter()
        invariant
            it.seq() == all,
            below == (|event: GroupEvent| is_below(event@, threshold)),
            above == (|event: GroupEvent| is_at_or_above(event@, threshold)),
            all_team_events(all.take(it.index())),
            low@ == all.take(it.index()).filter(below),
            high@ == all.take(it.index()).filter(above),
    {
        let ghost done = all.take(it.index());
        proof {
            assert(all.take(it.index() + 1) =~= done.push(event));
            done.lemma_filter_push(event, below);
            done.lemma_filter_push(event, above);
        }
        match event.compare_level_requirement(&threshold) {
            Ok(sign) => {
                proof {
                    assert forall|k: int| 0 <= k < it.index() + 1 implies #[trigger] all.take(
                        it.index() + 1,
                    )[k] is TeamEvent by {
                        if k < it.index() {
                            assert(done[k] is TeamEvent);
                        }
                    }
                }
                if sign < 0 {
                    low.push(event);
                } else {
                    high.push(event);
                }
            },
            Err(error) => {
                assert(all[it.index()] is LeagueEvent);
                return Err(error);
            },
        }
    }
    proof {
        assert(all.take(all.len() as int) =~= all);
        lemma_bucket_views(all, threshold);
    }
    Ok((low, high))
}

} // verus!
