//! What holds of every run of the machine.
//!
//! A run is a state together with the records that the driver was asked
//! to write on the way there, in order. The laws below speak of runs over
//! whole sequences of events.

use vstd::prelude::*;
use crate::cloudflare::{records_listing, zone_lookup, BasicResponse, DnsRecordView,
    DnsRecordsResponseView, ZoneView, ZonesResponseView};
use crate::config::ConfigView;
use crate::failure::{FailureKind, FailureView};
use crate::reconcile::{next, pending, ActionView, EventView, State};

verus! {

/// A state, and the records that were handed out for writing so far.
pub struct Run {
    pub state: State,
    pub updates: Seq<DnsRecordView>,
}

/// The run that begins in `state`, with nothing written yet.
pub open spec fn begin(state: State) -> Run {
    Run { state, updates: Seq::empty() }
}

/// The run after one more event. The step that takes the event hands
/// back the operation outstanding in the new state; where that is the
/// writing of a record, the record counts as one more update.
pub open spec fn proceed(config: ConfigView, run: Run, event: EventView) -> Run {
    let state = next(config, run.state, event);
    Run {
        state,
        updates: match pending(config, state) {
            ActionView::PatchRecord { record, .. } => run.updates.push(record),
            _ => run.updates,
        },
    }
}

/// The run after a sequence of events.
pub open spec fn play(config: ConfigView, start: Run, events: Seq<EventView>) -> Run
    decreases events.len(),
{
    if events.len() == 0 {
        start
    } else {
        proceed(config, play(config, start, events.drop_last()), events.last())
    }
}

/// The belief that a state holds, where it holds one.
pub open spec fn belief_of(state: State) -> Option<Seq<char>> {
    match state {
        State::Polling { belief, .. } => Some(belief),
        State::Rereading { belief, .. } => Some(belief),
        State::Writing { belief, .. } => Some(belief),
        State::Sleeping { belief, .. } => Some(belief),
        _ => None,
    }
}

/// Playing two sequences of events one after the other is playing their
/// concatenation.
pub proof fn lemma_play_concat(
    config: ConfigView,
    start: Run,
    first: Seq<EventView>,
    second: Seq<EventView>,
)
    ensures
        play(config, start, first + second) == play(config, play(config, start, first), second),
    decreases second.len(),
{
    if second.len() == 0 {
        assert(first + second =~= first);
    } else {
        assert((first + second).drop_last() =~= first + second.drop_last());
        assert((first + second).last() == second.last());
        lemma_play_concat(config, start, first, second.drop_last());
    }
}

/// Playing one event is proceeding by it.
pub proof fn lemma_play_one(config: ConfigView, start: Run, event: EventView)
    ensures
        play(config, start, seq![event]) == proceed(config, start, event),
{
    let events = seq![event];
    assert(events.drop_last() =~= Seq::<EventView>::empty());
    assert(play(config, start, events.drop_last()) == start);
}


/// Whether the machine is between two writes in the zone `zone_id`,
/// holding `belief`: about to fetch, or asleep.
pub open spec fn settled(state: State, zone_id: Seq<char>, belief: Seq<char>) -> bool {
    state == (State::Polling { zone_id, belief }) || state == (State::Sleeping { zone_id, belief })
}

/// Whether no event of `events` reports a value other than `value`.
pub open spec fn reports_only(events: Seq<EventView>, value: Seq<char>) -> bool {
    forall|i: int|
        0 <= i < events.len() ==> (#[trigger] events[i] matches EventView::Fetched(Some(observed))
            ==> observed == value)
}

/// The events of one cycle after another in which nothing is written:
/// each fetch brings what `observed` says, and the sleep follows.
pub open spec fn idle_cycles(observed: Seq<Option<Seq<char>>>) -> Seq<EventView>
    decreases observed.len(),
{
    if observed.len() == 0 {
        Seq::empty()
    } else {
        idle_cycles(observed.drop_last()) + seq![
            EventView::Fetched(observed.last()),
            EventView::Woke,
        ]
    }
}

/// Whether a listing reports success and holds at least one record.
pub open spec fn lists_a_record(listing: DnsRecordsResponseView) -> bool {
    listing.success && listing.result is Some && listing.result->0.len() > 0
}

/// The events of one cycle in which `value` is fetched, the record is
/// listed afresh, and the write is answered by `written`.
pub open spec fn write_cycle(
    value: Seq<char>,
    listing: DnsRecordsResponseView,
    written: Result<BasicResponse, Seq<char>>,
) -> Seq<EventView> {
    seq![
        EventView::Fetched(Some(value)),
        EventView::Records(Ok(listing)),
        EventView::Patched(written),
        EventView::Woke,
    ]
}

/// The reply that confirms a write.
pub open spec fn confirmed() -> Result<BasicResponse, Seq<char>> {
    Ok(BasicResponse { success: true })
}

/// The events of one cycle after another in which the values of `values`
/// are fetched in turn and every write is confirmed.
pub open spec fn write_cycles(
    values: Seq<Seq<char>>,
    listings: Seq<DnsRecordsResponseView>,
) -> Seq<EventView>
    decreases values.len(),
{
    if values.len() == 0 {
        Seq::empty()
    } else {
        write_cycles(values.drop_last(), listings.drop_last()) + write_cycle(
            values.last(),
            listings.last(),
            confirmed(),
        )
    }
}

/// The record that a cycle hands out for writing: the first of the fresh
/// listing, holding the value that was fetched.
pub open spec fn handed_out(value: Seq<char>, listing: DnsRecordsResponseView) -> DnsRecordView {
    listing.result->0[0].with_content(value)
}

/// The records that the cycles of `write_cycles` hand out, in order.
pub open spec fn all_handed_out(
    values: Seq<Seq<char>>,
    listings: Seq<DnsRecordsResponseView>,
) -> Seq<DnsRecordView> {
    Seq::new(values.len(), |i: int| handed_out(values[i], listings[i]))
}

/// Idempotence. While every value that the store reports equals the
/// belief, whatever else is reported and however often, no record is
/// handed out for writing, and the machine stays between two writes with
/// the belief it had.
pub proof fn law_idempotence(
    config: ConfigView,
    start: Run,
    zone_id: Seq<char>,
    belief: Seq<char>,
    events: Seq<EventView>,
)
    requires
        settled(start.state, zone_id, belief),
        reports_only(events, belief),
    ensures
        settled(play(config, start, events).state, zone_id, belief),
        play(config, start, events).updates == start.updates,
    decreases events.len(),
{
    if events.len() > 0 {
        let before = events.drop_last();
        assert forall|i: int| 0 <= i < before.len() implies (#[trigger] before[i] matches EventView::Fetched(
            Some(observed),
        ) ==> observed == belief) by {
            assert(before[i] == events[i]);
        }
        law_idempotence(config, start, zone_id, belief, before);
        assert(events.last() == events[events.len() - 1]);
    }
}

/// Idempotence, cycle by cycle. After any number of cycles in which the
/// store reports the belief, or reports nothing, the run is what it was:
/// the same state, the same belief, and not one record more handed out.
pub proof fn law_idle_cycles_change_nothing(
    config: ConfigView,
    updates: Seq<DnsRecordView>,
    zone_id: Seq<char>,
    belief: Seq<char>,
    observed: Seq<Option<Seq<char>>>,
)
    requires
        forall|i: int|
            0 <= i < observed.len() ==> #[trigger] observed[i] is None || observed[i] == Some(
                belief,
            ),
    ensures
        play(
            config,
            Run { state: State::Polling { zone_id, belief }, updates },
            idle_cycles(observed),
        ) == (Run { state: State::Polling { zone_id, belief }, updates }),
    decreases observed.len(),
{
    let start = Run { state: State::Polling { zone_id, belief }, updates };
    if observed.len() > 0 {
        let before = observed.drop_last();
        assert forall|i: int| 0 <= i < before.len() implies #[trigger] before[i] is None
            || before[i] == Some(belief) by {
            assert(before[i] == observed[i]);
        }
        law_idle_cycles_change_nothing(config, updates, zone_id, belief, before);
        let fetched = EventView::Fetched(observed.last());
        assert(observed.last() == observed[observed.len() - 1]);
        let cycle = seq![fetched, EventView::Woke];
        assert(cycle =~= seq![fetched] + seq![EventView::Woke]);
        lemma_play_concat(config, start, idle_cycles(before), cycle);
        lemma_play_concat(config, start, seq![fetched], seq![EventView::Woke]);
        lemma_play_one(config, start, fetched);
        lemma_play_one(config, proceed(config, start, fetched), EventView::Woke);
    }
}

/// Resilience to an unavailable store. After any number of cycles in
/// which the fetch fails, the machine is about to fetch again, with the
/// belief it had and not one record handed out for writing.
pub proof fn law_unavailable_store_changes_nothing(
    config: ConfigView,
    updates: Seq<DnsRecordView>,
    zone_id: Seq<char>,
    belief: Seq<char>,
    cycles: nat,
)
    ensures
        play(
            config,
            Run { state: State::Polling { zone_id, belief }, updates },
            idle_cycles(Seq::new(cycles, |i: int| None)),
        ) == (Run { state: State::Polling { zone_id, belief }, updates }),
{
    law_idle_cycles_change_nothing(
        config,
        updates,
        zone_id,
        belief,
        Seq::new(cycles, |i: int| None),
    );
}

/// One cycle that sees a value other than the belief. The first record of
/// the fresh listing is handed out once, holding that value. A confirmed
/// write makes the value the belief; a write that fails, for whatever
/// reason, leaves the belief as it was.
pub proof fn law_write_cycle(
    config: ConfigView,
    updates: Seq<DnsRecordView>,
    zone_id: Seq<char>,
    belief: Seq<char>,
    value: Seq<char>,
    listing: DnsRecordsResponseView,
    written: Result<BasicResponse, Seq<char>>,
)
    requires
        value != belief,
        lists_a_record(listing),
    ensures
        play(
            config,
            Run { state: State::Polling { zone_id, belief }, updates },
            write_cycle(value, listing, written),
        ) == (Run {
            state: State::Polling {
                zone_id,
                belief: if written matches Ok(response) && response.success {
                    value
                } else {
                    belief
                },
            },
            updates: updates.push(handed_out(value, listing)),
        }),
{
    let start = Run { state: State::Polling { zone_id, belief }, updates };
    let e0 = EventView::Fetched(Some(value));
    let e1 = EventView::Records(Ok(listing));
    let e2 = EventView::Patched(written);
    let e3 = EventView::Woke;
    let r1 = proceed(config, start, e0);
    let r2 = proceed(config, r1, e1);
    let r3 = proceed(config, r2, e2);
    let events = write_cycle(value, listing, written);
    assert(events =~= seq![e0] + seq![e1] + seq![e2] + seq![e3]);
    lemma_play_concat(config, start, seq![e0] + seq![e1] + seq![e2], seq![e3]);
    lemma_play_concat(config, start, seq![e0] + seq![e1], seq![e2]);
    lemma_play_concat(config, start, seq![e0], seq![e1]);
    lemma_play_one(config, start, e0);
    lemma_play_one(config, r1, e1);
    lemma_play_one(config, r2, e2);
    lemma_play_one(config, r3, e3);
}

/// Convergence. Let each of `values` differ from the belief in force when
/// it is fetched, let every fresh listing hold a record, and let every
/// write be confirmed. Then one record is handed out for each value, in
/// order and holding that value, and at the end the belief is the last of
/// the values.
pub proof fn law_convergence(
    config: ConfigView,
    zone_id: Seq<char>,
    belief: Seq<char>,
    values: Seq<Seq<char>>,
    listings: Seq<DnsRecordsResponseView>,
)
    requires
        values.len() == listings.len(),
        forall|i: int| 0 <= i < listings.len() ==> lists_a_record(#[trigger] listings[i]),
        values.len() > 0 ==> values[0] != belief,
        forall|i: int| 0 < i < values.len() ==> #[trigger] values[i] != values[i - 1],
    ensures
        play(
            config,
            begin(State::Polling { zone_id, belief }),
            write_cycles(values, listings),
        ) == (Run {
            state: State::Polling {
                zone_id,
                belief: if values.len() == 0 {
                    belief
                } else {
                    values.last()
                },
            },
            updates: all_handed_out(values, listings),
        }),
    decreases values.len(),
{
    let start = begin(State::Polling { zone_id, belief });
    if values.len() == 0 {
        assert(all_handed_out(values, listings) =~= Seq::<DnsRecordView>::empty());
    } else {
        let n = values.len() - 1;
        let earlier = values.drop_last();
        let earlier_listings = listings.drop_last();
        assert forall|i: int| 0 <= i < earlier_listings.len() implies lists_a_record(
            #[trigger] earlier_listings[i],
        ) by {
            assert(earlier_listings[i] == listings[i]);
        }
        assert forall|i: int| 0 < i < earlier.len() implies #[trigger] earlier[i] != earlier[i
            - 1] by {
            assert(earlier[i] == values[i]);
            assert(earlier[i - 1] == values[i - 1]);
        }
        if earlier.len() > 0 {
            assert(earlier[0] == values[0]);
        }
        law_convergence(config, zone_id, belief, earlier, earlier_listings);
        let reached = play(config, start, write_cycles(earlier, earlier_listings));
        let held = if earlier.len() == 0 {
            belief
        } else {
            earlier.last()
        };
        assert(values.last() != held) by {
            if earlier.len() > 0 {
                assert(values[n] != values[n - 1]);
                assert(earlier.last() == values[n - 1]);
            }
        }
        lemma_play_concat(
            config,
            start,
            write_cycles(earlier, earlier_listings),
            write_cycle(values.last(), listings.last(), confirmed()),
        );
        law_write_cycle(
            config,
            reached.updates,
            zone_id,
            held,
            values.last(),
            listings.last(),
            confirmed(),
        );
        assert(all_handed_out(values, listings) =~= all_handed_out(earlier, earlier_listings).push(
            handed_out(values.last(), listings.last()),
        ));
    }
}

/// Recovery from a failed write. A value other than the belief is seen and
/// the write fails: the belief stays. The same value is seen in the next
/// cycle and the write is confirmed: the value is now the belief, and two
/// records were handed out in all, one in each cycle.
pub proof fn law_recovery_after_failed_write(
    config: ConfigView,
    zone_id: Seq<char>,
    belief: Seq<char>,
    value: Seq<char>,
    first: DnsRecordsResponseView,
    refusal: Result<BasicResponse, Seq<char>>,
    second: DnsRecordsResponseView,
)
    requires
        value != belief,
        lists_a_record(first),
        lists_a_record(second),
        refusal matches Ok(response) ==> !response.success,
    ensures
        play(
            config,
            begin(State::Polling { zone_id, belief }),
            write_cycle(value, first, refusal),
        ) == (Run {
            state: State::Polling { zone_id, belief },
            updates: seq![handed_out(value, first)],
        }),
        play(
            config,
            begin(State::Polling { zone_id, belief }),
            write_cycle(value, first, refusal) + write_cycle(value, second, confirmed()),
        ) == (Run {
            state: State::Polling { zone_id, belief: value },
            updates: seq![handed_out(value, first), handed_out(value, second)],
        }),
{
    let start = begin(State::Polling { zone_id, belief });
    law_write_cycle(config, start.updates, zone_id, belief, value, first, refusal);
    let midway = play(config, start, write_cycle(value, first, refusal));
    assert(midway.updates =~= seq![handed_out(value, first)]);
    lemma_play_concat(
        config,
        start,
        write_cycle(value, first, refusal),
        write_cycle(value, second, confirmed()),
    );
    law_write_cycle(config, midway.updates, zone_id, belief, value, second, confirmed());
    assert(midway.updates.push(handed_out(value, second)) =~= seq![
        handed_out(value, first),
        handed_out(value, second),
    ]);
}

/// A machine that has stopped stays stopped: whatever is reported, the
/// outstanding operation is to exit with the failure, and no record is
/// handed out for writing.
pub proof fn law_stopped_is_final(
    config: ConfigView,
    start: Run,
    failure: FailureView,
    events: Seq<EventView>,
)
    requires
        start.state == (State::Stopped { failure }),
    ensures
        play(config, start, events) == start,
        pending(config, start.state) == (ActionView::Exit { failure }),
    decreases events.len(),
{
    if events.len() > 0 {
        law_stopped_is_final(config, start, failure, events.drop_last());
    }
}

/// Fatal startup. When the lookup of the zone fails the machine stops at
/// once: whatever is reported afterwards, the outstanding operation is to
/// exit with that failure, and no record is ever handed out for writing.
/// A zone that does not exist is such a failure, of the class `NotFound`.
pub proof fn law_startup_fatality(
    config: ConfigView,
    reply: Result<ZonesResponseView, Seq<char>>,
    later: Seq<EventView>,
)
    requires
        zone_lookup(config.zone_name, reply) is Err,
    ensures
        play(config, begin(State::ResolvingZone), seq![EventView::Zones(reply)] + later) == begin(
            State::Stopped { failure: zone_lookup(config.zone_name, reply)->Err_0 },
        ),
        pending(
            config,
            State::Stopped { failure: zone_lookup(config.zone_name, reply)->Err_0 },
        ) is Exit,
        reply matches Ok(response) && response.success && response.result == Some(
            Seq::<ZoneView>::empty(),
        ) ==> zone_lookup(config.zone_name, reply) == Err::<Seq<char>, FailureView>(
            FailureView {
                kind: FailureKind::NotFound,
                message: "Failed to find zone "@ + config.zone_name,
            },
        ),
{
    let start = begin(State::ResolvingZone);
    let event = EventView::Zones(reply);
    let failure = zone_lookup(config.zone_name, reply)->Err_0;
    lemma_play_concat(config, start, seq![event], later);
    lemma_play_one(config, start, event);
    law_stopped_is_final(config, begin(State::Stopped { failure }), failure, later);
}

/// The belief moves only on a confirmed write. Where a state and the one
/// that follows it both hold a belief and the two differ, the machine was
/// writing, the write was confirmed, and the new belief is the content of
/// the record that was written.
pub proof fn law_belief_follows_confirmed_writes(
    config: ConfigView,
    state: State,
    event: EventView,
)
    requires
        belief_of(state) is Some,
        belief_of(next(config, state, event)) != belief_of(state),
    ensures
        next(config, state, event) is Stopped || {
            &&& state matches State::Writing { record, .. }
            &&& event matches EventView::Patched(Ok(response))
            &&& response.success
            &&& belief_of(next(config, state, event)) == Some(record.content)
        },
{
}

/// Every write is fresh. The record handed out for writing is the first
/// of the listing that was just read, with the fetched value as its
/// content and nothing else changed.
pub proof fn law_writes_are_fresh(config: ConfigView, state: State, event: EventView)
    requires
        !(state is Writing),
        next(config, state, event) is Writing,
    ensures
        state matches State::Rereading { target, .. } && event matches EventView::Records(reply)
            && records_listing(reply) matches Ok(records) && records.len() > 0 && next(
            config,
            state,
            event,
        )->Writing_record == records[0].with_content(target),
{
}

} // verus!
