//! What holds of the sender whatever the packets are.

use vstd::prelude::*;
use crate::attr::{AttrValView, AttrView};
use crate::convert::{
    capped_len, clock_frequency, event_own_attrs, spec_array_attrs, spec_array_key,
    spec_format_key, spec_fv_attrs, spec_pfv_attrs,
};
use crate::rollover::{
    feed, lemma_place_after_grows, lemma_places, lemma_timestamps_never_go_back, modulus,
    place_after, wrap_count, RolloverView,
};
use crate::send::{
    after_context, after_event, after_events, event_action, sent_attrs, tracker_after, after_restart, discarded_actions, events_actions,
    first_stream_state, handled_actions, handled_state, restart_actions, restart_detected,
    sequence_actions, shared_attrs, stream_before, time_attrs, timeline_actions, ActionView,
    SenderView, StreamStateView, TimelineId, Warning,
};
use crate::types::{
    ClockTypeView, EventView, FieldValueView, PacketContextView, PacketView,
    PrimitiveFieldValueView, StreamId, Timestamp,
};

verus! {

/// A kind of action.
pub ghost enum Kind {
    /// A switch to a timeline.
    Switch,
    /// The publication of a timeline's attributes.
    TimelineAttrs,
    /// The sending of an event.
    Event,
    /// The warning of an unexpected sequence number.
    UnexpectedSequenceNumber,
    /// The warning of an unexpected or of a duplicate sequence number.
    SequenceWarning,
}

/// Whether an action is of a kind.
pub open spec fn is_kind(action: ActionView, kind: Kind) -> bool {
    match kind {
        Kind::Switch => action is SwitchTimeline,
        Kind::TimelineAttrs => action is SendTimelineAttrs,
        Kind::Event => action is SendEvent,
        Kind::UnexpectedSequenceNumber => action matches ActionView::Warn(
            Warning::UnexpectedSequenceNumber { .. },
        ),
        Kind::SequenceWarning => action matches ActionView::Warn(
            Warning::UnexpectedSequenceNumber { .. },
        ) || action matches ActionView::Warn(Warning::DuplicateSequenceNumber { .. }),
    }
}

/// How many actions of a list are of a kind.
pub open spec fn count(actions: Seq<ActionView>, kind: Kind) -> nat
    decreases actions.len(),
{
    if actions.len() == 0 {
        0
    } else {
        count(actions.drop_last(), kind) + if is_kind(actions.last(), kind) {
            1nat
        } else {
            0nat
        }
    }
}

/// The sender after the first `n` packets of a run. `fresh[i]` is the
/// timeline at hand for the stream of `packets[i]`.
pub open spec fn run_state(
    s: SenderView,
    packets: Seq<PacketView>,
    fresh: Seq<TimelineId>,
    n: nat,
) -> SenderView
    decreases n,
{
    if n == 0 {
        s
    } else {
        handled_state(run_state(s, packets, fresh, (n - 1) as nat), packets[n - 1], fresh[n - 1])
    }
}

/// What is to be done for the first `n` packets of a run, in order. A packet
/// that cannot be handled adds what was to be done before its failure.
pub open spec fn run_actions(
    s: SenderView,
    packets: Seq<PacketView>,
    fresh: Seq<TimelineId>,
    n: nat,
) -> Seq<ActionView>
    decreases n,
{
    if n == 0 {
        Seq::empty()
    } else {
        run_actions(s, packets, fresh, (n - 1) as nat) + match handled_actions(
            run_state(s, packets, fresh, (n - 1) as nat),
            packets[n - 1],
            fresh[n - 1],
        ) {
            Ok(actions) => actions,
            Err(failure) => failure.before,
        }
    }
}

/// Counting goes over concatenation.
pub proof fn lemma_count_add(a: Seq<ActionView>, b: Seq<ActionView>, kind: Kind)
    ensures
        count(a + b, kind) == count(a, kind) + count(b, kind),
    decreases b.len(),
{
    if b.len() == 0 {
        assert(a + b =~= a);
    } else {
        assert((a + b).drop_last() =~= a + b.drop_last());
        lemma_count_add(a, b.drop_last(), kind);
    }
}

/// How many of a list of at most two actions are of a kind.
pub open spec fn count_short(actions: Seq<ActionView>, kind: Kind) -> nat {
    (if actions.len() >= 1 && is_kind(actions[0], kind) {
        1nat
    } else {
        0nat
    }) + (if actions.len() >= 2 && is_kind(actions[1], kind) {
        1nat
    } else {
        0nat
    })
}

/// The count of a list of at most two actions.
pub proof fn lemma_count_short(actions: Seq<ActionView>, kind: Kind)
    requires
        actions.len() <= 2,
    ensures
        count(actions, kind) == count_short(actions, kind),
{
    reveal_with_fuel(count, 3);
    if actions.len() == 2 {
        assert(actions.drop_last().len() == 1);
        assert(actions.drop_last()[0] == actions[0]);
    }
}

/// The events of a packet give one sending each, in the order of the events:
/// the sending of event `i` has the name of that event and the place `i`
/// after the stream's place before the packet, and nothing else is among
/// them. This holds as long as the place does not pass 128 bits.
pub proof fn lemma_event_orderings(
    st: StreamStateView,
    clock: Option<ClockTypeView>,
    shared: Seq<AttrView>,
    events: Seq<EventView>,
    n: nat,
)
    requires
        n <= events.len(),
        st.event_ordering + n <= u128::MAX,
    ensures
        events_actions(st, clock, shared, events, n).len() == n,
        forall|i: int|
            0 <= i < n ==> {
                let action = #[trigger] events_actions(st, clock, shared, events, n)[i];
                &&& action is SendEvent
                &&& action->SendEvent_name == events[i].name
                &&& action->SendEvent_ordering == st.event_ordering + i
            },
        after_events(st, events, n).event_ordering == st.event_ordering + n,
        after_events(st, events, n).packet_seqnum == st.packet_seqnum,
        after_events(st, events, n).clock_attrs == st.clock_attrs,
    decreases n,
{
    if n > 0 {
        lemma_event_orderings(st, clock, shared, events, (n - 1) as nat);
        let before = events_actions(st, clock, shared, events, (n - 1) as nat);
        let all = events_actions(st, clock, shared, events, n);
        assert forall|i: int| 0 <= i < n implies {
            let action = #[trigger] all[i];
            &&& action is SendEvent
            &&& action->SendEvent_name == events[i].name
            &&& action->SendEvent_ordering == st.event_ordering + i
        } by {
            if i < n - 1 {
                assert(all[i] == before[i]);
            }
        }
    }
}

/// Within a packet the places of the events grow strictly: a later event has
/// a greater place than an earlier one.
pub proof fn lemma_orderings_strictly_increase(
    st: StreamStateView,
    clock: Option<ClockTypeView>,
    shared: Seq<AttrView>,
    events: Seq<EventView>,
    i: int,
    j: int,
)
    requires
        0 <= i < j < events.len(),
        st.event_ordering + events.len() <= u128::MAX,
    ensures
        events_actions(st, clock, shared, events, events.len())[i]->SendEvent_ordering
            < events_actions(st, clock, shared, events, events.len())[j]->SendEvent_ordering,
{
    lemma_event_orderings(st, clock, shared, events, events.len());
    let all = events_actions(st, clock, shared, events, events.len());
    assert(all[i] is SendEvent);
    assert(all[j] is SendEvent);
}

/// The sendings of a packet's events hold no action of another kind.
pub proof fn lemma_events_only(
    st: StreamStateView,
    clock: Option<ClockTypeView>,
    shared: Seq<AttrView>,
    events: Seq<EventView>,
    n: nat,
    kind: Kind,
)
    requires
        n <= events.len(),
    ensures
        count(events_actions(st, clock, shared, events, n), kind) == if kind is Event {
            n
        } else {
            0
        },
    decreases n,
{
    if n > 0 {
        lemma_events_only(st, clock, shared, events, (n - 1) as nat, kind);
        let all = events_actions(st, clock, shared, events, n);
        assert(all.drop_last() =~= events_actions(st, clock, shared, events, (n - 1) as nat));
    }
}

/// The state of a stream that is not the packet's stays as it is, but for a
/// restart, which wipes it.
pub proof fn lemma_other_streams_untouched(
    s: SenderView,
    pkt: PacketView,
    fresh: TimelineId,
    other: StreamId,
)
    requires
        other != pkt.header.stream_id,
        !restart_detected(s, pkt),
    ensures
        handled_state(s, pkt, fresh).streams_state.contains_key(other)
            == s.streams_state.contains_key(other),
        s.streams_state.contains_key(other) ==> handled_state(s, pkt, fresh).streams_state[other]
            == s.streams_state[other],
        handled_state(s, pkt, fresh).known_timelines.contains_key(other)
            == s.known_timelines.contains_key(other),
        s.known_timelines.contains_key(other) ==> handled_state(s, pkt, fresh).known_timelines[other]
            == s.known_timelines[other],
{
}

/// A timeline, once given to a stream, stays that stream's timeline, restart
/// or not.
pub proof fn lemma_timelines_persist(
    s: SenderView,
    pkt: PacketView,
    fresh: TimelineId,
    id: StreamId,
)
    requires
        s.known_timelines.contains_key(id),
    ensures
        handled_state(s, pkt, fresh).known_timelines.contains_key(id),
        handled_state(s, pkt, fresh).known_timelines[id] == s.known_timelines[id],
{
}

/// How many actions of each kind a packet gives: those among its sequence
/// warning and among what makes its timeline current, and one sending for
/// each of its events.
pub proof fn lemma_count_handled(s: SenderView, pkt: PacketView, fresh: TimelineId, kind: Kind)
    requires
        handled_actions(s, pkt, fresh) is Ok,
    ensures
        ({
            let s1 = after_restart(s, pkt);
            let st = stream_before(s1, pkt.header)->Ok_0;
            count(handled_actions(s, pkt, fresh)->Ok_0, kind) == count_short(
                sequence_actions(st.packet_seqnum, pkt.context),
                kind,
            ) + count_short(timeline_actions(s1, pkt.header, st.clock_attrs, fresh), kind)
                + if kind is Event {
                pkt.events.len()
            } else {
                0
            }
        }),
{
    let s1 = after_restart(s, pkt);
    let st = stream_before(s1, pkt.header)->Ok_0;
    let a = restart_actions(s, pkt);
    let b = discarded_actions(pkt.context);
    let c = sequence_actions(st.packet_seqnum, pkt.context);
    let d = timeline_actions(s1, pkt.header, st.clock_attrs, fresh);
    let e = events_actions(
        after_context(st, pkt.context),
        pkt.header.clock_type,
        shared_attrs(pkt),
        pkt.events,
        pkt.events.len(),
    );
    lemma_count_add(a, b, kind);
    lemma_count_add(a + b, c, kind);
    lemma_count_add(a + b + c, d, kind);
    lemma_count_add(a + b + c + d, e, kind);
    lemma_events_only(
        after_context(st, pkt.context),
        pkt.header.clock_type,
        shared_attrs(pkt),
        pkt.events,
        pkt.events.len(),
        kind,
    );
    lemma_count_short(a, kind);
    lemma_count_short(b, kind);
    lemma_count_short(c, kind);
    lemma_count_short(d, kind);
}

/// A packet of a stream that has no timeline yet gives exactly one switch,
/// to the fresh timeline, and exactly one publication of attributes; the
/// fresh timeline is the stream's from then on and is the current one, and
/// no other stream's timeline changes.
pub proof fn lemma_first_sight(s: SenderView, pkt: PacketView, fresh: TimelineId)
    requires
        !s.known_timelines.contains_key(pkt.header.stream_id),
        handled_actions(s, pkt, fresh) is Ok,
    ensures
        count(handled_actions(s, pkt, fresh)->Ok_0, Kind::Switch) == 1,
        count(handled_actions(s, pkt, fresh)->Ok_0, Kind::TimelineAttrs) == 1,
        handled_state(s, pkt, fresh).known_timelines == s.known_timelines.insert(
            pkt.header.stream_id,
            fresh,
        ),
        handled_state(s, pkt, fresh).current_timeline == Some(fresh),
{
    lemma_count_handled(s, pkt, fresh, Kind::Switch);
    lemma_count_handled(s, pkt, fresh, Kind::TimelineAttrs);
}

/// After a packet of a stream, a further packet of the same stream gives no
/// switch and no publication of attributes, unless it shows a restart.
pub proof fn lemma_same_stream_again(
    s: SenderView,
    pkt: PacketView,
    fresh: TimelineId,
    next: PacketView,
    next_fresh: TimelineId,
)
    requires
        handled_actions(s, pkt, fresh) is Ok,
        next.header.stream_id == pkt.header.stream_id,
        !restart_detected(handled_state(s, pkt, fresh), next),
    ensures
        handled_actions(handled_state(s, pkt, fresh), next, next_fresh) is Ok,
        count(
            handled_actions(handled_state(s, pkt, fresh), next, next_fresh)->Ok_0,
            Kind::Switch,
        ) == 0,
        count(
            handled_actions(handled_state(s, pkt, fresh), next, next_fresh)->Ok_0,
            Kind::TimelineAttrs,
        ) == 0,
        handled_state(handled_state(s, pkt, fresh), next, next_fresh).known_timelines
            == handled_state(s, pkt, fresh).known_timelines,
{
    let s1 = handled_state(s, pkt, fresh);
    let id = pkt.header.stream_id;
    assert(s1.streams_state.contains_key(id));
    assert(s1.known_timelines.contains_key(id));
    lemma_count_handled(s1, next, next_fresh, Kind::Switch);
    lemma_count_handled(s1, next, next_fresh, Kind::TimelineAttrs);
    assert(handled_state(s1, next, next_fresh).known_timelines =~= s1.known_timelines);
}

/// A packet of a stream whose timeline is known and is not the current one
/// gives exactly one switch, to that timeline, and no publication of
/// attributes.
pub proof fn lemma_switch_on_change(s: SenderView, pkt: PacketView, fresh: TimelineId)
    requires
        s.known_timelines.contains_key(pkt.header.stream_id),
        s.current_timeline != Some(s.known_timelines[pkt.header.stream_id]),
        handled_actions(s, pkt, fresh) is Ok,
    ensures
        count(handled_actions(s, pkt, fresh)->Ok_0, Kind::Switch) == 1,
        count(handled_actions(s, pkt, fresh)->Ok_0, Kind::TimelineAttrs) == 0,
        handled_state(s, pkt, fresh).current_timeline == Some(
            s.known_timelines[pkt.header.stream_id],
        ),
{
    lemma_count_handled(s, pkt, fresh, Kind::Switch);
    lemma_count_handled(s, pkt, fresh, Kind::TimelineAttrs);
}

/// Between two streams with different timelines every change of stream is a
/// switch: after a packet of one, a packet of the other gives exactly one
/// switch.
pub proof fn lemma_alternating_streams_switch(
    s: SenderView,
    pkt: PacketView,
    fresh: TimelineId,
    next: PacketView,
    next_fresh: TimelineId,
)
    requires
        handled_actions(s, pkt, fresh) is Ok,
        s.known_timelines.contains_key(pkt.header.stream_id),
        s.known_timelines.contains_key(next.header.stream_id),
        s.known_timelines[pkt.header.stream_id] != s.known_timelines[next.header.stream_id],
        handled_actions(handled_state(s, pkt, fresh), next, next_fresh) is Ok,
    ensures
        count(
            handled_actions(handled_state(s, pkt, fresh), next, next_fresh)->Ok_0,
            Kind::Switch,
        ) == 1,
        handled_state(handled_state(s, pkt, fresh), next, next_fresh).current_timeline == Some(
            s.known_timelines[next.header.stream_id],
        ),
{
    let s1 = handled_state(s, pkt, fresh);
    lemma_timelines_persist(s, pkt, fresh, next.header.stream_id);
    lemma_timelines_persist(s, pkt, fresh, pkt.header.stream_id);
    assert(s1.current_timeline == Some(s.known_timelines[pkt.header.stream_id]));
    lemma_switch_on_change(s1, next, next_fresh);
}

/// A packet that shows a restart finds its stream as on first sight: the
/// place of its first event is 0, no event has been counted and no sequence
/// number is held, so that no sequence warning is given.
pub proof fn lemma_restart_resets(s: SenderView, pkt: PacketView, fresh: TimelineId)
    requires
        restart_detected(s, pkt),
        handled_actions(s, pkt, fresh) is Ok,
        pkt.events.len() <= u128::MAX,
    ensures
        stream_before(after_restart(s, pkt), pkt.header) == first_stream_state(
            after_restart(s, pkt),
            pkt.header,
        ),
        stream_before(after_restart(s, pkt), pkt.header)->Ok_0.event_ordering == 0,
        stream_before(after_restart(s, pkt), pkt.header)->Ok_0.event_count == 0,
        stream_before(after_restart(s, pkt), pkt.header)->Ok_0.packet_seqnum is None,
        handled_state(s, pkt, fresh).streams_state[pkt.header.stream_id].event_ordering
            == pkt.events.len(),
        count(handled_actions(s, pkt, fresh)->Ok_0, Kind::SequenceWarning) == 0,
        handled_state(s, pkt, fresh).streams_state.dom() == set![pkt.header.stream_id],
{
    let s1 = after_restart(s, pkt);
    let st = stream_before(s1, pkt.header)->Ok_0;
    lemma_event_orderings(
        after_context(st, pkt.context),
        pkt.header.clock_type,
        shared_attrs(pkt),
        pkt.events,
        pkt.events.len(),
    );
    lemma_count_handled(s, pkt, fresh, Kind::SequenceWarning);
    assert(handled_state(s, pkt, fresh).streams_state.dom() =~= set![pkt.header.stream_id]);
}

/// From one packet of a stream to the next the places go on: unless the next
/// packet shows a restart, its first event has the place after that of the
/// last event before it.
pub proof fn lemma_ordering_continues(
    s: SenderView,
    pkt: PacketView,
    fresh: TimelineId,
    next: PacketView,
)
    requires
        handled_actions(s, pkt, fresh) is Ok,
        next.header.stream_id == pkt.header.stream_id,
        !restart_detected(handled_state(s, pkt, fresh), next),
        stream_before(after_restart(s, pkt), pkt.header)->Ok_0.event_ordering + pkt.events.len()
            <= u128::MAX,
    ensures
        stream_before(after_restart(handled_state(s, pkt, fresh), next), next.header) is Ok,
        stream_before(
            after_restart(handled_state(s, pkt, fresh), next),
            next.header,
        )->Ok_0.event_ordering == stream_before(
            after_restart(s, pkt),
            pkt.header,
        )->Ok_0.event_ordering + pkt.events.len(),
{
    let s0 = after_restart(s, pkt);
    let st = stream_before(s0, pkt.header)->Ok_0;
    lemma_event_orderings(
        after_context(st, pkt.context),
        pkt.header.clock_type,
        shared_attrs(pkt),
        pkt.events,
        pkt.events.len(),
    );
}

/// A sequence number that follows the last one gives no warning.
pub proof fn lemma_successor_no_warning(last_seqnum: u64, context: PacketContextView)
    requires
        context.sequence_number == Some((last_seqnum + 1) as u64),
        last_seqnum < u64::MAX,
    ensures
        sequence_actions(Some(last_seqnum), context) == Seq::<ActionView>::empty(),
{
}

/// A gap gives exactly one warning, however wide it is.
pub proof fn lemma_gap_one_warning(last_seqnum: u64, context: PacketContextView, seqnum: u64)
    requires
        context.sequence_number == Some(seqnum),
        seqnum > last_seqnum + 1,
    ensures
        sequence_actions(Some(last_seqnum), context) == seq![
            ActionView::Warn(Warning::UnexpectedSequenceNumber { last_seqnum, seqnum }),
        ],
        count(sequence_actions(Some(last_seqnum), context), Kind::UnexpectedSequenceNumber) == 1,
{
    lemma_count_short(
        sequence_actions(Some(last_seqnum), context),
        Kind::UnexpectedSequenceNumber,
    );
}

/// Whether the first `n` packets of a run are of one stream and carry
/// consecutive sequence numbers, from `first` on.
pub open spec fn consecutive(packets: Seq<PacketView>, id: StreamId, first: u64, n: nat) -> bool {
    &&& n <= packets.len()
    &&& first + n <= u64::MAX + 1
    &&& forall|i: int|
        0 <= i < n ==> (#[trigger] packets[i]).header.stream_id == id
            && packets[i].context.sequence_number == Some((first + i) as u64)
}

/// A run of packets of one stream with consecutive sequence numbers gives no
/// sequence warning, where the stream is new to the sender or its last
/// sequence number is the one before the first of the run. After the run the
/// stream, where it has state, holds the last sequence number of the run.
pub proof fn lemma_consecutive_run(
    s: SenderView,
    packets: Seq<PacketView>,
    fresh: Seq<TimelineId>,
    id: StreamId,
    first: u64,
    n: nat,
)
    requires
        consecutive(packets, id, first, n),
        s.streams_state.contains_key(id) ==> (s.streams_state[id].packet_seqnum matches Some(last)
            ==> last + 1 == first),
    ensures
        count(run_actions(s, packets, fresh, n), Kind::SequenceWarning) == 0,
        n > 0 && run_state(s, packets, fresh, n).streams_state.contains_key(id) ==> run_state(
            s,
            packets,
            fresh,
            n,
        ).streams_state[id].packet_seqnum == Some((first + n - 1) as u64),
        n == 0 ==> run_state(s, packets, fresh, n) == s,
    decreases n,
{
    if n == 0 {
        lemma_count_short(Seq::empty(), Kind::SequenceWarning);
    } else {
        let m = (n - 1) as nat;
        lemma_consecutive_run(s, packets, fresh, id, first, m);
        let sm = run_state(s, packets, fresh, m);
        let pkt = packets[n - 1];
        let f = fresh[n - 1];
        assert(pkt.header.stream_id == id);
        assert(pkt.context.sequence_number == Some((first + n - 1) as u64));
        let before = run_actions(s, packets, fresh, m);
        let step = match handled_actions(sm, pkt, f) {
            Ok(actions) => actions,
            Err(failure) => failure.before,
        };
        lemma_count_add(before, step, Kind::SequenceWarning);
        if handled_actions(sm, pkt, f) is Ok {
            let s1 = after_restart(sm, pkt);
            let st = stream_before(s1, pkt.header)->Ok_0;
            lemma_count_handled(sm, pkt, f, Kind::SequenceWarning);
            lemma_events_keep_sequence_number(
                after_context(st, pkt.context),
                pkt.events,
                pkt.events.len(),
            );
        } else {
            lemma_count_short(restart_actions(sm, pkt), Kind::SequenceWarning);
        }
    }
}

/// The events of a packet leave the stream's sequence number and clock
/// attributes as they are.
pub proof fn lemma_events_keep_sequence_number(st: StreamStateView, events: Seq<EventView>, n: nat)
    requires
        n <= events.len(),
    ensures
        after_events(st, events, n).packet_seqnum == st.packet_seqnum,
        after_events(st, events, n).clock_attrs == st.clock_attrs,
    decreases n,
{
    if n > 0 {
        lemma_events_keep_sequence_number(st, events, (n - 1) as nat);
    }
}

/// An enumeration without a label gives one attribute: its backing integer
/// under `<key>.container`. Nothing is given under the bare key.
pub proof fn lemma_unlabeled_enumeration(key: Seq<char>, v: i64)
    ensures
        spec_pfv_attrs(key, PrimitiveFieldValueView::Enumeration(v, None)) == seq![
            (key + ".container"@, AttrValView::Integer(v)),
        ],
        forall|i: int|
            0 <= i < spec_pfv_attrs(key, PrimitiveFieldValueView::Enumeration(v, None)).len()
                ==> (#[trigger] spec_pfv_attrs(
                key,
                PrimitiveFieldValueView::Enumeration(v, None),
            )[i]).0 != key,
{
    reveal_strlit(".container");
    assert((key + ".container"@).len() == key.len() + 10);
}

/// A scalar gives one attribute, or two where it is an enumeration with a
/// label.
pub proof fn lemma_scalar_attr_count(key: Seq<char>, pfv: PrimitiveFieldValueView)
    ensures
        spec_pfv_attrs(key, pfv).len() == if pfv matches PrimitiveFieldValueView::Enumeration(
            _,
            Some(_),
        ) {
            2nat
        } else {
            1nat
        },
{
}

/// The elements of an array behind the leading ones that are flattened play
/// no part in its attributes.
pub proof fn lemma_array_tail_dropped(
    key: Seq<char>,
    elems: Seq<PrimitiveFieldValueView>,
    others: Seq<PrimitiveFieldValueView>,
    n: nat,
)
    requires
        n <= elems.len(),
        n <= others.len(),
        forall|i: int| 0 <= i < n ==> elems[i] == others[i],
    ensures
        spec_array_attrs(key, elems, n) == spec_array_attrs(key, others, n),
    decreases n,
{
    if n > 0 {
        lemma_array_tail_dropped(key, elems, others, (n - 1) as nat);
    }
}

/// An array gives the attributes of its first ten elements, or of all where
/// it has fewer: cutting the array after the tenth element changes nothing.
pub proof fn lemma_array_capped(
    prefix: Option<Seq<char>>,
    field_name: Seq<char>,
    elems: Seq<PrimitiveFieldValueView>,
)
    ensures
        capped_len(elems.len()) <= 10,
        spec_fv_attrs(prefix, field_name, FieldValueView::Array(elems)) == spec_fv_attrs(
            prefix,
            field_name,
            FieldValueView::Array(elems.take(capped_len(elems.len()) as int)),
        ),
{
    let n = capped_len(elems.len());
    let cut = elems.take(n as int);
    assert(capped_len(cut.len()) == n);
    lemma_array_tail_dropped(spec_format_key(prefix, field_name), elems, cut, n);
}

/// The first `n` elements of an array give, where none of them is an
/// enumeration, exactly `n` attributes, the one of element `i` under
/// `<key>.array.<i>`.
pub proof fn lemma_array_attr_keys(key: Seq<char>, elems: Seq<PrimitiveFieldValueView>, n: nat)
    requires
        n <= elems.len(),
        forall|i: int| 0 <= i < n ==> !(#[trigger] elems[i] is Enumeration),
    ensures
        spec_array_attrs(key, elems, n).len() == n,
        forall|i: int|
            0 <= i < n ==> (#[trigger] spec_array_attrs(key, elems, n)[i]).0 == spec_array_key(
                key,
                i as nat,
            ),
    decreases n,
{
    if n > 0 {
        lemma_array_attr_keys(key, elems, (n - 1) as nat);
        let before = spec_array_attrs(key, elems, (n - 1) as nat);
        let all = spec_array_attrs(key, elems, n);
        assert(!(elems[n - 1] is Enumeration));
        assert forall|i: int| 0 <= i < n implies (#[trigger] all[i]).0 == spec_array_key(
            key,
            i as nat,
        ) by {
            if i < n - 1 {
                assert(all[i] == before[i]);
            }
        }
    }
}

/// An array of scalars that are no enumerations gives as many attributes as
/// it has elements, and ten where it has more than ten.
pub proof fn lemma_array_attr_count(
    prefix: Option<Seq<char>>,
    field_name: Seq<char>,
    elems: Seq<PrimitiveFieldValueView>,
)
    requires
        forall|i: int| 0 <= i < elems.len() ==> !(#[trigger] elems[i] is Enumeration),
    ensures
        spec_fv_attrs(prefix, field_name, FieldValueView::Array(elems)).len() == if elems.len()
            <= 10 {
            elems.len()
        } else {
            10
        },
{
    lemma_array_attr_keys(spec_format_key(prefix, field_name), elems, capped_len(elems.len()));
}

/// The clock attributes of a stream are built once: a packet of a stream
/// that has state leaves them as they are, unless it shows a restart.
pub proof fn lemma_clock_attrs_built_once(s: SenderView, pkt: PacketView, fresh: TimelineId)
    requires
        s.streams_state.contains_key(pkt.header.stream_id),
        !restart_detected(s, pkt),
    ensures
        handled_actions(s, pkt, fresh) is Ok,
        handled_state(s, pkt, fresh).streams_state[pkt.header.stream_id].clock_attrs
            == s.streams_state[pkt.header.stream_id].clock_attrs,
{
    lemma_events_keep_sequence_number(
        after_context(s.streams_state[pkt.header.stream_id], pkt.context),
        pkt.events,
        pkt.events.len(),
    );
}

/// A clock with a frequency of 0 never gives a time in nanoseconds: the
/// attributes of an event's time are then the cycles alone, and none at all
/// for a stream that is not tracked.
pub proof fn lemma_no_nanoseconds_without_frequency(
    tracker: Option<RolloverView>,
    clock: Option<ClockTypeView>,
)
    requires
        clock matches Some(c) ==> c.frequency == 0,
    ensures
        time_attrs(tracker, clock) == match tracker {
            Some(t) => seq![
                ("internal.barectf.timestamp.cycles"@, AttrValView::Unsigned(t.timestamp())),
            ],
            None => Seq::<AttrView>::empty(),
        },
        clock matches Some(c) ==> clock_frequency(c) is None,
{
    if let Some(t) = tracker {
        assert(time_attrs(tracker, clock) =~= seq![
            ("internal.barectf.timestamp.cycles"@, AttrValView::Unsigned(t.timestamp())),
        ]);
    }
}

/// The places of the events that a list of actions sends, in their order.
pub open spec fn orderings_of(actions: Seq<ActionView>) -> Seq<u128>
    decreases actions.len(),
{
    if actions.len() == 0 {
        Seq::empty()
    } else {
        let before = orderings_of(actions.drop_last());
        if actions.last() is SendEvent {
            before.push(actions.last()->SendEvent_ordering)
        } else {
            before
        }
    }
}

/// The places of the events that the first `n` packets of a run send for
/// the stream `id`, in their order.
pub open spec fn run_orderings(
    s: SenderView,
    packets: Seq<PacketView>,
    fresh: Seq<TimelineId>,
    id: StreamId,
    n: nat,
) -> Seq<u128>
    decreases n,
{
    if n == 0 {
        Seq::empty()
    } else {
        let before = run_orderings(s, packets, fresh, id, (n - 1) as nat);
        if packets[n - 1].header.stream_id == id {
            match handled_actions(
                run_state(s, packets, fresh, (n - 1) as nat),
                packets[n - 1],
                fresh[n - 1],
            ) {
                Ok(actions) => before + orderings_of(actions),
                Err(_) => before,
            }
        } else {
            before
        }
    }
}

/// The place of the next event of a stream: that of its state, or 0 for a
/// stream without state.
pub open spec fn next_ordering(s: SenderView, id: StreamId) -> u128 {
    if s.streams_state.contains_key(id) {
        s.streams_state[id].event_ordering
    } else {
        0
    }
}

/// Whether none of the first `n` packets of a run shows a restart.
pub open spec fn no_restart(
    s: SenderView,
    packets: Seq<PacketView>,
    fresh: Seq<TimelineId>,
    n: nat,
) -> bool {
    forall|k: int|
        0 <= k < n ==> !restart_detected(
            #[trigger] run_state(s, packets, fresh, k as nat),
            packets[k],
        )
}

/// The places of a list of actions go over concatenation.
pub proof fn lemma_orderings_add(a: Seq<ActionView>, b: Seq<ActionView>)
    ensures
        orderings_of(a + b) == orderings_of(a) + orderings_of(b),
    decreases b.len(),
{
    if b.len() == 0 {
        assert(a + b =~= a);
        assert(orderings_of(a) + orderings_of(b) =~= orderings_of(a));
    } else {
        assert((a + b).drop_last() =~= a + b.drop_last());
        lemma_orderings_add(a, b.drop_last());
        assert(orderings_of(a + b) =~= orderings_of(a) + orderings_of(b));
    }
}

/// A list without the sending of an event has no places.
pub proof fn lemma_orderings_none(a: Seq<ActionView>)
    requires
        forall|i: int| 0 <= i < a.len() ==> !(#[trigger] a[i] is SendEvent),
    ensures
        orderings_of(a) == Seq::<u128>::empty(),
    decreases a.len(),
{
    if a.len() > 0 {
        lemma_orderings_none(a.drop_last());
    }
}

/// The places of the events of a packet are the `n` places from the stream's
/// on, as long as the place does not pass 128 bits.
pub proof fn lemma_orderings_of_events(
    st: StreamStateView,
    clock: Option<ClockTypeView>,
    shared: Seq<AttrView>,
    events: Seq<EventView>,
    n: nat,
)
    requires
        n <= events.len(),
        st.event_ordering + n <= u128::MAX,
    ensures
        orderings_of(events_actions(st, clock, shared, events, n)) == Seq::new(
            n,
            |i: int| (st.event_ordering + i) as u128,
        ),
    decreases n,
{
    if n > 0 {
        lemma_orderings_of_events(st, clock, shared, events, (n - 1) as nat);
        lemma_event_orderings(st, clock, shared, events, (n - 1) as nat);
        let all = events_actions(st, clock, shared, events, n);
        assert(all.drop_last() =~= events_actions(st, clock, shared, events, (n - 1) as nat));
        assert(orderings_of(all) =~= Seq::new(n, |i: int| (st.event_ordering + i) as u128));
    } else {
        assert(orderings_of(events_actions(st, clock, shared, events, n)) =~= Seq::new(
            n,
            |i: int| (st.event_ordering + i) as u128,
        ));
    }
}

/// The places of the events that a packet sends are the places from that of
/// the packet's stream on, one for each event.
pub proof fn lemma_orderings_of_packet(s: SenderView, pkt: PacketView, fresh: TimelineId)
    requires
        handled_actions(s, pkt, fresh) is Ok,
        stream_before(after_restart(s, pkt), pkt.header)->Ok_0.event_ordering + pkt.events.len()
            <= u128::MAX,
    ensures
        orderings_of(handled_actions(s, pkt, fresh)->Ok_0) == Seq::new(
            pkt.events.len(),
            |i: int|
                (stream_before(after_restart(s, pkt), pkt.header)->Ok_0.event_ordering + i) as u128,
        ),
        handled_state(s, pkt, fresh).streams_state[pkt.header.stream_id].event_ordering
            == stream_before(after_restart(s, pkt), pkt.header)->Ok_0.event_ordering
            + pkt.events.len(),
{
    let s1 = after_restart(s, pkt);
    let st = stream_before(s1, pkt.header)->Ok_0;
    let a = restart_actions(s, pkt);
    let b = discarded_actions(pkt.context);
    let c = sequence_actions(st.packet_seqnum, pkt.context);
    let d = timeline_actions(s1, pkt.header, st.clock_attrs, fresh);
    let st1 = after_context(st, pkt.context);
    let e = events_actions(st1, pkt.header.clock_type, shared_attrs(pkt), pkt.events, pkt.events.len());
    lemma_orderings_none(a);
    lemma_orderings_none(b);
    lemma_orderings_none(c);
    lemma_orderings_none(d);
    lemma_orderings_add(a, b);
    lemma_orderings_add(a + b, c);
    lemma_orderings_add(a + b + c, d);
    lemma_orderings_add(a + b + c + d, e);
    lemma_orderings_of_events(
        st1,
        pkt.header.clock_type,
        shared_attrs(pkt),
        pkt.events,
        pkt.events.len(),
    );
    lemma_event_orderings(
        st1,
        pkt.header.clock_type,
        shared_attrs(pkt),
        pkt.events,
        pkt.events.len(),
    );
    assert(orderings_of(a + b + c + d + e) =~= orderings_of(e));
}

/// Within a stream the places of the events are consecutive, and so grow
/// strictly: in a run of packets of which none shows a restart, the events
/// sent for a stream have the places from that of the stream at the start
/// of the run on, without a gap and without a repeat, whatever packets of
/// other streams lie between them. This holds as long as the place does not
/// pass 128 bits.
pub proof fn lemma_run_orderings(
    s: SenderView,
    packets: Seq<PacketView>,
    fresh: Seq<TimelineId>,
    id: StreamId,
    n: nat,
)
    requires
        n <= packets.len(),
        no_restart(s, packets, fresh, n),
        next_ordering(s, id) + run_orderings(s, packets, fresh, id, n).len() <= u128::MAX,
    ensures
        run_orderings(s, packets, fresh, id, n) == Seq::new(
            run_orderings(s, packets, fresh, id, n).len(),
            |j: int| (next_ordering(s, id) + j) as u128,
        ),
        next_ordering(run_state(s, packets, fresh, n), id) == next_ordering(s, id) + run_orderings(
            s,
            packets,
            fresh,
            id,
            n,
        ).len(),
        forall|i: int, j: int|
            0 <= i < j < run_orderings(s, packets, fresh, id, n).len() ==> run_orderings(
                s,
                packets,
                fresh,
                id,
                n,
            )[i] < run_orderings(s, packets, fresh, id, n)[j],
    decreases n,
{
    let start = next_ordering(s, id);
    let all = run_orderings(s, packets, fresh, id, n);
    if n == 0 {
        assert(all =~= Seq::new(all.len(), |j: int| (start + j) as u128));
    } else {
        let m = (n - 1) as nat;
        let before = run_orderings(s, packets, fresh, id, m);
        let sm = run_state(s, packets, fresh, m);
        let pkt = packets[n - 1];
        let f = fresh[n - 1];
        assert(before.len() <= all.len()) by {
            if pkt.header.stream_id == id && handled_actions(sm, pkt, f) is Ok {
                assert(all == before + orderings_of(handled_actions(sm, pkt, f)->Ok_0));
            }
        }
        assert(no_restart(s, packets, fresh, m));
        lemma_run_orderings(s, packets, fresh, id, m);
        assert(!restart_detected(sm, pkt));
        assert(after_restart(sm, pkt) == sm);
        if pkt.header.stream_id == id {
            if handled_actions(sm, pkt, f) is Ok {
                let st = stream_before(sm, pkt.header)->Ok_0;
                assert(st.event_ordering == next_ordering(sm, id));
                let here = orderings_of(handled_actions(sm, pkt, f)->Ok_0);
                assert(all == before + here);
                // The packet's own places, counted without the bound first.
                lemma_orderings_len(sm, pkt, f);
                assert(here.len() == pkt.events.len());
                lemma_orderings_of_packet(sm, pkt, f);
                assert(all =~= Seq::new(all.len(), |j: int| (start + j) as u128));
            } else {
                assert(handled_state(sm, pkt, f) == sm);
                assert(!sm.streams_state.contains_key(id));
            }
        } else {
            lemma_other_streams_untouched(sm, pkt, f, id);
        }
    }
}

/// A packet sends one event for each of its events, whatever the places.
pub proof fn lemma_orderings_len(s: SenderView, pkt: PacketView, fresh: TimelineId)
    requires
        handled_actions(s, pkt, fresh) is Ok,
    ensures
        orderings_of(handled_actions(s, pkt, fresh)->Ok_0).len() == pkt.events.len(),
{
    let s1 = after_restart(s, pkt);
    let st = stream_before(s1, pkt.header)->Ok_0;
    let a = restart_actions(s, pkt);
    let b = discarded_actions(pkt.context);
    let c = sequence_actions(st.packet_seqnum, pkt.context);
    let d = timeline_actions(s1, pkt.header, st.clock_attrs, fresh);
    let st1 = after_context(st, pkt.context);
    let e = events_actions(st1, pkt.header.clock_type, shared_attrs(pkt), pkt.events, pkt.events.len());
    lemma_orderings_none(a);
    lemma_orderings_none(b);
    lemma_orderings_none(c);
    lemma_orderings_none(d);
    lemma_orderings_add(a, b);
    lemma_orderings_add(a + b, c);
    lemma_orderings_add(a + b + c, d);
    lemma_orderings_add(a + b + c + d, e);
    lemma_events_len(st1, pkt.header.clock_type, shared_attrs(pkt), pkt.events, pkt.events.len());
    assert(orderings_of(a + b + c + d + e) =~= orderings_of(e));
}

/// The first `n` events of a packet give `n` places.
pub proof fn lemma_events_len(
    st: StreamStateView,
    clock: Option<ClockTypeView>,
    shared: Seq<AttrView>,
    events: Seq<EventView>,
    n: nat,
)
    requires
        n <= events.len(),
    ensures
        orderings_of(events_actions(st, clock, shared, events, n)).len() == n,
    decreases n,
{
    if n > 0 {
        lemma_events_len(st, clock, shared, events, (n - 1) as nat);
        let all = events_actions(st, clock, shared, events, n);
        assert(all.drop_last() =~= events_actions(st, clock, shared, events, (n - 1) as nat));
    }
}

/// A restart is warned of whatever follows: the warning is the first thing
/// to be done for a packet that shows a restart, and where the packet cannot
/// be handled it is what is to be done before the failure.
pub proof fn lemma_restart_is_warned_of(s: SenderView, pkt: PacketView, fresh: TimelineId)
    requires
        restart_detected(s, pkt),
    ensures
        match handled_actions(s, pkt, fresh) {
            Ok(actions) => actions.len() > 0 && actions[0] == ActionView::Warn(
                Warning::TraceRestart,
            ),
            Err(failure) => failure.before == seq![ActionView::Warn(Warning::TraceRestart)],
        },
{
}

/// A packet whose sequence number follows the one that its stream holds
/// gives no sequence warning, and its number is the stream's afterwards.
/// Where the stream has state and the packet shows no restart, the packet
/// is handled; a packet that shows a restart finds its stream as on first
/// sight, and is handled unless the stream's state cannot be made.
pub proof fn lemma_successor_packet(
    s: SenderView,
    pkt: PacketView,
    fresh: TimelineId,
    last_seqnum: u64,
)
    requires
        s.streams_state.contains_key(pkt.header.stream_id),
        s.streams_state[pkt.header.stream_id].packet_seqnum == Some(last_seqnum),
        last_seqnum < u64::MAX,
        pkt.context.sequence_number == Some((last_seqnum + 1) as u64),
    ensures
        !restart_detected(s, pkt) ==> handled_actions(s, pkt, fresh) is Ok,
        handled_actions(s, pkt, fresh) matches Ok(actions) ==> count(
            actions,
            Kind::SequenceWarning,
        ) == 0 && handled_state(s, pkt, fresh).streams_state[pkt.header.stream_id].packet_seqnum
            == Some((last_seqnum + 1) as u64),
{
    if handled_actions(s, pkt, fresh) is Ok {
        let s1 = after_restart(s, pkt);
        let st = stream_before(s1, pkt.header)->Ok_0;
        lemma_count_handled(s, pkt, fresh, Kind::SequenceWarning);
        lemma_events_keep_sequence_number(
            after_context(st, pkt.context),
            pkt.events,
            pkt.events.len(),
        );
    }
}

/// The raw timestamps of a packet's events, in their order.
pub open spec fn raw_timestamps(events: Seq<EventView>) -> Seq<Timestamp> {
    Seq::new(events.len(), |i: int| events[i].timestamp)
}

/// The first `n` events of a packet give `n` sendings.
pub proof fn lemma_events_actions_len(
    st: StreamStateView,
    clock: Option<ClockTypeView>,
    shared: Seq<AttrView>,
    events: Seq<EventView>,
    n: nat,
)
    ensures
        events_actions(st, clock, shared, events, n).len() == n,
    decreases n,
{
    if n > 0 {
        lemma_events_actions_len(st, clock, shared, events, (n - 1) as nat);
    }
}

/// The sending of event `i` of a packet is that of the event from the stream
/// as it stands after the events before it.
pub proof fn lemma_events_actions_index(
    st: StreamStateView,
    clock: Option<ClockTypeView>,
    shared: Seq<AttrView>,
    events: Seq<EventView>,
    n: nat,
    i: int,
)
    requires
        0 <= i < n <= events.len(),
    ensures
        events_actions(st, clock, shared, events, n)[i] == event_action(
            after_events(st, events, i as nat),
            clock,
            shared,
            events[i],
        ),
    decreases n,
{
    lemma_events_actions_len(st, clock, shared, events, (n - 1) as nat);
    if i < n - 1 {
        lemma_events_actions_index(st, clock, shared, events, (n - 1) as nat, i);
    }
}

/// The tracker of a stream goes through the raw timestamps of a packet's
/// events, one after the other.
pub proof fn lemma_events_feed_tracker(st: StreamStateView, events: Seq<EventView>, n: nat)
    requires
        n <= events.len(),
    ensures
        after_events(st, events, n).timestamp_tracker == match st.timestamp_tracker {
            Some(t) => Some(feed(t, raw_timestamps(events).take(n as int))),
            None => None,
        },
    decreases n,
{
    let raws = raw_timestamps(events);
    if n > 0 {
        lemma_events_feed_tracker(st, events, (n - 1) as nat);
        assert(raws.take(n as int).drop_last() =~= raws.take(n - 1));
        assert(raws.take(n as int).last() == events[n - 1].timestamp);
    } else {
        assert(raws.take(0).len() == 0);
    }
}

/// What event `i` of a packet carries of its time, for a tracked stream. The
/// raw timestamp stands under `internal.barectf.clock.cycles`, the fourth
/// attribute. The corrected one stands under
/// `internal.barectf.timestamp.cycles`, the first attribute behind the
/// event's own, and is the timestamp of the stream's tracker after the raw
/// timestamps of the events up to this one.
pub proof fn lemma_sent_cycles(
    st: StreamStateView,
    clock: Option<ClockTypeView>,
    shared: Seq<AttrView>,
    events: Seq<EventView>,
    i: int,
)
    requires
        0 <= i < events.len(),
        st.timestamp_tracker is Some,
    ensures
        ({
            let action = events_actions(st, clock, shared, events, events.len())[i];
            let own = event_own_attrs(events[i]).len() as int;
            let t = st.timestamp_tracker->Some_0;
            &&& action is SendEvent
            &&& action->SendEvent_attrs[3] == (
                "internal.barectf.clock.cycles"@,
                AttrValView::Unsigned(events[i].timestamp),
            )
            &&& action->SendEvent_attrs[own] == (
                "internal.barectf.timestamp.cycles"@,
                AttrValView::Unsigned(feed(t, raw_timestamps(events).take(i + 1)).timestamp()),
            )
        }),
{
    lemma_events_actions_index(st, clock, shared, events, events.len(), i);
    lemma_events_feed_tracker(st, events, i as nat);
    lemma_events_feed_tracker(st, events, (i + 1) as nat);
    let before = after_events(st, events, i as nat);
    let attrs = sent_attrs(before, clock, shared, events[i]);
    assert(after_events(st, events, (i + 1) as nat) == after_event(before, events[i]));
    assert(tracker_after(before.timestamp_tracker, events[i]) == Some(
        feed(st.timestamp_tracker->Some_0, raw_timestamps(events).take(i + 1)),
    ));
}

/// The corrected cycles of event `i` of a packet: the timestamp of the
/// stream's tracker after the raw timestamps of the events up to this one.
pub open spec fn corrected_cycles(t: RolloverView, events: Seq<EventView>, i: int) -> Timestamp {
    feed(t, raw_timestamps(events).take(i + 1)).timestamp()
}

/// The corrected cycles that the events of a packet carry, for a stream
/// whose timestamp field has 8, 16 or 32 bits and whose raw timestamps fit
/// that width: each is the raw timestamp plus 2^W for each wrap so far,
/// those before the packet and those within it, and they never go back,
/// neither from one event to a later one nor against the timestamp that the
/// tracker stood at before the packet. This holds whenever the place of the
/// packet's last event fits 64 bits.
pub proof fn lemma_corrected_cycles(t: RolloverView, events: Seq<EventView>, i: int, j: int)
    requires
        t.wf(),
        t.size_bits != 64,
        forall|k: int| 0 <= k < events.len() ==> (#[trigger] events[k]).timestamp < modulus(
            t.size_bits,
        ),
        place_after(t, raw_timestamps(events)) <= u64::MAX,
        0 <= i <= j < events.len(),
    ensures
        corrected_cycles(t, events, j) == place_after(t, raw_timestamps(events).take(j + 1)),
        t.timestamp() <= corrected_cycles(t, events, i) <= corrected_cycles(t, events, j),
        feed(t, raw_timestamps(events).take(j + 1)).upper == t.upper + wrap_count(
            t.lower,
            raw_timestamps(events).take(j + 1),
        ),
{
    let raws = raw_timestamps(events);
    assert forall|k: int| 0 <= k < raws.len() implies raws[k] < modulus(t.size_bits) by {
        assert(raws[k] == events[k].timestamp);
    }
    lemma_timestamps_never_go_back(t, raws, 0, i + 1);
    lemma_timestamps_never_go_back(t, raws, i + 1, j + 1);
    assert(feed(t, raws.take(0)) == t);
    lemma_place_after_grows(t, raws, j + 1, raws.len() as int);
    assert(raws =~= raws.take(raws.len() as int));
    lemma_places(t, raws.take(j + 1));
}

} // verus!
