//! The sender: what happens to a packet on its way to the backend.
//!
//! A [`Sender`] holds the state of every stream it has seen and the timeline
//! of every stream it has ever seen. Handling a packet changes that state and
//! yields the [`Action`]s to perform, in their order: warnings to log and
//! calls to make on the backend. The caller performs them one after the
//! other; whether a step that failed stops the others is decided by
//! `forward::after_action`.

use vstd::prelude::*;
use vstd::string::*;
use vstd::std_specs::hash::*;
use std::collections::HashMap;
use crate::HasCommonConfig;
use crate::attr::{clone_attrs, extend_from, Attr, AttrVal, AttrValView, AttrView};
use crate::convert::{
    clock_frequency, clock_timeline_attrs, context_event_attrs, event_own_attrs,
    header_event_attrs, environment_attrs, spec_timestamp_ns, ClockExt, EventExt, TimelineExt,
};
use crate::rollover::{supported_width, RolloverTracker, RolloverView};
use crate::rollover::lemma_advance_wf;
use crate::table::{
    distinct_names, entries, find, lemma_upsert_all_distinct, lookup, put_attrs, upsert_all,
};
use crate::trusted::{allocate_timeline_id, random_uuid, spec_uuid_text, uuid_text};
use crate::types::{
    ClockTypeView, DataStreamType, Event, EventView, Packet, PacketContext,
    PacketContextView, PacketHeader, PacketHeaderView, PacketView, StreamId, Trace, TraceView,
    Uuid,
};

verus! {

/// Names a timeline of the backend: the 128 bits of its UUID.
pub type TimelineId = u128;

/// Something worth a line in the log that does not stop the forwarding.
#[derive(Clone, Copy, Debug, PartialEq, Eq, Structural)]
pub enum Warning {
    /// The start event was seen again: the traced system has restarted.
    TraceRestart,
    /// The packet reports discarded events.
    DiscardedEvents { events_discarded: u64 },
    /// The packet's sequence number is neither the last one nor its successor.
    UnexpectedSequenceNumber { last_seqnum: u64, seqnum: u64 },
    /// The packet's sequence number is the last one again.
    DuplicateSequenceNumber { last_seqnum: u64, seqnum: u64 },
}

/// One step for the caller to perform.
#[derive(Debug, PartialEq, Eq)]
pub enum Action {
    /// Log the warning.
    Warn(Warning),
    /// Make this timeline the one that events are sent to.
    SwitchTimeline(TimelineId),
    /// Publish the attributes of the current timeline, under the stream's name.
    SendTimelineAttrs { name: String, attrs: Vec<Attr> },
    /// Send an event to the current timeline, at this place in its order.
    SendEvent { name: String, ordering: u128, attrs: Vec<Attr> },
    /// Flush what has been sent. A failure ends the session with an error.
    Flush,
    /// Ask the backend for its ingest status and log it. A failure is ignored.
    ReportStatus,
}

/// What an [`Action`] stands for.
pub ghost enum ActionView {
    Warn(Warning),
    SwitchTimeline(TimelineId),
    SendTimelineAttrs { name: Seq<char>, attrs: Seq<AttrView> },
    SendEvent { name: Seq<char>, ordering: u128, attrs: Seq<AttrView> },
    Flush,
    ReportStatus,
}

impl View for Action {
    type V = ActionView;

    open spec fn view(&self) -> ActionView {
        match self {
            Action::Warn(w) => ActionView::Warn(*w),
            Action::SwitchTimeline(id) => ActionView::SwitchTimeline(*id),
            Action::SendTimelineAttrs { name, attrs } => ActionView::SendTimelineAttrs {
                name: name@,
                attrs: attrs.deep_view(),
            },
            Action::SendEvent { name, ordering, attrs } => ActionView::SendEvent {
                name: name@,
                ordering: *ordering,
                attrs: attrs.deep_view(),
            },
            Action::Flush => ActionView::Flush,
            Action::ReportStatus => ActionView::ReportStatus,
        }
    }
}

impl DeepView for Action {
    type V = ActionView;

    open spec fn deep_view(&self) -> ActionView {
        self@
    }
}

/// Why a packet could not be handled.
#[derive(Clone, Copy, Debug, PartialEq, Eq, Structural)]
pub enum SendError {
    /// The timestamp field of the packet's stream has a width that cannot be
    /// tracked: none of 8, 16, 32, 64 bits.
    UnsupportedTimestampFieldType,
}

/// A packet that could not be handled: what was to be done before the
/// handling failed, and why it failed. The caller performs `before` and then
/// ends with the error.
#[derive(Debug, PartialEq, Eq)]
pub struct FailedSend {
    /// What was to be done before the failure, in order.
    pub before: Vec<Action>,
    pub error: SendError,
}

/// What a [`FailedSend`] stands for.
pub ghost struct FailedSendView {
    pub before: Seq<ActionView>,
    pub error: SendError,
}

impl View for FailedSend {
    type V = FailedSendView;

    open spec fn view(&self) -> FailedSendView {
        FailedSendView { before: self.before.deep_view(), error: self.error }
    }
}

impl DeepView for FailedSend {
    type V = FailedSendView;

    open spec fn deep_view(&self) -> FailedSendView {
        self@
    }
}

/// The state of one stream.
pub ghost struct StreamStateView {
    /// The tracker of the stream's timestamps, where the width of its
    /// timestamp field is declared.
    pub timestamp_tracker: Option<RolloverView>,
    /// The attributes of the stream's clock, built when the stream was first
    /// seen.
    pub clock_attrs: Seq<AttrView>,
    /// Events so far, discarded ones included.
    pub event_count: u64,
    /// The sequence number of the last packet that had one.
    pub packet_seqnum: Option<u64>,
    /// The place of the next event in the order of the stream's timeline.
    pub event_ordering: u128,
}

/// The state of a sender.
#[verifier::ext_equal]
pub ghost struct SenderView {
    /// What is published of every timeline. No key occurs twice.
    pub common_timeline_attrs: Seq<AttrView>,
    /// The timeline of every stream that was ever seen.
    pub known_timelines: Map<StreamId, TimelineId>,
    /// The timeline that events are sent to.
    pub current_timeline: Option<TimelineId>,
    /// The name of the event that signals a restart.
    pub start_event: Option<Seq<char>>,
    /// The UUID of each clock, by the clock's name.
    pub clock_uuids: Seq<(Seq<char>, Uuid)>,
    /// The width in bits of the timestamp field of each stream type, by the
    /// stream's name.
    pub timestamp_field_types: Seq<(Seq<char>, usize)>,
    /// The state of every stream seen since the start or the last restart.
    pub streams_state: Map<StreamId, StreamStateView>,
}

impl SenderView {
    /// What holds of every sender: no key occurs twice among the common
    /// attributes; every stream that has state has a timeline; the current
    /// timeline, where there is one, is the timeline of some stream; and
    /// every tracker is well-formed.
    pub open spec fn wf(self) -> bool {
        &&& distinct_names(self.common_timeline_attrs)
        &&& forall|id: StreamId| #[trigger]
            self.streams_state.contains_key(id) ==> self.known_timelines.contains_key(id)
        &&& self.current_timeline matches Some(timeline) ==> exists|id: StreamId|
            self.known_timelines.contains_key(id) && #[trigger] self.known_timelines[id]
                == timeline
        &&& forall|id: StreamId| #[trigger]
            self.streams_state.contains_key(id) ==> (
            self.streams_state[id].timestamp_tracker matches Some(t) ==> t.wf())
    }
}

/// Whether some event has this name.
pub open spec fn any_named(events: Seq<EventView>, name: Seq<char>) -> bool {
    exists|i: int| 0 <= i < events.len() && (#[trigger] events[i]).name == name
}

/// Whether the packet shows a restart: a start event is configured, some
/// stream has state, and some event of the packet is the start event.
pub open spec fn restart_detected(s: SenderView, pkt: PacketView) -> bool {
    match s.start_event {
        Some(name) => !s.streams_state.is_empty() && any_named(pkt.events, name),
        None => false,
    }
}

/// The sender after the check for a restart: on a restart the state of every
/// stream is gone and no timeline is current; the timelines stay.
pub open spec fn after_restart(s: SenderView, pkt: PacketView) -> SenderView {
    if restart_detected(s, pkt) {
        SenderView { streams_state: Map::empty(), current_timeline: None, ..s }
    } else {
        s
    }
}

/// The warning of a restart.
pub open spec fn restart_actions(s: SenderView, pkt: PacketView) -> Seq<ActionView> {
    if restart_detected(s, pkt) {
        seq![ActionView::Warn(Warning::TraceRestart)]
    } else {
        Seq::empty()
    }
}

/// The time domain of a stream: the UUID of the clock in the packet's
/// header, else the UUID that the sender holds for the clock's name.
pub open spec fn time_domain(s: SenderView, header: PacketHeaderView) -> Option<Uuid> {
    match header.clock_type {
        Some(ClockTypeView { uuid: Some(bits), .. }) => Some(bits),
        _ => match header.clock_name {
            Some(name) => lookup(s.clock_uuids, name),
            None => None,
        },
    }
}

/// The clock attributes of a stream that is seen for the first time.
pub open spec fn first_clock_attrs(s: SenderView, header: PacketHeaderView) -> Seq<AttrView> {
    (match header.clock_type {
        Some(clock) => clock_timeline_attrs(clock),
        None => Seq::empty(),
    }) + (match time_domain(s, header) {
        Some(bits) => seq![("time_domain"@, AttrValView::String(spec_uuid_text(bits)))],
        None => Seq::empty(),
    })
}

/// The state of a stream that is seen for the first time, or the error where
/// the declared width of its timestamp field cannot be tracked.
pub open spec fn first_stream_state(s: SenderView, header: PacketHeaderView) -> Result<
    StreamStateView,
    SendError,
> {
    let tracker = match lookup(s.timestamp_field_types, header.stream_name) {
        Some(size_bits) => if supported_width(size_bits as nat) {
            Ok(Some(RolloverView::start(size_bits as nat)))
        } else {
            Err(SendError::UnsupportedTimestampFieldType)
        },
        None => Ok(None),
    };
    match tracker {
        Ok(timestamp_tracker) => Ok(
            StreamStateView {
                timestamp_tracker,
                clock_attrs: first_clock_attrs(s, header),
                event_count: 0,
                packet_seqnum: None,
                event_ordering: 0,
            },
        ),
        Err(e) => Err(e),
    }
}

/// The state of the packet's stream before the packet: the one the sender
/// holds, or that of a stream seen for the first time.
pub open spec fn stream_before(s: SenderView, header: PacketHeaderView) -> Result<
    StreamStateView,
    SendError,
> {
    if s.streams_state.contains_key(header.stream_id) {
        Ok(s.streams_state[header.stream_id])
    } else {
        first_stream_state(s, header)
    }
}

/// The warning of discarded events: one where the context reports a count
/// other than 0.
pub open spec fn discarded_actions(context: PacketContextView) -> Seq<ActionView> {
    match context.events_discarded {
        Some(n) => if n != 0 {
            seq![ActionView::Warn(Warning::DiscardedEvents { events_discarded: n })]
        } else {
            Seq::empty()
        },
        None => Seq::empty(),
    }
}

/// The warning of a break in the sequence numbers: none where the packet or
/// the stream has no sequence number yet or where the packet's is the
/// successor of the stream's; that of a duplicate where the two are equal;
/// that of an unexpected number in every other case.
pub open spec fn sequence_actions(last: Option<u64>, context: PacketContextView) -> Seq<
    ActionView,
> {
    match (last, context.sequence_number) {
        (Some(last_seqnum), Some(seqnum)) => if seqnum == last_seqnum {
            seq![ActionView::Warn(Warning::DuplicateSequenceNumber { last_seqnum, seqnum })]
        } else if seqnum != last_seqnum + 1 {
            seq![ActionView::Warn(Warning::UnexpectedSequenceNumber { last_seqnum, seqnum })]
        } else {
            Seq::empty()
        },
        _ => Seq::empty(),
    }
}

/// The stream after the packet's context: the discarded events are counted
/// (the count wraps at 64 bits) and the packet's sequence number, where it
/// has one, is the stream's.
pub open spec fn after_context(st: StreamStateView, context: PacketContextView) -> StreamStateView {
    StreamStateView {
        event_count: match context.events_discarded {
            Some(n) => st.event_count.wrapping_add(n),
            None => st.event_count,
        },
        packet_seqnum: match context.sequence_number {
            Some(n) => Some(n),
            None => st.packet_seqnum,
        },
        ..st
    }
}

/// The timeline of a stream: the one the sender knows, or `fresh` for a
/// stream that has none yet.
pub open spec fn timeline_of(s: SenderView, id: StreamId, fresh: TimelineId) -> TimelineId {
    if s.known_timelines.contains_key(id) {
        s.known_timelines[id]
    } else {
        fresh
    }
}

/// What it takes to make the stream's timeline the current one. For a stream
/// without a timeline: the switch to the fresh one and the publication of
/// its attributes, the common ones followed by those of the stream's clock.
/// For a stream with a timeline: the switch, unless that timeline is the
/// current one already.
pub open spec fn timeline_actions(
    s: SenderView,
    header: PacketHeaderView,
    clock_attrs: Seq<AttrView>,
    fresh: TimelineId,
) -> Seq<ActionView> {
    if s.known_timelines.contains_key(header.stream_id) {
        if s.current_timeline != Some(s.known_timelines[header.stream_id]) {
            seq![ActionView::SwitchTimeline(s.known_timelines[header.stream_id])]
        } else {
            Seq::empty()
        }
    } else {
        seq![
            ActionView::SwitchTimeline(fresh),
            ActionView::SendTimelineAttrs {
                name: header.stream_name,
                attrs: s.common_timeline_attrs + clock_attrs,
            },
        ]
    }
}

/// The tracker of a stream after an event.
pub open spec fn tracker_after(tracker: Option<RolloverView>, event: EventView) -> Option<
    RolloverView,
> {
    match tracker {
        Some(t) => Some(t.advance(event.timestamp)),
        None => None,
    }
}

/// The stream after an event: the timestamp is tracked, and the event count
/// and the place in the order are one further (each wraps at its width).
pub open spec fn after_event(st: StreamStateView, event: EventView) -> StreamStateView {
    StreamStateView {
        timestamp_tracker: tracker_after(st.timestamp_tracker, event),
        event_count: st.event_count.wrapping_add(1),
        event_ordering: st.event_ordering.wrapping_add(1),
        ..st
    }
}

/// The attributes of an event's time: for a tracked stream the cycles on the
/// growing time line, followed, where the packet's clock has a usable
/// frequency, by the same in nanoseconds.
pub open spec fn time_attrs(
    tracker: Option<RolloverView>,
    clock: Option<ClockTypeView>,
) -> Seq<AttrView> {
    match tracker {
        Some(t) => seq![
            ("internal.barectf.timestamp.cycles"@, AttrValView::Unsigned(t.timestamp())),
        ] + (match clock {
            Some(c) => match spec_timestamp_ns(clock_frequency(c), t.timestamp()) {
                Some(ns) => seq![("timestamp"@, AttrValView::Timestamp(ns))],
                None => Seq::empty(),
            },
            None => Seq::empty(),
        }),
        None => Seq::empty(),
    }
}

/// The attributes of an event as it is sent: its own, those of its time, the
/// event count, and those shared by the events of the packet.
pub open spec fn sent_attrs(
    st: StreamStateView,
    clock: Option<ClockTypeView>,
    shared: Seq<AttrView>,
    event: EventView,
) -> Seq<AttrView> {
    event_own_attrs(event) + time_attrs(tracker_after(st.timestamp_tracker, event), clock) + seq![
        (
            "internal.barectf.event.count"@,
            AttrValView::Unsigned(st.event_count.wrapping_add(1)),
        ),
    ] + shared
}

/// The sending of an event from a stream in state `st`.
pub open spec fn event_action(
    st: StreamStateView,
    clock: Option<ClockTypeView>,
    shared: Seq<AttrView>,
    event: EventView,
) -> ActionView {
    ActionView::SendEvent {
        name: event.name,
        ordering: st.event_ordering,
        attrs: sent_attrs(st, clock, shared, event),
    }
}

/// The stream after the first `n` events.
pub open spec fn after_events(st: StreamStateView, events: Seq<EventView>, n: nat) -> StreamStateView
    decreases n,
{
    if n == 0 {
        st
    } else {
        after_event(after_events(st, events, (n - 1) as nat), events[n - 1])
    }
}

/// The sending of the first `n` events, in their order.
pub open spec fn events_actions(
    st: StreamStateView,
    clock: Option<ClockTypeView>,
    shared: Seq<AttrView>,
    events: Seq<EventView>,
    n: nat,
) -> Seq<ActionView>
    decreases n,
{
    if n == 0 {
        Seq::empty()
    } else {
        events_actions(st, clock, shared, events, (n - 1) as nat).push(
            event_action(after_events(st, events, (n - 1) as nat), clock, shared, events[n - 1]),
        )
    }
}

/// The attributes shared by the events of a packet: those of its header
/// followed by those of its context.
pub open spec fn shared_attrs(pkt: PacketView) -> Seq<AttrView> {
    header_event_attrs(pkt.header) + context_event_attrs(pkt.context)
}

/// The sender after a packet. `fresh` is the timeline for the packet's
/// stream in case it has none yet.
///
/// First the check for a restart. Where the stream's state cannot be made,
/// nothing else changes. Else the stream goes through the packet's context
/// and its events, its timeline is the current one, and a stream without a
/// timeline has `fresh` as its timeline from now on.
pub open spec fn handled_state(s: SenderView, pkt: PacketView, fresh: TimelineId) -> SenderView {
    let s1 = after_restart(s, pkt);
    let id = pkt.header.stream_id;
    match stream_before(s1, pkt.header) {
        Ok(st) => SenderView {
            known_timelines: s1.known_timelines.insert(id, timeline_of(s1, id, fresh)),
            current_timeline: Some(timeline_of(s1, id, fresh)),
            streams_state: s1.streams_state.insert(
                id,
                after_events(after_context(st, pkt.context), pkt.events, pkt.events.len()),
            ),
            ..s1
        },
        Err(_) => s1,
    }
}

/// What is to be done for a packet, in this order: the warning of a restart,
/// that of discarded events, that of a break in the sequence numbers, what
/// makes the stream's timeline current, and the sending of each event. Where
/// the stream's state cannot be made, it is the failure: the error, and
/// before it the warning of a restart, which is due whatever follows.
pub open spec fn handled_actions(s: SenderView, pkt: PacketView, fresh: TimelineId) -> Result<
    Seq<ActionView>,
    FailedSendView,
> {
    let s1 = after_restart(s, pkt);
    match stream_before(s1, pkt.header) {
        Ok(st) => Ok(
            restart_actions(s, pkt) + discarded_actions(pkt.context) + sequence_actions(
                st.packet_seqnum,
                pkt.context,
            ) + timeline_actions(s1, pkt.header, st.clock_attrs, fresh) + events_actions(
                after_context(st, pkt.context),
                pkt.header.clock_type,
                shared_attrs(pkt),
                pkt.events,
                pkt.events.len(),
            ),
        ),
        Err(error) => Err(FailedSendView { before: restart_actions(s, pkt), error }),
    }
}

/// What a list of actions, or a failure in its place, stands for.
pub open spec fn outcome_view(r: Result<Vec<Action>, FailedSend>) -> Result<
    Seq<ActionView>,
    FailedSendView,
> {
    match r {
        Ok(actions) => Ok(actions.deep_view()),
        Err(failure) => Err(failure@),
    }
}

/// Whether `uuids` gives each clock of a trace a UUID: it has the clocks'
/// names in their order, and a clock with a UUID of its own has that one.
pub open spec fn resolves_clocks(
    clock_types: Seq<(Seq<char>, ClockTypeView)>,
    uuids: Seq<(Seq<char>, Uuid)>,
) -> bool {
    &&& uuids.len() == clock_types.len()
    &&& forall|i: int|
        0 <= i < uuids.len() ==> (#[trigger] uuids[i]).0 == clock_types[i].0 && (
        clock_types[i].1.uuid matches Some(bits) ==> uuids[i].1 == bits)
}

/// The width of the timestamp field of each stream type, by name.
pub open spec fn timestamp_widths(data_stream_types: Seq<(Seq<char>, DataStreamType)>) -> Seq<
    (Seq<char>, usize),
> {
    Seq::new(
        data_stream_types.len(),
        |i: int| (data_stream_types[i].0, data_stream_types[i].1.timestamp_size_bits),
    )
}

/// The sender at its start: no stream has state or a timeline, and the
/// common attributes are the given ones overlaid by those of the trace's
/// environment, each key once.
pub open spec fn initial_sender(
    trace: TraceView,
    common_timeline_attrs: Seq<AttrView>,
    start_event: Option<Seq<char>>,
    clock_uuids: Seq<(Seq<char>, Uuid)>,
) -> SenderView {
    let environment = environment_attrs(trace.environment, trace.environment.len());
    SenderView {
        common_timeline_attrs: upsert_all(
            upsert_all(Seq::empty(), common_timeline_attrs, common_timeline_attrs.len()),
            environment,
            environment.len(),
        ),
        known_timelines: Map::empty(),
        current_timeline: None,
        start_event,
        clock_uuids,
        timestamp_field_types: timestamp_widths(trace.data_stream_types),
        streams_state: Map::empty(),
    }
}

/// The state of one stream.
struct StreamState {
    timestamp_tracker: Option<RolloverTracker>,
    clock_attrs: Vec<Attr>,
    event_count: u64,
    packet_seqnum: Option<u64>,
    event_ordering: u128,
}

impl View for StreamState {
    type V = StreamStateView;

    closed spec fn view(&self) -> StreamStateView {
        StreamStateView {
            timestamp_tracker: match self.timestamp_tracker {
                Some(t) => Some(t@),
                None => None,
            },
            clock_attrs: self.clock_attrs.deep_view(),
            event_count: self.event_count,
            packet_seqnum: self.packet_seqnum,
            event_ordering: self.event_ordering,
        }
    }
}

/// What a map of stream states stands for.
spec fn stream_views(m: Map<StreamId, StreamState>) -> Map<StreamId, StreamStateView> {
    Map::new(|id: StreamId| m.contains_key(id), |id: StreamId| m[id]@)
}

/// Turns packets into what is to be done with them.
pub struct Sender {
    common_timeline_attrs: Vec<Attr>,
    known_timelines: HashMap<StreamId, TimelineId>,
    current_timeline: Option<TimelineId>,
    start_event: Option<String>,
    clock_uuids: Vec<(String, Uuid)>,
    timestamp_field_types: Vec<(String, usize)>,
    streams_state: HashMap<StreamId, StreamState>,
}

impl View for Sender {
    type V = SenderView;

    closed spec fn view(&self) -> SenderView {
        SenderView {
            common_timeline_attrs: self.common_timeline_attrs.deep_view(),
            known_timelines: self.known_timelines@,
            current_timeline: self.current_timeline,
            start_event: self.start_event.deep_view(),
            clock_uuids: self.clock_uuids.deep_view(),
            timestamp_field_types: self.timestamp_field_types.deep_view(),
            streams_state: stream_views(self.streams_state@),
        }
    }
}

fn emit(actions: &mut Vec<Action>, action: Action)
    ensures
        final(actions).deep_view() == old(actions).deep_view().push(action@),
{
    actions.push(action);
    assert(actions.deep_view() =~= old(actions).deep_view().push(action@));
}

fn any_event_named(events: &Vec<Event>, name: &String) -> (found: bool)
    ensures
        found == any_named(events.deep_view(), name@),
{
    let mut i: usize = 0;
    while i < events.len()
        invariant
            i <= events.len(),
            forall|j: int| 0 <= j < i ==> (#[trigger] events.deep_view()[j]).name != name@,
        decreases events.len() - i,
    {
        if events[i].name == *name {
            assert(events.deep_view()[i as int].name == name@);
            return true;
        }
        i += 1;
    }
    false
}

fn apply_context(stream: &mut StreamState, context: &PacketContext, actions: &mut Vec<Action>)
    ensures
        final(stream)@ == after_context(old(stream)@, context@),
        final(actions).deep_view() == old(actions).deep_view() + discarded_actions(context@)
            + sequence_actions(old(stream)@.packet_seqnum, context@),
{
    if let Some(events_discarded) = context.events_discarded {
        if events_discarded != 0 {
            emit(actions, Action::Warn(Warning::DiscardedEvents { events_discarded }));
        }
        stream.event_count = stream.event_count.wrapping_add(events_discarded);
    }
    let ghost mid = actions.deep_view();
    assert(mid =~= old(actions).deep_view() + discarded_actions(context@));
    if let Some(seqnum) = context.sequence_number {
        if let Some(last_seqnum) = stream.packet_seqnum {
            if last_seqnum == seqnum {
                emit(actions, Action::Warn(Warning::DuplicateSequenceNumber { last_seqnum, seqnum }));
            } else if last_seqnum == u64::MAX || last_seqnum + 1 != seqnum {
                emit(
                    actions,
                    Action::Warn(Warning::UnexpectedSequenceNumber { last_seqnum, seqnum }),
                );
            }
        }
        stream.packet_seqnum = Some(seqnum);
    }
    assert(actions.deep_view() =~= mid + sequence_actions(old(stream)@.packet_seqnum, context@));
}

fn forward_events(
    stream: &mut StreamState,
    pkt: &Packet,
    shared: &Vec<Attr>,
    actions: &mut Vec<Action>,
)
    ensures
        final(stream)@ == after_events(old(stream)@, pkt@.events, pkt@.events.len()),
        final(actions).deep_view() == old(actions).deep_view() + events_actions(
            old(stream)@,
            pkt@.header.clock_type,
            shared.deep_view(),
            pkt@.events,
            pkt@.events.len(),
        ),
{
    let ghost clock = pkt@.header.clock_type;
    let ghost events = pkt@.events;
    let mut i: usize = 0;
    assert(old(actions).deep_view() + Seq::<ActionView>::empty() =~= old(actions).deep_view());
    while i < pkt.events.len()
        invariant
            i <= pkt.events.len(),
            clock == pkt@.header.clock_type,
            events == pkt@.events,
            events.len() == pkt.events.len(),
            stream@ == after_events(old(stream)@, events, i as nat),
            actions.deep_view() == old(actions).deep_view() + events_actions(
                old(stream)@,
                clock,
                shared.deep_view(),
                events,
                i as nat,
            ),
        decreases pkt.events.len() - i,
    {
        let ghost before = stream@;
        let event = &pkt.events[i];
        assert(event@ == events[i as int]);
        let mut event_attrs = event.event_attrs();

        let timestamp = match &mut stream.timestamp_tracker {
            Some(tracker) => Some(tracker.elapsed(event.timestamp)),
            None => None,
        };
        if let Some(t) = timestamp {
            event_attrs.push(
                (String::from_str("internal.barectf.timestamp.cycles"), AttrVal::Unsigned(t)),
            );
            if let Some(clock_type) = &pkt.header.clock_type {
                if let Some(ns) = clock_type.timestamp_ns(t) {
                    event_attrs.push((String::from_str("timestamp"), AttrVal::Timestamp(ns)));
                }
            }
        }
        assert(event_attrs.deep_view() =~= event_own_attrs(event@) + time_attrs(
            tracker_after(before.timestamp_tracker, event@),
            clock,
        ));

        stream.event_count = stream.event_count.wrapping_add(1);
        event_attrs.push(
            (
                String::from_str("internal.barectf.event.count"),
                AttrVal::Unsigned(stream.event_count),
            ),
        );
        assert(event_attrs.deep_view() =~= event_own_attrs(event@) + time_attrs(
            tracker_after(before.timestamp_tracker, event@),
            clock,
        ) + seq![
            (
                "internal.barectf.event.count"@,
                AttrValView::Unsigned(before.event_count.wrapping_add(1)),
            ),
        ]);
        extend_from(&mut event_attrs, shared);

        emit(
            actions,
            Action::SendEvent {
                name: event.name.clone(),
                ordering: stream.event_ordering,
                attrs: event_attrs,
            },
        );
        stream.event_ordering = stream.event_ordering.wrapping_add(1);

        assert(stream@ == after_event(before, event@));
        assert(actions.deep_view() =~= old(actions).deep_view() + events_actions(
            old(stream)@,
            clock,
            shared.deep_view(),
            events,
            (i + 1) as nat,
        ));
        i += 1;
    }
}

/// Gives each clock of a trace a UUID: its own where it has one, a random one
/// where it has none.
pub fn resolve_clock_uuids(trace: &Trace) -> (uuids: Vec<(String, Uuid)>)
    ensures
        resolves_clocks(trace@.clock_types, uuids.deep_view()),
{
    let mut uuids: Vec<(String, Uuid)> = Vec::new();
    let mut i: usize = 0;
    while i < trace.clock_types.len()
        invariant
            i <= trace.clock_types.len(),
            uuids.len() == i,
            forall|j: int|
                0 <= j < i ==> (#[trigger] uuids.deep_view()[j]).0
                    == trace.clock_types.deep_view()[j].0 && (
                trace.clock_types.deep_view()[j].1.uuid matches Some(bits)
                    ==> uuids.deep_view()[j].1 == bits),
        decreases trace.clock_types.len() - i,
    {
        let uuid = Sender::clock_uuid(trace.clock_types[i].1.uuid, random_uuid_if_none(
            trace.clock_types[i].1.uuid,
        ));
        let ghost before = uuids.deep_view();
        let name = trace.clock_types[i].0.clone();
        uuids.push((name, uuid));
        assert(uuids.deep_view() =~= before.push((name@, uuid)));
        i += 1;
    }
    uuids
}

/// The UUID to fall back on for a clock: the clock's own where it has one,
/// so that no random one is drawn for it, and a random one where it has none.
fn random_uuid_if_none(configured: Option<Uuid>) -> (fallback: Uuid)
    ensures
        configured matches Some(bits) ==> fallback == bits,
{
    match configured {
        Some(bits) => bits,
        None => random_uuid(),
    }
}

impl Sender {
    /// The UUID of a clock: its own where it has one, else the fallback.
    pub fn clock_uuid(configured: Option<Uuid>, fallback: Uuid) -> (uuid: Uuid)
        ensures
            uuid == match configured {
                Some(bits) => bits,
                None => fallback,
            },
    {
        match configured {
            Some(bits) => bits,
            None => fallback,
        }
    }

    /// A sender for a trace, with a random UUID for each clock that has none
    /// of its own.
    pub fn new<C: HasCommonConfig>(
        trace: &Trace,
        common_timeline_attrs: Vec<Attr>,
        config: &C,
    ) -> (sender: Sender)
        ensures
            sender@.wf(),
            exists|uuids: Seq<(Seq<char>, Uuid)>|
                resolves_clocks(trace@.clock_types, uuids) && sender@ == #[trigger] initial_sender(
                    trace@,
                    common_timeline_attrs.deep_view(),
                    config.spec_common_config().start_event.deep_view(),
                    uuids,
                ),
    {
        let uuids = resolve_clock_uuids(trace);
        Sender::with_clock_uuids(trace, common_timeline_attrs, config, uuids)
    }

    /// A sender for a trace, with the given UUID for each clock.
    pub fn with_clock_uuids<C: HasCommonConfig>(
        trace: &Trace,
        common_timeline_attrs: Vec<Attr>,
        config: &C,
        clock_uuids: Vec<(String, Uuid)>,
    ) -> (sender: Sender)
        ensures
            sender@.wf(),
            sender@ == initial_sender(
                trace@,
                common_timeline_attrs.deep_view(),
                config.spec_common_config().start_event.deep_view(),
                clock_uuids.deep_view(),
            ),
    {
        let mut timestamp_field_types: Vec<(String, usize)> = Vec::new();
        let mut i: usize = 0;
        while i < trace.data_stream_types.len()
            invariant
                i <= trace.data_stream_types.len(),
                timestamp_field_types.len() == i,
                forall|j: int|
                    0 <= j < i ==> (#[trigger] timestamp_field_types.deep_view()[j])
                        == timestamp_widths(trace@.data_stream_types)[j],
            decreases trace.data_stream_types.len() - i,
        {
            let ghost before = timestamp_field_types.deep_view();
            let name = trace.data_stream_types[i].0.clone();
            let size_bits = trace.data_stream_types[i].1.timestamp_size_bits;
            timestamp_field_types.push((name, size_bits));
            assert(timestamp_field_types.deep_view() =~= before.push((name@, size_bits)));
            i += 1;
        }
        assert(timestamp_field_types.deep_view() =~= timestamp_widths(trace@.data_stream_types));

        let mut attrs: Vec<Attr> = Vec::new();
        assert(attrs.deep_view() =~= Seq::<AttrView>::empty());
        put_attrs(&mut attrs, &common_timeline_attrs);
        let environment = trace.timeline_attrs();
        put_attrs(&mut attrs, &environment);

        let start_event = match &config.common_config().start_event {
            Some(name) => Some(name.clone()),
            None => None,
        };

        let sender = Sender {
            common_timeline_attrs: attrs,
            known_timelines: HashMap::new(),
            current_timeline: None,
            start_event,
            clock_uuids,
            timestamp_field_types,
            streams_state: HashMap::new(),
        };
        assert(stream_views(sender.streams_state@) =~= Map::empty());
        proof {
            lemma_initial_sender_wf(
                trace@,
                common_timeline_attrs.deep_view(),
                config.spec_common_config().start_event.deep_view(),
                clock_uuids.deep_view(),
            );
        }
        sender
    }

    /// What is to be done when the forwarding ends: flush, then report the
    /// ingest status.
    pub fn close(self) -> (actions: Vec<Action>)
        ensures
            actions.deep_view() == seq![ActionView::Flush, ActionView::ReportStatus],
    {
        let mut actions: Vec<Action> = Vec::new();
        assert(actions.deep_view() =~= Seq::<ActionView>::empty());
        emit(&mut actions, Action::Flush);
        emit(&mut actions, Action::ReportStatus);
        assert(actions.deep_view() =~= seq![ActionView::Flush, ActionView::ReportStatus]);
        actions
    }

    fn first_stream_state(&self, header: &PacketHeader) -> (r: Result<StreamState, SendError>)
        ensures
            match r {
                Ok(st) => first_stream_state(self@, header@) == Ok::<StreamStateView, SendError>(st@),
                Err(e) => first_stream_state(self@, header@) == Err::<StreamStateView, SendError>(e),
            },
    {
        let embedded = match &header.clock_type {
            Some(clock) => clock.uuid,
            None => None,
        };
        let clock_uuid = match embedded {
            Some(bits) => Some(bits),
            None => match &header.clock_name {
                Some(name) => {
                    assert(entries(self.clock_uuids@) =~= self.clock_uuids.deep_view());
                    find(&self.clock_uuids, name)
                },
                None => None,
            },
        };
        assert(clock_uuid == time_domain(self@, header@));
        let mut clock_attrs = match &header.clock_type {
            Some(clock) => clock.timeline_attrs(),
            None => {
                let none: Vec<Attr> = Vec::new();
                assert(none.deep_view() =~= Seq::<AttrView>::empty());
                none
            },
        };
        if let Some(bits) = clock_uuid {
            clock_attrs.push((String::from_str("time_domain"), AttrVal::String(uuid_text(bits))));
        }
        assert(clock_attrs.deep_view() =~= first_clock_attrs(self@, header@));

        assert(entries(self.timestamp_field_types@) =~= self.timestamp_field_types.deep_view());
        let timestamp_tracker = match find(&self.timestamp_field_types, &header.stream_name) {
            Some(size_bits) => match RolloverTracker::new(size_bits) {
                Ok(tracker) => Some(tracker),
                Err(_) => {
                    return Err(SendError::UnsupportedTimestampFieldType);
                },
            },
            None => None,
        };
        Ok(
            StreamState {
                timestamp_tracker,
                clock_attrs,
                event_count: 0,
                packet_seqnum: None,
                event_ordering: 0,
            },
        )
    }

    /// Handles a packet. `fresh` becomes the timeline of the packet's stream
    /// where the stream has none yet, and is not looked at where it has one.
    ///
    /// The result is what is to be done, in order. Where the state of a new
    /// stream cannot be made, it is the failure, with what was to be done
    /// before it; the sender is then as it was after the check for a
    /// restart.
    pub fn handle_packet_with(&mut self, pkt: &Packet, fresh: TimelineId) -> (r: Result<
        Vec<Action>,
        FailedSend,
    >)
        ensures
            final(self)@ == handled_state(old(self)@, pkt@, fresh),
            outcome_view(r) == handled_actions(old(self)@, pkt@, fresh),
            old(self)@.wf() ==> final(self)@.wf(),
    {
        broadcast use group_hash_axioms;

        proof {
            if self@.wf() {
                lemma_handled_state_wf(self@, pkt@, fresh);
            }
        }
        let id = pkt.header.stream_id;
        let mut actions: Vec<Action> = Vec::new();
        assert(actions.deep_view() =~= Seq::<ActionView>::empty());

        // A restart wipes the state of every stream.
        let restart = match &self.start_event {
            Some(name) => !self.streams_state.is_empty() && any_event_named(&pkt.events, name),
            None => false,
        };
        assert(self.streams_state@.is_empty() <==> old(self)@.streams_state.is_empty()) by {
            if self.streams_state@.is_empty() {
                assert(stream_views(self.streams_state@).dom() =~= Set::empty());
            } else {
                let k = choose|k: StreamId| self.streams_state@.dom().contains(k);
                assert(stream_views(self.streams_state@).dom().contains(k));
            }
        }
        assert(restart == restart_detected(old(self)@, pkt@));
        if restart {
            emit(&mut actions, Action::Warn(Warning::TraceRestart));
            self.streams_state.clear();
            self.current_timeline = None;
            assert(stream_views(self.streams_state@) =~= Map::empty());
        }
        let ghost s1 = self@;
        assert(s1 == after_restart(old(self)@, pkt@));
        assert(actions.deep_view() =~= restart_actions(old(self)@, pkt@));

        // The state of the packet's stream, made on first sight.
        let held = self.streams_state.remove(&id);
        let mut stream = match held {
            Some(st) => st,
            None => {
                assert(stream_views(self.streams_state@) =~= s1.streams_state);
                assert(self@ == s1);
                match self.first_stream_state(&pkt.header) {
                    Ok(st) => st,
                    Err(error) => {
                        return Err(FailedSend { before: actions, error });
                    },
                }
            },
        };
        let ghost st0 = stream@;
        assert(stream_before(s1, pkt@.header) == Ok::<StreamStateView, SendError>(st0));

        apply_context(&mut stream, &pkt.context, &mut actions);

        // The stream's timeline becomes the current one.
        let known = match self.known_timelines.get(&id) {
            Some(timeline) => Some(*timeline),
            None => None,
        };
        match known {
            Some(timeline) => {
                let is_current = match self.current_timeline {
                    Some(current) => current == timeline,
                    None => false,
                };
                if !is_current {
                    emit(&mut actions, Action::SwitchTimeline(timeline));
                    self.current_timeline = Some(timeline);
                }
                assert(self.known_timelines@ =~= s1.known_timelines.insert(id, timeline));
            },
            None => {
                emit(&mut actions, Action::SwitchTimeline(fresh));
                self.current_timeline = Some(fresh);
                let mut attrs = clone_attrs(&self.common_timeline_attrs);
                extend_from(&mut attrs, &stream.clock_attrs);
                emit(
                    &mut actions,
                    Action::SendTimelineAttrs { name: pkt.header.stream_name.clone(), attrs },
                );
                self.known_timelines.insert(id, fresh);
            },
        }
        assert(actions.deep_view() =~= restart_actions(old(self)@, pkt@) + discarded_actions(
            pkt@.context,
        ) + sequence_actions(st0.packet_seqnum, pkt@.context) + timeline_actions(
            s1,
            pkt@.header,
            st0.clock_attrs,
            fresh,
        ));

        // The events, each with what the packet's header and context add.
        let mut shared = pkt.header.event_attrs();
        let context_attrs = pkt.context.event_attrs();
        extend_from(&mut shared, &context_attrs);
        forward_events(&mut stream, pkt, &shared, &mut actions);

        let ghost st2 = stream@;
        self.streams_state.insert(id, stream);
        assert(stream_views(self.streams_state@) =~= s1.streams_state.insert(id, st2));
        assert(self@ =~= handled_state(old(self)@, pkt@, fresh));
        Ok(actions)
    }

    /// Handles a packet. A stream without a timeline gets a newly allocated
    /// one.
    pub fn handle_packet(&mut self, pkt: &Packet) -> (r: Result<Vec<Action>, FailedSend>)
        ensures
            exists|fresh: TimelineId|
                final(self)@ == #[trigger] handled_state(old(self)@, pkt@, fresh) && outcome_view(r)
                    == handled_actions(old(self)@, pkt@, fresh),
            old(self)@.known_timelines.contains_key(pkt@.header.stream_id) ==> forall|
                fresh: TimelineId,
            |
                final(self)@ == #[trigger] handled_state(old(self)@, pkt@, fresh) && outcome_view(r)
                    == handled_actions(old(self)@, pkt@, fresh),
            old(self)@.wf() ==> final(self)@.wf(),
    {
        broadcast use group_hash_axioms;

        let fresh = if self.known_timelines.contains_key(&pkt.header.stream_id) {
            proof {
                assert forall|other: TimelineId|
                    #[trigger] handled_state(self@, pkt@, other) == handled_state(self@, pkt@, 0)
                        && handled_actions(self@, pkt@, other) == handled_actions(
                        self@,
                        pkt@,
                        0,
                    ) by {
                    lemma_fresh_unused(self@, pkt@, other, 0);
                }
            }
            0
        } else {
            allocate_timeline_id()
        };
        self.handle_packet_with(pkt, fresh)
    }
}

/// For a stream that has a timeline, the fresh one plays no part.
pub proof fn lemma_fresh_unused(s: SenderView, pkt: PacketView, a: TimelineId, b: TimelineId)
    requires
        s.known_timelines.contains_key(pkt.header.stream_id),
    ensures
        handled_state(s, pkt, a) == handled_state(s, pkt, b),
        handled_actions(s, pkt, a) == handled_actions(s, pkt, b),
{
}

/// The events of a packet keep a well-formed tracker well-formed.
pub proof fn lemma_after_events_tracker(st: StreamStateView, events: Seq<EventView>, n: nat)
    requires
        st.timestamp_tracker matches Some(t) ==> t.wf(),
    ensures
        after_events(st, events, n).timestamp_tracker matches Some(t) ==> t.wf(),
    decreases n,
{
    if n > 0 {
        lemma_after_events_tracker(st, events, (n - 1) as nat);
        let before = after_events(st, events, (n - 1) as nat);
        if let Some(t) = before.timestamp_tracker {
            lemma_advance_wf(t, events[n - 1].timestamp);
        }
    }
}

/// A sender is well-formed at its start.
pub proof fn lemma_initial_sender_wf(
    trace: TraceView,
    common_timeline_attrs: Seq<AttrView>,
    start_event: Option<Seq<char>>,
    clock_uuids: Seq<(Seq<char>, Uuid)>,
)
    ensures
        initial_sender(trace, common_timeline_attrs, start_event, clock_uuids).wf(),
{
    let environment = environment_attrs(trace.environment, trace.environment.len());
    let own = upsert_all(Seq::empty(), common_timeline_attrs, common_timeline_attrs.len());
    lemma_upsert_all_distinct(Seq::empty(), common_timeline_attrs, common_timeline_attrs.len());
    lemma_upsert_all_distinct(own, environment, environment.len());
}

/// A well-formed sender stays well-formed, whatever the packet.
pub proof fn lemma_handled_state_wf(s: SenderView, pkt: PacketView, fresh: TimelineId)
    requires
        s.wf(),
    ensures
        handled_state(s, pkt, fresh).wf(),
{
    let s1 = after_restart(s, pkt);
    let id = pkt.header.stream_id;
    let after = handled_state(s, pkt, fresh);
    assert(s1.wf());
    if let Ok(st) = stream_before(s1, pkt.header) {
        lemma_after_events_tracker(after_context(st, pkt.context), pkt.events, pkt.events.len());
        assert(after.known_timelines.contains_key(id));
        assert(after.known_timelines[id] == timeline_of(s1, id, fresh));
        assert forall|other: StreamId| #[trigger]
            after.streams_state.contains_key(other) implies after.known_timelines.contains_key(
            other,
        ) by {
            if other != id {
                assert(s1.streams_state.contains_key(other));
            }
        }
        assert forall|other: StreamId| #[trigger]
            after.streams_state.contains_key(other) implies (
        after.streams_state[other].timestamp_tracker matches Some(t) ==> t.wf()) by {
            if other != id {
                assert(s1.streams_state.contains_key(other));
            }
        }
    }
}

} // verus!
