//! The data model: decoded packets, events and field values, and the static
//! description of the trace they belong to.

use vstd::prelude::*;

verus! {

/// Identifies a stream within a trace.
pub type StreamId = u64;

/// Identifies an event type within a stream.
pub type EventId = u64;

/// A point in time, in clock cycles.
pub type Timestamp = u64;

/// A number of events.
pub type EventCount = u64;

/// The position of a packet in its stream.
pub type SequenceNumber = u64;

/// The 128 bits of a UUID.
pub type Uuid = u128;

/// The severity of an event.
#[derive(Clone, Copy, Debug, PartialEq, Eq, Structural)]
pub enum LogLevel {
    Emergency,
    Alert,
    Critical,
    Error,
    Warning,
    Notice,
    Info,
    DebugSystem,
    DebugProgram,
    DebugProcess,
    DebugModule,
    DebugUnit,
    DebugFunction,
    DebugLine,
    Debug,
    /// A level without a name.
    Other(i32),
}

impl LogLevel {
    /// The number of the level.
    pub open spec fn spec_code(self) -> i32 {
        match self {
            LogLevel::Emergency => 0,
            LogLevel::Alert => 1,
            LogLevel::Critical => 2,
            LogLevel::Error => 3,
            LogLevel::Warning => 4,
            LogLevel::Notice => 5,
            LogLevel::Info => 6,
            LogLevel::DebugSystem => 7,
            LogLevel::DebugProgram => 8,
            LogLevel::DebugProcess => 9,
            LogLevel::DebugModule => 10,
            LogLevel::DebugUnit => 11,
            LogLevel::DebugFunction => 12,
            LogLevel::DebugLine => 13,
            LogLevel::Debug => 14,
            LogLevel::Other(n) => n,
        }
    }

    /// The number of the level.
    pub fn code(self) -> (n: i32)
        ensures
            n == self.spec_code(),
    {
        match self {
            LogLevel::Emergency => 0,
            LogLevel::Alert => 1,
            LogLevel::Critical => 2,
            LogLevel::Error => 3,
            LogLevel::Warning => 4,
            LogLevel::Notice => 5,
            LogLevel::Info => 6,
            LogLevel::DebugSystem => 7,
            LogLevel::DebugProgram => 8,
            LogLevel::DebugProcess => 9,
            LogLevel::DebugModule => 10,
            LogLevel::DebugUnit => 11,
            LogLevel::DebugFunction => 12,
            LogLevel::DebugLine => 13,
            LogLevel::Debug => 14,
            LogLevel::Other(n) => n,
        }
    }
}

/// A scalar field value.
///
/// `F32` and `F64` hold the IEEE-754 bit pattern of the value. An
/// enumeration holds its backing integer and, where one is known, its label.
#[derive(Debug, PartialEq, Eq)]
pub enum PrimitiveFieldValue {
    UnsignedInteger(u64),
    SignedInteger(i64),
    String(String),
    F32(u32),
    F64(u64),
    Enumeration(i64, Option<String>),
}

/// What a [`PrimitiveFieldValue`] stands for.
pub ghost enum PrimitiveFieldValueView {
    UnsignedInteger(u64),
    SignedInteger(i64),
    String(Seq<char>),
    F32(u32),
    F64(u64),
    Enumeration(i64, Option<Seq<char>>),
}

impl View for PrimitiveFieldValue {
    type V = PrimitiveFieldValueView;

    open spec fn view(&self) -> PrimitiveFieldValueView {
        match self {
            PrimitiveFieldValue::UnsignedInteger(v) => PrimitiveFieldValueView::UnsignedInteger(*v),
            PrimitiveFieldValue::SignedInteger(v) => PrimitiveFieldValueView::SignedInteger(*v),
            PrimitiveFieldValue::String(s) => PrimitiveFieldValueView::String(s@),
            PrimitiveFieldValue::F32(v) => PrimitiveFieldValueView::F32(*v),
            PrimitiveFieldValue::F64(v) => PrimitiveFieldValueView::F64(*v),
            PrimitiveFieldValue::Enumeration(v, label) => PrimitiveFieldValueView::Enumeration(
                *v,
                label.deep_view(),
            ),
        }
    }
}

impl DeepView for PrimitiveFieldValue {
    type V = PrimitiveFieldValueView;

    open spec fn deep_view(&self) -> PrimitiveFieldValueView {
        self@
    }
}

/// A field value: a scalar or an array of scalars.
#[derive(Debug, PartialEq, Eq)]
pub enum FieldValue {
    Primitive(PrimitiveFieldValue),
    Array(Vec<PrimitiveFieldValue>),
}

/// What a [`FieldValue`] stands for.
pub ghost enum FieldValueView {
    Primitive(PrimitiveFieldValueView),
    Array(Seq<PrimitiveFieldValueView>),
}

impl View for FieldValue {
    type V = FieldValueView;

    open spec fn view(&self) -> FieldValueView {
        match self {
            FieldValue::Primitive(p) => FieldValueView::Primitive(p@),
            FieldValue::Array(elems) => FieldValueView::Array(elems.deep_view()),
        }
    }
}

impl DeepView for FieldValue {
    type V = FieldValueView;

    open spec fn deep_view(&self) -> FieldValueView {
        self@
    }
}

/// A named field.
pub type Field = (String, FieldValue);

/// What a [`Field`] stands for.
pub type FieldView = (Seq<char>, FieldValueView);

/// The offset of a clock from its origin.
#[derive(Clone, Copy, Debug, PartialEq, Eq, Structural)]
pub struct ClockTypeOffset {
    pub seconds: i64,
    pub cycles: u64,
}

/// The description of a clock. A frequency of 0 stands for a clock whose
/// rate is not known.
#[derive(Debug, PartialEq, Eq)]
pub struct ClockType {
    /// Cycles per second.
    pub frequency: u64,
    pub offset: Option<ClockTypeOffset>,
    pub origin_is_unix_epoch: bool,
    pub precision: u64,
    pub uuid: Option<Uuid>,
    pub description: Option<String>,
    /// The C type that holds a value of this clock.
    pub c_type: String,
}

/// What a [`ClockType`] stands for.
pub ghost struct ClockTypeView {
    pub frequency: u64,
    pub offset: Option<ClockTypeOffset>,
    pub origin_is_unix_epoch: bool,
    pub precision: u64,
    pub uuid: Option<Uuid>,
    pub description: Option<Seq<char>>,
    pub c_type: Seq<char>,
}

impl View for ClockType {
    type V = ClockTypeView;

    open spec fn view(&self) -> ClockTypeView {
        ClockTypeView {
            frequency: self.frequency,
            offset: self.offset,
            origin_is_unix_epoch: self.origin_is_unix_epoch,
            precision: self.precision,
            uuid: self.uuid,
            description: self.description.deep_view(),
            c_type: self.c_type@,
        }
    }
}

impl DeepView for ClockType {
    type V = ClockTypeView;

    open spec fn deep_view(&self) -> ClockTypeView {
        self@
    }
}

/// The header of a packet.
#[derive(Debug, PartialEq, Eq)]
pub struct PacketHeader {
    pub trace_uuid: Option<Uuid>,
    pub stream_id: StreamId,
    pub stream_name: String,
    /// The name of the stream's default clock.
    pub clock_name: Option<String>,
    /// The stream's default clock.
    pub clock_type: Option<ClockType>,
}

/// What a [`PacketHeader`] stands for.
pub ghost struct PacketHeaderView {
    pub trace_uuid: Option<Uuid>,
    pub stream_id: StreamId,
    pub stream_name: Seq<char>,
    pub clock_name: Option<Seq<char>>,
    pub clock_type: Option<ClockTypeView>,
}

impl View for PacketHeader {
    type V = PacketHeaderView;

    open spec fn view(&self) -> PacketHeaderView {
        PacketHeaderView {
            trace_uuid: self.trace_uuid,
            stream_id: self.stream_id,
            stream_name: self.stream_name@,
            clock_name: self.clock_name.deep_view(),
            clock_type: self.clock_type.deep_view(),
        }
    }
}

impl DeepView for PacketHeader {
    type V = PacketHeaderView;

    open spec fn deep_view(&self) -> PacketHeaderView {
        self@
    }
}

/// The context of a packet.
#[derive(Debug, PartialEq, Eq)]
pub struct PacketContext {
    /// The size of the packet in bits, padding included.
    pub packet_size_bits: usize,
    /// The size of the packet's content in bits.
    pub content_size_bits: usize,
    pub beginning_timestamp: Option<Timestamp>,
    pub end_timestamp: Option<Timestamp>,
    /// How many events the stream had discarded when the packet was closed.
    pub events_discarded: Option<EventCount>,
    pub sequence_number: Option<SequenceNumber>,
    /// The user-defined members of the context.
    pub extra_members: Vec<Field>,
}

/// What a [`PacketContext`] stands for.
pub ghost struct PacketContextView {
    pub packet_size_bits: usize,
    pub content_size_bits: usize,
    pub beginning_timestamp: Option<Timestamp>,
    pub end_timestamp: Option<Timestamp>,
    pub events_discarded: Option<EventCount>,
    pub sequence_number: Option<SequenceNumber>,
    pub extra_members: Seq<FieldView>,
}

impl View for PacketContext {
    type V = PacketContextView;

    open spec fn view(&self) -> PacketContextView {
        PacketContextView {
            packet_size_bits: self.packet_size_bits,
            content_size_bits: self.content_size_bits,
            beginning_timestamp: self.beginning_timestamp,
            end_timestamp: self.end_timestamp,
            events_discarded: self.events_discarded,
            sequence_number: self.sequence_number,
            extra_members: self.extra_members.deep_view(),
        }
    }
}

impl DeepView for PacketContext {
    type V = PacketContextView;

    open spec fn deep_view(&self) -> PacketContextView {
        self@
    }
}

impl PacketContext {
    /// The size of the packet in bytes.
    pub fn packet_size(&self) -> (bytes: usize)
        ensures
            bytes == self.packet_size_bits / 8,
    {
        self.packet_size_bits / 8
    }

    /// The size of the packet's content in bytes.
    pub fn content_size(&self) -> (bytes: usize)
        ensures
            bytes == self.content_size_bits / 8,
    {
        self.content_size_bits / 8
    }
}

/// An event.
#[derive(Debug, PartialEq, Eq)]
pub struct Event {
    pub id: EventId,
    pub name: String,
    /// The raw value of the event's timestamp field.
    pub timestamp: Timestamp,
    pub log_level: Option<LogLevel>,
    pub common_context: Vec<Field>,
    pub specific_context: Vec<Field>,
    pub payload: Vec<Field>,
}

/// What an [`Event`] stands for.
pub ghost struct EventView {
    pub id: EventId,
    pub name: Seq<char>,
    pub timestamp: Timestamp,
    pub log_level: Option<LogLevel>,
    pub common_context: Seq<FieldView>,
    pub specific_context: Seq<FieldView>,
    pub payload: Seq<FieldView>,
}

impl View for Event {
    type V = EventView;

    open spec fn view(&self) -> EventView {
        EventView {
            id: self.id,
            name: self.name@,
            timestamp: self.timestamp,
            log_level: self.log_level,
            common_context: self.common_context.deep_view(),
            specific_context: self.specific_context.deep_view(),
            payload: self.payload.deep_view(),
        }
    }
}

impl DeepView for Event {
    type V = EventView;

    open spec fn deep_view(&self) -> EventView {
        self@
    }
}

/// A decoded packet: its header, its context and its events in the order in
/// which they were recorded.
#[derive(Debug, PartialEq, Eq)]
pub struct Packet {
    pub header: PacketHeader,
    pub context: PacketContext,
    pub events: Vec<Event>,
}

/// What a [`Packet`] stands for.
pub ghost struct PacketView {
    pub header: PacketHeaderView,
    pub context: PacketContextView,
    pub events: Seq<EventView>,
}

impl View for Packet {
    type V = PacketView;

    open spec fn view(&self) -> PacketView {
        PacketView {
            header: self.header@,
            context: self.context@,
            events: self.events.deep_view(),
        }
    }
}

impl DeepView for Packet {
    type V = PacketView;

    open spec fn deep_view(&self) -> PacketView {
        self@
    }
}

/// A value of the trace's environment.
///
/// A number holds what it is as a signed 64-bit integer and what it is as an
/// unsigned one, each where the number can be read so.
#[derive(Debug, PartialEq, Eq)]
pub enum EnvironmentValue {
    String(String),
    Number { signed: Option<i64>, unsigned: Option<u64> },
    /// Any other kind of value.
    Other,
}

/// What an [`EnvironmentValue`] stands for.
pub ghost enum EnvironmentValueView {
    String(Seq<char>),
    Number { signed: Option<i64>, unsigned: Option<u64> },
    Other,
}

impl View for EnvironmentValue {
    type V = EnvironmentValueView;

    open spec fn view(&self) -> EnvironmentValueView {
        match self {
            EnvironmentValue::String(s) => EnvironmentValueView::String(s@),
            EnvironmentValue::Number { signed, unsigned } => EnvironmentValueView::Number {
                signed: *signed,
                unsigned: *unsigned,
            },
            EnvironmentValue::Other => EnvironmentValueView::Other,
        }
    }
}

impl DeepView for EnvironmentValue {
    type V = EnvironmentValueView;

    open spec fn deep_view(&self) -> EnvironmentValueView {
        self@
    }
}

/// What the forwarding reads of a data stream type.
#[derive(Clone, Copy, Debug, PartialEq, Eq, Structural)]
pub struct DataStreamType {
    /// The width in bits of the timestamp field of the stream's events.
    pub timestamp_size_bits: usize,
}

/// The static description of a trace: its environment, its clocks by name and
/// its data stream types by name.
#[derive(Debug, PartialEq, Eq)]
pub struct Trace {
    pub environment: Vec<(String, EnvironmentValue)>,
    pub clock_types: Vec<(String, ClockType)>,
    pub data_stream_types: Vec<(String, DataStreamType)>,
}

/// What a [`Trace`] stands for.
pub ghost struct TraceView {
    pub environment: Seq<(Seq<char>, EnvironmentValueView)>,
    pub clock_types: Seq<(Seq<char>, ClockTypeView)>,
    pub data_stream_types: Seq<(Seq<char>, DataStreamType)>,
}

impl View for DataStreamType {
    type V = DataStreamType;

    open spec fn view(&self) -> DataStreamType {
        *self
    }
}

impl DeepView for DataStreamType {
    type V = DataStreamType;

    open spec fn deep_view(&self) -> DataStreamType {
        *self
    }
}

impl View for Trace {
    type V = TraceView;

    open spec fn view(&self) -> TraceView {
        TraceView {
            environment: self.environment.deep_view(),
            clock_types: self.clock_types.deep_view(),
            data_stream_types: self.data_stream_types.deep_view(),
        }
    }
}

impl DeepView for Trace {
    type V = TraceView;

    open spec fn deep_view(&self) -> TraceView {
        self@
    }
}

} // verus!
