//! From trace values to attributes: the attributes of a clock, of a trace, of
//! a packet's header and context and of an event, and the flattening of field
//! values.

use vstd::prelude::*;
use vstd::string::*;
use crate::attr::{Attr, AttrVal, AttrValView, AttrView};
use crate::text::{decimal, decimal_text, join};
use crate::trusted::{log_level_label, named_level_label, spec_uuid_text, uuid_text};
use crate::types::{
    ClockType, ClockTypeView, EnvironmentValue, EnvironmentValueView, Event, EventView, Field,
    FieldValue, FieldValueView, FieldView, LogLevel, PacketContext, PacketContextView,
    PacketHeader, PacketHeaderView, PrimitiveFieldValue, PrimitiveFieldValueView, Timestamp,
    Trace, Uuid,
};

verus! {

/// Of an array, only this many leading elements become attributes.
pub const MAX_ARRAY_LEN: usize = 10;

/// Nanoseconds in a second.
pub const ONE_SECOND: u128 = 1_000_000_000;

/// The key of a field: the prefix, a dot and the field's name, or the bare
/// name where there is no prefix.
pub open spec fn spec_format_key(prefix: Option<Seq<char>>, field_name: Seq<char>) -> Seq<char> {
    match prefix {
        Some(p) => p + "."@ + field_name,
        None => field_name,
    }
}

/// The key of the array element at `idx`.
pub open spec fn spec_array_key(key: Seq<char>, idx: nat) -> Seq<char> {
    key + ".array."@ + decimal_text(idx)
}

/// The attributes of a scalar under `key`. An enumeration gives its backing
/// integer under `<key>.container` and then, only where it has a label, the
/// label under `key`.
pub open spec fn spec_pfv_attrs(key: Seq<char>, pfv: PrimitiveFieldValueView) -> Seq<AttrView> {
    match pfv {
        PrimitiveFieldValueView::UnsignedInteger(v) => seq![(key, AttrValView::Unsigned(v))],
        PrimitiveFieldValueView::SignedInteger(v) => seq![(key, AttrValView::Integer(v))],
        PrimitiveFieldValueView::String(s) => seq![(key, AttrValView::String(s))],
        PrimitiveFieldValueView::F32(bits) => seq![(key, AttrValView::F32(bits))],
        PrimitiveFieldValueView::F64(bits) => seq![(key, AttrValView::F64(bits))],
        PrimitiveFieldValueView::Enumeration(v, label) => match label {
            Some(l) => seq![
                (key + ".container"@, AttrValView::Integer(v)),
                (key, AttrValView::String(l)),
            ],
            None => seq![(key + ".container"@, AttrValView::Integer(v))],
        },
    }
}

/// How many elements of an array of `len` elements become attributes.
pub open spec fn capped_len(len: nat) -> nat {
    if len <= MAX_ARRAY_LEN as nat {
        len
    } else {
        MAX_ARRAY_LEN as nat
    }
}

/// The attributes of the first `n` elements of an array under `key`, in the
/// order of the elements.
pub open spec fn spec_array_attrs(
    key: Seq<char>,
    elems: Seq<PrimitiveFieldValueView>,
    n: nat,
) -> Seq<AttrView>
    decreases n,
{
    if n == 0 {
        Seq::empty()
    } else {
        spec_array_attrs(key, elems, (n - 1) as nat) + spec_pfv_attrs(
            spec_array_key(key, (n - 1) as nat),
            elems[n - 1],
        )
    }
}

/// The attributes of a field.
pub open spec fn spec_fv_attrs(
    prefix: Option<Seq<char>>,
    field_name: Seq<char>,
    fv: FieldValueView,
) -> Seq<AttrView> {
    let key = spec_format_key(prefix, field_name);
    match fv {
        FieldValueView::Primitive(pfv) => spec_pfv_attrs(key, pfv),
        FieldValueView::Array(elems) => spec_array_attrs(key, elems, capped_len(elems.len())),
    }
}

/// The attributes of the first `n` fields of a list, in the order of the
/// fields.
pub open spec fn spec_fields_attrs(
    prefix: Option<Seq<char>>,
    fields: Seq<FieldView>,
    n: nat,
) -> Seq<AttrView>
    decreases n,
{
    if n == 0 {
        Seq::empty()
    } else {
        spec_fields_attrs(prefix, fields, (n - 1) as nat) + spec_fv_attrs(
            prefix,
            fields[n - 1].0,
            fields[n - 1].1,
        )
    }
}

/// One attribute where there is a value, none where there is not.
pub open spec fn spec_opt_attr(key: Seq<char>, val: Option<AttrValView>) -> Seq<AttrView> {
    match val {
        Some(v) => seq![(key, v)],
        None => Seq::empty(),
    }
}

/// An optional unsigned integer as an optional attribute value.
pub open spec fn opt_unsigned(v: Option<u64>) -> Option<AttrValView> {
    match v {
        Some(n) => Some(AttrValView::Unsigned(n)),
        None => None,
    }
}

/// An optional UUID as an optional attribute value: its text.
pub open spec fn opt_uuid(v: Option<Uuid>) -> Option<AttrValView> {
    match v {
        Some(bits) => Some(AttrValView::String(spec_uuid_text(bits))),
        None => None,
    }
}

/// The nanoseconds that `cycles` cycles take at `frequency` cycles per
/// second, rounded down and reduced to 64 bits; none without a frequency.
pub open spec fn spec_timestamp_ns(frequency: Option<u64>, cycles: Timestamp) -> Option<u64> {
    match frequency {
        Some(f) => Some(
            (((cycles as int * ONE_SECOND as int) / (f as int)) % 0x1_0000_0000_0000_0000) as u64,
        ),
        None => None,
    }
}

/// The usable frequency of a clock: none where the clock's frequency is 0.
pub open spec fn clock_frequency(clock: ClockTypeView) -> Option<u64> {
    if clock.frequency == 0 {
        None
    } else {
        Some(clock.frequency)
    }
}

/// The attributes that describe a clock on a timeline.
pub open spec fn clock_timeline_attrs(clock: ClockTypeView) -> Seq<AttrView> {
    seq![("clock.frequency"@, AttrValView::Unsigned(clock.frequency))] + spec_opt_attr(
        "clock.offset.seconds"@,
        match clock.offset {
            Some(o) => Some(AttrValView::Integer(o.seconds)),
            None => None,
        },
    ) + spec_opt_attr(
        "clock.offset.cycles"@,
        match clock.offset {
            Some(o) => Some(AttrValView::Unsigned(o.cycles)),
            None => None,
        },
    ) + seq![
        ("clock.origin_is_unix_epoch"@, AttrValView::Bool(clock.origin_is_unix_epoch)),
        ("clock.precision"@, AttrValView::Unsigned(clock.precision)),
    ] + spec_opt_attr("clock.uuid"@, opt_uuid(clock.uuid)) + spec_opt_attr(
        "clock.description"@,
        match clock.description {
            Some(d) => Some(AttrValView::String(d)),
            None => None,
        },
    ) + seq![
        ("clock.c_type"@, AttrValView::String(clock.c_type)),
        (
            "clock_style"@,
            AttrValView::String(
                if clock.origin_is_unix_epoch {
                    "absolute"@
                } else {
                    "relative"@
                },
            ),
        ),
    ]
}

/// The attribute of one environment entry: a string as it is, a number as a
/// signed integer where it is one and else as an unsigned one, nothing for
/// anything else.
pub open spec fn environment_attr(name: Seq<char>, value: EnvironmentValueView) -> Seq<AttrView> {
    let key = "environment."@ + name;
    match value {
        EnvironmentValueView::String(s) => seq![(key, AttrValView::String(s))],
        EnvironmentValueView::Number { signed: Some(n), unsigned: _ } => seq![
            (key, AttrValView::Integer(n)),
        ],
        EnvironmentValueView::Number { signed: None, unsigned: Some(n) } => seq![
            (key, AttrValView::Unsigned(n)),
        ],
        EnvironmentValueView::Number { signed: None, unsigned: None } => Seq::empty(),
        EnvironmentValueView::Other => Seq::empty(),
    }
}

/// The attributes of the first `n` entries of a trace's environment.
pub open spec fn environment_attrs(
    environment: Seq<(Seq<char>, EnvironmentValueView)>,
    n: nat,
) -> Seq<AttrView>
    decreases n,
{
    if n == 0 {
        Seq::empty()
    } else {
        environment_attrs(environment, (n - 1) as nat) + environment_attr(
            environment[n - 1].0,
            environment[n - 1].1,
        )
    }
}

/// The attributes that a packet's header gives to each of its events.
pub open spec fn header_event_attrs(header: PacketHeaderView) -> Seq<AttrView> {
    spec_opt_attr("packet_header.trace_uuid"@, opt_uuid(header.trace_uuid)) + seq![
        ("packet_header.stream.id"@, AttrValView::Unsigned(header.stream_id)),
        ("packet_header.stream.name"@, AttrValView::String(header.stream_name)),
    ]
}

/// The attributes that a packet's context gives to each of its events.
pub open spec fn context_event_attrs(context: PacketContextView) -> Seq<AttrView> {
    seq![
        ("packet_context.packet_size.bits"@, AttrValView::Unsigned(context.packet_size_bits as u64)),
        (
            "packet_context.packet_size.bytes"@,
            AttrValView::Unsigned((context.packet_size_bits / 8) as u64),
        ),
        (
            "packet_context.content_size.bits"@,
            AttrValView::Unsigned(context.content_size_bits as u64),
        ),
        (
            "packet_context.content_size.bytes"@,
            AttrValView::Unsigned((context.content_size_bits / 8) as u64),
        ),
    ] + spec_opt_attr(
        "packet_context.beginning_timestamp"@,
        opt_unsigned(context.beginning_timestamp),
    ) + spec_opt_attr("packet_context.end_timestamp"@, opt_unsigned(context.end_timestamp))
        + spec_opt_attr("packet_context.events_discarded"@, opt_unsigned(context.events_discarded))
        + spec_opt_attr("packet_context.sequence_number"@, opt_unsigned(context.sequence_number))
        + spec_fields_attrs(
        Some("packet_context"@),
        context.extra_members,
        context.extra_members.len(),
    )
}

/// The attribute of an event's log level: the label of a named level, the
/// number of a level without a name, nothing without a level.
pub open spec fn log_level_attr(level: Option<LogLevel>) -> Seq<AttrView> {
    match level {
        None => Seq::empty(),
        Some(LogLevel::Other(n)) => seq![("log_level"@, AttrValView::Integer(n as i64))],
        Some(l) => seq![
            ("log_level"@, AttrValView::String(named_level_label(l.spec_code()))),
        ],
    }
}

/// The attributes of an event by itself: its identity, its raw timestamp, its
/// log level, and its fields, those of the two contexts under their prefix
/// and those of the payload under their bare names.
pub open spec fn event_own_attrs(event: EventView) -> Seq<AttrView> {
    seq![
        ("internal.barectf.event.id"@, AttrValView::Unsigned(event.id)),
        ("internal.barectf.event.name"@, AttrValView::String(event.name)),
        ("name"@, AttrValView::String(event.name)),
        ("internal.barectf.clock.cycles"@, AttrValView::Unsigned(event.timestamp)),
    ] + log_level_attr(event.log_level) + spec_fields_attrs(
        Some("common_context"@),
        event.common_context,
        event.common_context.len(),
    ) + spec_fields_attrs(
        Some("specific_context"@),
        event.specific_context,
        event.specific_context.len(),
    ) + spec_fields_attrs(None, event.payload, event.payload.len())
}

/// What a clock says of time.
pub trait ClockExt {
    /// The clock's usable frequency in cycles per second.
    spec fn spec_frequency(&self) -> Option<u64>;

    /// The clock's usable frequency in cycles per second, never 0.
    fn frequency(&self) -> (f: Option<u64>)
        ensures
            f == self.spec_frequency(),
            f != Some(0u64),
    ;

    /// The nanoseconds that `cycles` cycles of this clock take; none where
    /// the clock has no usable frequency.
    fn timestamp_ns(&self, cycles: Timestamp) -> (ns: Option<u64>)
        ensures
            ns == spec_timestamp_ns(self.spec_frequency(), cycles),
    ;
}

impl ClockExt for ClockType {
    open spec fn spec_frequency(&self) -> Option<u64> {
        clock_frequency(self@)
    }

    fn frequency(&self) -> (f: Option<u64>) {
        if self.frequency == 0 {
            None
        } else {
            Some(self.frequency)
        }
    }

    fn timestamp_ns(&self, cycles: Timestamp) -> (ns: Option<u64>) {
        let cycles_x_ns: u128 = (cycles as u128) * ONE_SECOND;
        match self.frequency() {
            Some(f) => {
                let quotient: u128 = cycles_x_ns / (f as u128);
                let low: u128 = quotient % 0x1_0000_0000_0000_0000u128;
                Some(low as u64)
            },
            None => None,
        }
    }
}

/// What is published of a value when its timeline is first seen.
pub trait TimelineExt {
    /// The attributes, as a list of views.
    spec fn spec_timeline_attrs(&self) -> Seq<AttrView>;

    /// The attributes.
    fn timeline_attrs(&self) -> (attrs: Vec<Attr>)
        ensures
            attrs.deep_view() == self.spec_timeline_attrs(),
    ;
}

/// What a value gives to the attributes of an event.
pub trait EventExt {
    /// The attributes, as a list of views.
    spec fn spec_event_attrs(&self) -> Seq<AttrView>;

    /// The attributes.
    fn event_attrs(&self) -> (attrs: Vec<Attr>)
        ensures
            attrs.deep_view() == self.spec_event_attrs(),
    ;
}

fn attr(k: String, v: AttrVal, attrs: &mut Vec<Attr>)
    ensures
        final(attrs).deep_view() == old(attrs).deep_view().push((k@, v@)),
{
    attrs.push((k, v));
    assert(attrs.deep_view() =~= old(attrs).deep_view().push((k@, v@)));
}

fn opt_attr(k: String, v: Option<AttrVal>, attrs: &mut Vec<Attr>)
    ensures
        final(attrs).deep_view() == old(attrs).deep_view() + spec_opt_attr(k@, v.deep_view()),
{
    if let Some(val) = v {
        attr(k, val, attrs);
    } else {
        assert(old(attrs).deep_view() + Seq::<AttrView>::empty() =~= old(attrs).deep_view());
    }
}

fn opt_unsigned_val(v: Option<u64>) -> (val: Option<AttrVal>)
    ensures
        val.deep_view() == opt_unsigned(v),
{
    match v {
        Some(n) => Some(AttrVal::Unsigned(n)),
        None => None,
    }
}

fn opt_uuid_val(v: Option<Uuid>) -> (val: Option<AttrVal>)
    ensures
        val.deep_view() == opt_uuid(v),
{
    match v {
        Some(bits) => Some(AttrVal::String(uuid_text(bits))),
        None => None,
    }
}

/// Appends the attributes of a scalar under `key`.
pub fn pfv_attrs(key: String, pfv: &PrimitiveFieldValue, attrs: &mut Vec<Attr>)
    ensures
        final(attrs).deep_view() == old(attrs).deep_view() + spec_pfv_attrs(key@, pfv@),
{
    match pfv {
        PrimitiveFieldValue::UnsignedInteger(v) => {
            attr(key, AttrVal::Unsigned(*v), attrs);
        },
        PrimitiveFieldValue::SignedInteger(v) => {
            attr(key, AttrVal::Integer(*v), attrs);
        },
        PrimitiveFieldValue::String(v) => {
            attr(key, AttrVal::String(v.clone()), attrs);
        },
        PrimitiveFieldValue::F32(v) => {
            attr(key, AttrVal::F32(*v), attrs);
        },
        PrimitiveFieldValue::F64(v) => {
            attr(key, AttrVal::F64(*v), attrs);
        },
        PrimitiveFieldValue::Enumeration(v, maybe_label) => {
            attr(join(key.as_str(), ".container"), AttrVal::Integer(*v), attrs);
            if let Some(label) = maybe_label {
                attr(key, AttrVal::String(label.clone()), attrs);
                assert(attrs.deep_view() =~= old(attrs).deep_view() + spec_pfv_attrs(key@, pfv@));
            }
        },
    }
}

/// The key of a field: `<prefix>.<field_name>`, or the bare field name where
/// there is no prefix.
pub fn format_key(prefix: Option<&str>, field_name: &str) -> (key: String)
    ensures
        key@ == spec_format_key(
            match prefix {
                Some(p) => Some(p@),
                None => None,
            },
            field_name@,
        ),
{
    if let Some(p) = prefix {
        let mut key = String::from_str(p);
        key.append(".");
        key.append(field_name);
        key
    } else {
        String::from_str(field_name)
    }
}

fn array_key(key: &str, idx: usize) -> (k: String)
    ensures
        k@ == spec_array_key(key@, idx as nat),
{
    let mut k = String::from_str(key);
    k.append(".array.");
    let digits = decimal(idx);
    k.append(digits.as_str());
    k
}

/// Appends the attributes of a field: those of a scalar under the field's
/// key, those of the first ten elements of an array under
/// `<key>.array.<index>`.
pub fn fv_attrs(prefix: Option<&str>, field_name: &str, fv: &FieldValue, attrs: &mut Vec<Attr>)
    ensures
        final(attrs).deep_view() == old(attrs).deep_view() + spec_fv_attrs(
            match prefix {
                Some(p) => Some(p@),
                None => None,
            },
            field_name@,
            fv@,
        ),
{
    let key = format_key(prefix, field_name);
    match fv {
        FieldValue::Primitive(pfv) => {
            pfv_attrs(key, pfv, attrs);
        },
        FieldValue::Array(arr) => {
            let n: usize = if arr.len() <= MAX_ARRAY_LEN {
                arr.len()
            } else {
                MAX_ARRAY_LEN
            };
            let mut idx: usize = 0;
            assert(old(attrs).deep_view() + Seq::<AttrView>::empty() =~= old(attrs).deep_view());
            while idx < n
                invariant
                    idx <= n <= arr.len(),
                    attrs.deep_view() == old(attrs).deep_view() + spec_array_attrs(
                        key@,
                        arr.deep_view(),
                        idx as nat,
                    ),
                decreases n - idx,
            {
                pfv_attrs(array_key(key.as_str(), idx), &arr[idx], attrs);
                assert(attrs.deep_view() =~= old(attrs).deep_view() + spec_array_attrs(
                    key@,
                    arr.deep_view(),
                    (idx + 1) as nat,
                ));
                idx += 1;
            }
        },
    }
}

fn fields_attrs(prefix: Option<&str>, fields: &Vec<Field>, attrs: &mut Vec<Attr>)
    ensures
        final(attrs).deep_view() == old(attrs).deep_view() + spec_fields_attrs(
            match prefix {
                Some(p) => Some(p@),
                None => None,
            },
            fields.deep_view(),
            fields.len() as nat,
        ),
{
    let ghost p = match prefix {
        Some(p) => Some(p@),
        None => None,
    };
    let mut i: usize = 0;
    assert(old(attrs).deep_view() + Seq::<AttrView>::empty() =~= old(attrs).deep_view());
    while i < fields.len()
        invariant
            i <= fields.len(),
            p == (match prefix {
                Some(p) => Some(p@),
                None => None,
            }),
            attrs.deep_view() == old(attrs).deep_view() + spec_fields_attrs(
                p,
                fields.deep_view(),
                i as nat,
            ),
        decreases fields.len() - i,
    {
        fv_attrs(prefix, fields[i].0.as_str(), &fields[i].1, attrs);
        assert(attrs.deep_view() =~= old(attrs).deep_view() + spec_fields_attrs(
            p,
            fields.deep_view(),
            (i + 1) as nat,
        ));
        i += 1;
    }
}

impl TimelineExt for ClockType {
    open spec fn spec_timeline_attrs(&self) -> Seq<AttrView> {
        clock_timeline_attrs(self@)
    }

    fn timeline_attrs(&self) -> (attrs: Vec<Attr>) {
        let mut attrs: Vec<Attr> = Vec::new();
        assert(attrs.deep_view() =~= Seq::<AttrView>::empty());

        attr(String::from_str("clock.frequency"), AttrVal::Unsigned(self.frequency), &mut attrs);
        opt_attr(
            String::from_str("clock.offset.seconds"),
            match &self.offset {
                Some(o) => Some(AttrVal::Integer(o.seconds)),
                None => None,
            },
            &mut attrs,
        );
        opt_attr(
            String::from_str("clock.offset.cycles"),
            match &self.offset {
                Some(o) => Some(AttrVal::Unsigned(o.cycles)),
                None => None,
            },
            &mut attrs,
        );
        attr(
            String::from_str("clock.origin_is_unix_epoch"),
            AttrVal::Bool(self.origin_is_unix_epoch),
            &mut attrs,
        );
        attr(String::from_str("clock.precision"), AttrVal::Unsigned(self.precision), &mut attrs);
        opt_attr(String::from_str("clock.uuid"), opt_uuid_val(self.uuid), &mut attrs);
        opt_attr(
            String::from_str("clock.description"),
            match &self.description {
                Some(d) => Some(AttrVal::String(d.clone())),
                None => None,
            },
            &mut attrs,
        );
        attr(String::from_str("clock.c_type"), AttrVal::String(self.c_type.clone()), &mut attrs);
        if self.origin_is_unix_epoch {
            attr(
                String::from_str("clock_style"),
                AttrVal::String(String::from_str("absolute")),
                &mut attrs,
            );
        } else {
            attr(
                String::from_str("clock_style"),
                AttrVal::String(String::from_str("relative")),
                &mut attrs,
            );
        }
        assert(attrs.deep_view() =~= clock_timeline_attrs(self@));
        attrs
    }
}

impl TimelineExt for Trace {
    open spec fn spec_timeline_attrs(&self) -> Seq<AttrView> {
        environment_attrs(self@.environment, self@.environment.len())
    }

    fn timeline_attrs(&self) -> (attrs: Vec<Attr>) {
        let mut attrs: Vec<Attr> = Vec::new();
        assert(attrs.deep_view() =~= Seq::<AttrView>::empty());
        let mut i: usize = 0;
        while i < self.environment.len()
            invariant
                i <= self.environment.len(),
                attrs.deep_view() == environment_attrs(self.environment.deep_view(), i as nat),
            decreases self.environment.len() - i,
        {
            let ghost before = attrs.deep_view();
            let name = &self.environment[i].0;
            match &self.environment[i].1 {
                EnvironmentValue::String(s) => {
                    attr(
                        join("environment.", name.as_str()),
                        AttrVal::String(s.clone()),
                        &mut attrs,
                    );
                },
                EnvironmentValue::Number { signed, unsigned } => {
                    if let Some(n) = signed {
                        attr(join("environment.", name.as_str()), AttrVal::Integer(*n), &mut attrs);
                    } else if let Some(n) = unsigned {
                        attr(
                            join("environment.", name.as_str()),
                            AttrVal::Unsigned(*n),
                            &mut attrs,
                        );
                    }
                },
                EnvironmentValue::Other => {},
            }
            assert(attrs.deep_view() =~= before + environment_attr(
                self.environment.deep_view()[i as int].0,
                self.environment.deep_view()[i as int].1,
            ));
            i += 1;
        }
        attrs
    }
}

impl EventExt for PacketHeader {
    open spec fn spec_event_attrs(&self) -> Seq<AttrView> {
        header_event_attrs(self@)
    }

    fn event_attrs(&self) -> (attrs: Vec<Attr>) {
        let mut attrs: Vec<Attr> = Vec::new();
        assert(attrs.deep_view() =~= Seq::<AttrView>::empty());

        opt_attr(
            String::from_str("packet_header.trace_uuid"),
            opt_uuid_val(self.trace_uuid),
            &mut attrs,
        );
        attr(
            String::from_str("packet_header.stream.id"),
            AttrVal::Unsigned(self.stream_id),
            &mut attrs,
        );
        attr(
            String::from_str("packet_header.stream.name"),
            AttrVal::String(self.stream_name.clone()),
            &mut attrs,
        );
        assert(attrs.deep_view() =~= header_event_attrs(self@));
        attrs
    }
}

impl EventExt for PacketContext {
    open spec fn spec_event_attrs(&self) -> Seq<AttrView> {
        context_event_attrs(self@)
    }

    fn event_attrs(&self) -> (attrs: Vec<Attr>) {
        let mut attrs: Vec<Attr> = Vec::new();
        assert(attrs.deep_view() =~= Seq::<AttrView>::empty());

        attr(
            String::from_str("packet_context.packet_size.bits"),
            AttrVal::Unsigned(self.packet_size_bits as u64),
            &mut attrs,
        );
        attr(
            String::from_str("packet_context.packet_size.bytes"),
            AttrVal::Unsigned(self.packet_size() as u64),
            &mut attrs,
        );
        attr(
            String::from_str("packet_context.content_size.bits"),
            AttrVal::Unsigned(self.content_size_bits as u64),
            &mut attrs,
        );
        attr(
            String::from_str("packet_context.content_size.bytes"),
            AttrVal::Unsigned(self.content_size() as u64),
            &mut attrs,
        );
        opt_attr(
            String::from_str("packet_context.beginning_timestamp"),
            opt_unsigned_val(self.beginning_timestamp),
            &mut attrs,
        );
        opt_attr(
            String::from_str("packet_context.end_timestamp"),
            opt_unsigned_val(self.end_timestamp),
            &mut attrs,
        );
        opt_attr(
            String::from_str("packet_context.events_discarded"),
            opt_unsigned_val(self.events_discarded),
            &mut attrs,
        );
        opt_attr(
            String::from_str("packet_context.sequence_number"),
            opt_unsigned_val(self.sequence_number),
            &mut attrs,
        );
        fields_attrs(Some("packet_context"), &self.extra_members, &mut attrs);
        assert(attrs.deep_view() =~= context_event_attrs(self@));
        attrs
    }
}

impl EventExt for Event {
    open spec fn spec_event_attrs(&self) -> Seq<AttrView> {
        event_own_attrs(self@)
    }

    fn event_attrs(&self) -> (attrs: Vec<Attr>) {
        let mut attrs: Vec<Attr> = Vec::new();
        assert(attrs.deep_view() =~= Seq::<AttrView>::empty());

        attr(String::from_str("internal.barectf.event.id"), AttrVal::Unsigned(self.id), &mut attrs);
        attr(
            String::from_str("internal.barectf.event.name"),
            AttrVal::String(self.name.clone()),
            &mut attrs,
        );
        attr(String::from_str("name"), AttrVal::String(self.name.clone()), &mut attrs);
        attr(
            String::from_str("internal.barectf.clock.cycles"),
            AttrVal::Unsigned(self.timestamp),
            &mut attrs,
        );
        match self.log_level {
            None => {},
            Some(LogLevel::Other(ll)) => {
                attr(String::from_str("log_level"), AttrVal::Integer(ll as i64), &mut attrs);
            },
            Some(ll) => {
                attr(
                    String::from_str("log_level"),
                    AttrVal::String(log_level_label(ll.code())),
                    &mut attrs,
                );
            },
        }
        let ghost base = attrs.deep_view();
        assert(base =~= seq![
            ("internal.barectf.event.id"@, AttrValView::Unsigned(self.id)),
            ("internal.barectf.event.name"@, AttrValView::String(self.name@)),
            ("name"@, AttrValView::String(self.name@)),
            ("internal.barectf.clock.cycles"@, AttrValView::Unsigned(self.timestamp)),
        ] + log_level_attr(self.log_level));

        fields_attrs(Some("common_context"), &self.common_context, &mut attrs);
        fields_attrs(Some("specific_context"), &self.specific_context, &mut attrs);
        fields_attrs(None, &self.payload, &mut attrs);
        assert(attrs.deep_view() =~= event_own_attrs(self@));
        attrs
    }
}

} // verus!
