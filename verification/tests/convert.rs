use modality_barectf_plugin::attr::{Attr, AttrVal};
use modality_barectf_plugin::convert::{
    format_key, fv_attrs, pfv_attrs, ClockExt, EventExt, TimelineExt, MAX_ARRAY_LEN, ONE_SECOND,
};
use modality_barectf_plugin::types::{
    ClockType, ClockTypeOffset, DataStreamType, EnvironmentValue, Event, FieldValue, LogLevel,
    PacketContext, PacketHeader, PrimitiveFieldValue, Trace,
};

fn convert_attr(key: &str, val: AttrVal) -> Attr {
    (key.to_string(), val)
}

fn convert_text(s: &str) -> AttrVal {
    AttrVal::String(s.to_string())
}

fn convert_clock(frequency: u64) -> ClockType {
    ClockType {
        frequency,
        offset: None,
        origin_is_unix_epoch: false,
        precision: 0,
        uuid: None,
        description: None,
        c_type: "uint64_t".to_string(),
    }
}

fn convert_event(payload: Vec<(String, FieldValue)>) -> Event {
    Event {
        id: 3,
        name: "ev".to_string(),
        timestamp: 77,
        log_level: None,
        common_context: vec![],
        specific_context: vec![],
        payload,
    }
}

fn convert_base(ev_name: &str, id: u64, timestamp: u64) -> Vec<Attr> {
    vec![
        convert_attr("internal.barectf.event.id", AttrVal::Unsigned(id)),
        convert_attr("internal.barectf.event.name", convert_text(ev_name)),
        convert_attr("name", convert_text(ev_name)),
        convert_attr("internal.barectf.clock.cycles", AttrVal::Unsigned(timestamp)),
    ]
}

#[test]
fn format_key_with_prefix() {
    assert_eq!(format_key(Some("common_context"), "cpu"), "common_context.cpu");
    assert_eq!(format_key(Some("packet_context"), "a.b"), "packet_context.a.b");
}

#[test]
fn format_key_without_prefix() {
    assert_eq!(format_key(None, "value"), "value");
    assert_eq!(format_key(None, ""), "");
    assert_eq!(format_key(Some(""), "x"), ".x");
}

#[test]
fn scalars_give_one_attribute_each() {
    let mut attrs = Vec::new();
    pfv_attrs("u".to_string(), &PrimitiveFieldValue::UnsignedInteger(u64::MAX), &mut attrs);
    pfv_attrs("i".to_string(), &PrimitiveFieldValue::SignedInteger(-5), &mut attrs);
    pfv_attrs("s".to_string(), &PrimitiveFieldValue::String("text".to_string()), &mut attrs);
    pfv_attrs("f".to_string(), &PrimitiveFieldValue::F32(1.5f32.to_bits()), &mut attrs);
    pfv_attrs("d".to_string(), &PrimitiveFieldValue::F64((-2.25f64).to_bits()), &mut attrs);
    assert_eq!(
        attrs,
        vec![
            convert_attr("u", AttrVal::Unsigned(u64::MAX)),
            convert_attr("i", AttrVal::Integer(-5)),
            convert_attr("s", convert_text("text")),
            convert_attr("f", AttrVal::F32(0x3fc0_0000)),
            convert_attr("d", AttrVal::F64(0xc002_0000_0000_0000)),
        ]
    );
}

#[test]
fn pfv_attrs_appends_to_what_is_there() {
    let mut attrs = vec![convert_attr("first", AttrVal::Bool(true))];
    pfv_attrs("n".to_string(), &PrimitiveFieldValue::UnsignedInteger(1), &mut attrs);
    assert_eq!(
        attrs,
        vec![convert_attr("first", AttrVal::Bool(true)), convert_attr("n", AttrVal::Unsigned(1))]
    );
}

#[test]
fn enumeration_with_label_gives_container_and_label() {
    let mut attrs = Vec::new();
    pfv_attrs(
        "state".to_string(),
        &PrimitiveFieldValue::Enumeration(2, Some("RUNNING".to_string())),
        &mut attrs,
    );
    assert_eq!(
        attrs,
        vec![
            convert_attr("state.container", AttrVal::Integer(2)),
            convert_attr("state", convert_text("RUNNING")),
        ]
    );
}

#[test]
fn enumeration_without_label_gives_only_container() {
    let mut attrs = Vec::new();
    pfv_attrs("state".to_string(), &PrimitiveFieldValue::Enumeration(-7, None), &mut attrs);
    assert_eq!(attrs, vec![convert_attr("state.container", AttrVal::Integer(-7))]);
    assert!(attrs.iter().all(|(k, _)| k != "state"));
}

#[test]
fn array_of_fifteen_gives_ten_attributes() {
    let elems: Vec<PrimitiveFieldValue> =
        (0..15u64).map(|i| PrimitiveFieldValue::UnsignedInteger(100 + i)).collect();
    let mut attrs = Vec::new();
    fv_attrs(None, "samples", &FieldValue::Array(elems), &mut attrs);
    assert_eq!(attrs.len(), 10);
    assert_eq!(MAX_ARRAY_LEN, 10);
    for (i, (k, v)) in attrs.iter().enumerate() {
        assert_eq!(k, &format!("samples.array.{}", i));
        assert_eq!(v, &AttrVal::Unsigned(100 + i as u64));
    }
    assert!(attrs.iter().all(|(k, _)| k != "samples.array.10"));
}

#[test]
fn short_array_gives_all_elements_in_order() {
    let elems = vec![
        PrimitiveFieldValue::SignedInteger(-1),
        PrimitiveFieldValue::String("two".to_string()),
        PrimitiveFieldValue::Enumeration(3, Some("THREE".to_string())),
    ];
    let mut attrs = Vec::new();
    fv_attrs(Some("common_context"), "arr", &FieldValue::Array(elems), &mut attrs);
    assert_eq!(
        attrs,
        vec![
            convert_attr("common_context.arr.array.0", AttrVal::Integer(-1)),
            convert_attr("common_context.arr.array.1", convert_text("two")),
            convert_attr("common_context.arr.array.2.container", AttrVal::Integer(3)),
            convert_attr("common_context.arr.array.2", convert_text("THREE")),
        ]
    );
}

#[test]
fn array_of_exactly_ten_and_empty_array() {
    let elems: Vec<PrimitiveFieldValue> =
        (0..10u64).map(PrimitiveFieldValue::UnsignedInteger).collect();
    let mut attrs = Vec::new();
    fv_attrs(None, "a", &FieldValue::Array(elems), &mut attrs);
    assert_eq!(attrs.len(), 10);
    assert_eq!(attrs[9], convert_attr("a.array.9", AttrVal::Unsigned(9)));

    let mut none = Vec::new();
    fv_attrs(None, "a", &FieldValue::Array(vec![]), &mut none);
    assert!(none.is_empty());
}

#[test]
fn array_of_enumerations_is_capped_by_elements() {
    let elems: Vec<PrimitiveFieldValue> = (0..12i64)
        .map(|i| PrimitiveFieldValue::Enumeration(i, Some(format!("L{}", i))))
        .collect();
    let mut attrs = Vec::new();
    fv_attrs(None, "e", &FieldValue::Array(elems), &mut attrs);
    assert_eq!(attrs.len(), 20);
    assert_eq!(attrs[18], convert_attr("e.array.9.container", AttrVal::Integer(9)));
    assert_eq!(attrs[19], convert_attr("e.array.9", convert_text("L9")));
}

#[test]
fn primitive_field_uses_prefixed_key() {
    let mut attrs = Vec::new();
    fv_attrs(
        Some("specific_context"),
        "level",
        &FieldValue::Primitive(PrimitiveFieldValue::UnsignedInteger(9)),
        &mut attrs,
    );
    assert_eq!(attrs, vec![convert_attr("specific_context.level", AttrVal::Unsigned(9))]);
}

#[test]
fn frequency_of_zero_is_unusable() {
    assert_eq!(convert_clock(0).frequency(), None);
    assert_eq!(convert_clock(0).timestamp_ns(12345), None);
    assert_eq!(convert_clock(1).frequency(), Some(1));
    assert_eq!(convert_clock(u64::MAX).frequency(), Some(u64::MAX));
}

#[test]
fn timestamp_ns_scales_by_frequency() {
    assert_eq!(ONE_SECOND, 1_000_000_000);
    assert_eq!(convert_clock(1_000_000_000).timestamp_ns(42), Some(42));
    assert_eq!(convert_clock(1_000_000).timestamp_ns(1_000), Some(1_000_000));
    assert_eq!(convert_clock(3).timestamp_ns(1), Some(333_333_333));
    assert_eq!(convert_clock(32_768).timestamp_ns(32_768), Some(1_000_000_000));
    assert_eq!(convert_clock(7).timestamp_ns(0), Some(0));
}

#[test]
fn timestamp_ns_uses_wide_intermediate() {
    // u64::MAX cycles at 1 GHz: the product does not fit 64 bits, the result does.
    assert_eq!(convert_clock(1_000_000_000).timestamp_ns(u64::MAX), Some(u64::MAX));
    // 2^40 cycles at 1 Hz: the quotient is 2^40 * 10^9, reduced to its low 64 bits.
    let wide: u128 = (1u128 << 40) * 1_000_000_000u128;
    assert_eq!(convert_clock(1).timestamp_ns(1 << 40), Some((wide % (1u128 << 64)) as u64));
}

#[test]
fn clock_timeline_attrs_full() {
    let clock = ClockType {
        frequency: 1_000_000,
        offset: Some(ClockTypeOffset { seconds: -3, cycles: 17 }),
        origin_is_unix_epoch: true,
        precision: 2,
        uuid: Some(0xbec14bc0_1dea_4b68_b138_62f7b6827e35),
        description: Some("system clock".to_string()),
        c_type: "uint32_t".to_string(),
    };
    assert_eq!(
        clock.timeline_attrs(),
        vec![
            convert_attr("clock.frequency", AttrVal::Unsigned(1_000_000)),
            convert_attr("clock.offset.seconds", AttrVal::Integer(-3)),
            convert_attr("clock.offset.cycles", AttrVal::Unsigned(17)),
            convert_attr("clock.origin_is_unix_epoch", AttrVal::Bool(true)),
            convert_attr("clock.precision", AttrVal::Unsigned(2)),
            convert_attr("clock.uuid", convert_text("bec14bc0-1dea-4b68-b138-62f7b6827e35")),
            convert_attr("clock.description", convert_text("system clock")),
            convert_attr("clock.c_type", convert_text("uint32_t")),
            convert_attr("clock_style", convert_text("absolute")),
        ]
    );
}

#[test]
fn clock_timeline_attrs_minimal() {
    assert_eq!(
        convert_clock(0).timeline_attrs(),
        vec![
            convert_attr("clock.frequency", AttrVal::Unsigned(0)),
            convert_attr("clock.origin_is_unix_epoch", AttrVal::Bool(false)),
            convert_attr("clock.precision", AttrVal::Unsigned(0)),
            convert_attr("clock.c_type", convert_text("uint64_t")),
            convert_attr("clock_style", convert_text("relative")),
        ]
    );
}

#[test]
fn trace_timeline_attrs_from_environment() {
    let trace = Trace {
        environment: vec![
            ("app".to_string(), EnvironmentValue::String("demo".to_string())),
            ("neg".to_string(), EnvironmentValue::Number { signed: Some(-4), unsigned: None }),
            ("both".to_string(), EnvironmentValue::Number { signed: Some(4), unsigned: Some(4) }),
            (
                "big".to_string(),
                EnvironmentValue::Number { signed: None, unsigned: Some(u64::MAX) },
            ),
            ("real".to_string(), EnvironmentValue::Number { signed: None, unsigned: None }),
            ("list".to_string(), EnvironmentValue::Other),
        ],
        clock_types: vec![],
        data_stream_types: vec![("default".to_string(), DataStreamType { timestamp_size_bits: 32 })],
    };
    assert_eq!(
        trace.timeline_attrs(),
        vec![
            convert_attr("environment.app", convert_text("demo")),
            convert_attr("environment.neg", AttrVal::Integer(-4)),
            convert_attr("environment.both", AttrVal::Integer(4)),
            convert_attr("environment.big", AttrVal::Unsigned(u64::MAX)),
        ]
    );
}

#[test]
fn header_event_attrs_with_and_without_trace_uuid() {
    let mut header = PacketHeader {
        trace_uuid: Some(1),
        stream_id: 5,
        stream_name: "default".to_string(),
        clock_name: None,
        clock_type: None,
    };
    assert_eq!(
        header.event_attrs(),
        vec![
            convert_attr(
                "packet_header.trace_uuid",
                convert_text("00000000-0000-0000-0000-000000000001")
            ),
            convert_attr("packet_header.stream.id", AttrVal::Unsigned(5)),
            convert_attr("packet_header.stream.name", convert_text("default")),
        ]
    );
    header.trace_uuid = None;
    assert_eq!(
        header.event_attrs(),
        vec![
            convert_attr("packet_header.stream.id", AttrVal::Unsigned(5)),
            convert_attr("packet_header.stream.name", convert_text("default")),
        ]
    );
}

#[test]
fn uuid_text_is_hyphenated_lower_case() {
    let header = PacketHeader {
        trace_uuid: Some(0x79E4_9040_21B5_42D4_A83B_646F78666B62),
        stream_id: 0,
        stream_name: String::new(),
        clock_name: None,
        clock_type: None,
    };
    assert_eq!(
        header.event_attrs()[0],
        convert_attr("packet_header.trace_uuid", convert_text("79e49040-21b5-42d4-a83b-646f78666b62"))
    );
}

#[test]
fn context_event_attrs_sizes_and_options() {
    let context = PacketContext {
        packet_size_bits: 4099,
        content_size_bits: 801,
        beginning_timestamp: Some(10),
        end_timestamp: None,
        events_discarded: Some(0),
        sequence_number: Some(9),
        extra_members: vec![(
            "cpu".to_string(),
            FieldValue::Primitive(PrimitiveFieldValue::UnsignedInteger(1)),
        )],
    };
    assert_eq!(context.packet_size(), 512);
    assert_eq!(context.content_size(), 100);
    assert_eq!(
        context.event_attrs(),
        vec![
            convert_attr("packet_context.packet_size.bits", AttrVal::Unsigned(4099)),
            convert_attr("packet_context.packet_size.bytes", AttrVal::Unsigned(512)),
            convert_attr("packet_context.content_size.bits", AttrVal::Unsigned(801)),
            convert_attr("packet_context.content_size.bytes", AttrVal::Unsigned(100)),
            convert_attr("packet_context.beginning_timestamp", AttrVal::Unsigned(10)),
            convert_attr("packet_context.events_discarded", AttrVal::Unsigned(0)),
            convert_attr("packet_context.sequence_number", AttrVal::Unsigned(9)),
            convert_attr("packet_context.cpu", AttrVal::Unsigned(1)),
        ]
    );
}

#[test]
fn event_attrs_groups_in_order() {
    let event = Event {
        id: 8,
        name: "sample".to_string(),
        timestamp: 1234,
        log_level: Some(LogLevel::Info),
        common_context: vec![(
            "cc".to_string(),
            FieldValue::Primitive(PrimitiveFieldValue::SignedInteger(-1)),
        )],
        specific_context: vec![(
            "sc".to_string(),
            FieldValue::Primitive(PrimitiveFieldValue::String("s".to_string())),
        )],
        payload: vec![
            ("p".to_string(), FieldValue::Primitive(PrimitiveFieldValue::UnsignedInteger(2))),
            (
                "q".to_string(),
                FieldValue::Array(vec![PrimitiveFieldValue::UnsignedInteger(3)]),
            ),
        ],
    };
    let mut expected = convert_base("sample", 8, 1234);
    expected.extend(vec![
        convert_attr("log_level", convert_text("INFO")),
        convert_attr("common_context.cc", AttrVal::Integer(-1)),
        convert_attr("specific_context.sc", convert_text("s")),
        convert_attr("p", AttrVal::Unsigned(2)),
        convert_attr("q.array.0", AttrVal::Unsigned(3)),
    ]);
    assert_eq!(event.event_attrs(), expected);
}

#[test]
fn event_without_log_level_has_no_log_level_attribute() {
    let attrs = convert_event(vec![]).event_attrs();
    assert_eq!(attrs, convert_base("ev", 3, 77));
}

#[test]
fn named_log_levels_are_rendered_as_labels() {
    let cases = [
        (LogLevel::Emergency, "EMERG"),
        (LogLevel::Alert, "ALERT"),
        (LogLevel::Critical, "CRIT"),
        (LogLevel::Error, "ERR"),
        (LogLevel::Warning, "WARNING"),
        (LogLevel::Notice, "NOTICE"),
        (LogLevel::Info, "INFO"),
        (LogLevel::DebugSystem, "DEBUG_SYSTEM"),
        (LogLevel::DebugProgram, "DEBUG_PROGRAM"),
        (LogLevel::DebugProcess, "DEBUG_PROCESS"),
        (LogLevel::DebugModule, "DEBUG_MODULE"),
        (LogLevel::DebugUnit, "DEBUG_UNIT"),
        (LogLevel::DebugFunction, "DEBUG_FUNCTION"),
        (LogLevel::DebugLine, "DEBUG_LINE"),
        (LogLevel::Debug, "DEBUG"),
    ];
    for (level, label) in cases {
        let mut event = convert_event(vec![]);
        event.log_level = Some(level);
        assert_eq!(event.event_attrs()[4], convert_attr("log_level", convert_text(label)));
    }
}

#[test]
fn unnamed_log_level_is_rendered_as_number() {
    let mut event = convert_event(vec![]);
    event.log_level = Some(LogLevel::Other(42));
    assert_eq!(event.event_attrs()[4], convert_attr("log_level", AttrVal::Integer(42)));
    event.log_level = Some(LogLevel::Other(-1));
    assert_eq!(event.event_attrs()[4], convert_attr("log_level", AttrVal::Integer(-1)));
}

#[test]
fn log_level_codes() {
    assert_eq!(LogLevel::Emergency.code(), 0);
    assert_eq!(LogLevel::Info.code(), 6);
    assert_eq!(LogLevel::Debug.code(), 14);
    assert_eq!(LogLevel::Other(99).code(), 99);
}
