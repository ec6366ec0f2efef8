use std::cell::RefCell;
use win_etw::data_descriptor::EventDataDescriptor;
use win_etw::metadata::Level;
use win_etw::provider::{EventDescriptor, EventOptions, Provider};
use win_etw::subscriber::{
    build_traced_metadata, build_traced_options, ActivityId, DeferredValue, DeferredValues, EventData, TraceLevel,
    TracelogSubscriber, WINEVENT_OPCODE_INFO, WINEVENT_OPCODE_START, WINEVENT_OPCODE_STOP,
};
use win_etw::GUID;

struct Written {
    activity_id: Option<GUID>,
    related_activity_id: Option<GUID>,
    level: u8,
    opcode: u8,
    channel: u8,
    keyword: u64,
    data: Vec<(u32, Vec<u8>)>,
}

struct Recorder {
    max_level: u8,
    writes: RefCell<Vec<Written>>,
}

impl Recorder {
    fn new(max_level: u8) -> Recorder {
        Recorder { max_level, writes: RefCell::new(Vec::new()) }
    }
}

impl Provider for &Recorder {
    fn write(
        &self,
        options: Option<&EventOptions>,
        descriptor: &EventDescriptor,
        data: &[EventDataDescriptor<'_>],
    ) {
        self.writes.borrow_mut().push(Written {
            activity_id: options.and_then(|o| o.activity_id.clone()),
            related_activity_id: options.and_then(|o| o.related_activity_id.clone()),
            level: descriptor.level.0,
            opcode: descriptor.opcode,
            channel: descriptor.channel,
            keyword: descriptor.keyword,
            data: data.iter().map(|d| (d.kind(), d.data().to_vec())).collect(),
        });
    }

    fn is_enabled(&self, level: u8, _keyword: u64) -> bool {
        level <= self.max_level
    }

    fn is_event_enabled(&self, event_descriptor: &EventDescriptor) -> bool {
        event_descriptor.level.0 <= self.max_level
    }
}

fn provider_guid() -> GUID {
    GUID {
        data1: 0xe1c71d95,
        data2: 0x7bbc,
        data3: 0x5f48,
        data4: [0xa9, 0x2b, 0x8a, 0xaa, 0x0b, 0x52, 0x91, 0x58],
    }
}

const TARGET: &str = "subscriber_tests";

#[test]
fn basic() {
    let recorder = Recorder::new(255);
    let layer = TracelogSubscriber::new(&recorder);
    let options = EventOptions::default();

    // An informational event with two numbers, a message and a text.
    let mut fields = EventData::new(false);
    fields.record_i64("foo", 123);
    fields.record_i64("bar", 456);
    fields.record_debug("message", "hi what");
    fields.record_str("baz", "what");
    assert!(layer.write_recorded(
        WINEVENT_OPCODE_INFO,
        &options,
        true,
        TraceLevel::Info,
        TARGET,
        b"hi what",
        &fields,
    ));

    // An error with a boolean and the debug text of an identifier.
    let mut fields = EventData::new(false);
    fields.record_bool("foo", true);
    fields.record_debug("bar", &provider_guid().to_string());
    assert!(layer.write_recorded(
        WINEVENT_OPCODE_INFO,
        &options,
        true,
        TraceLevel::Error,
        TARGET,
        b"",
        &fields,
    ));

    // An error with the chain of an error.
    let mut fields = EventData::new(false);
    fields.record_error(
        "error",
        "this thing failed",
        &vec!["really failed".to_string(), "failed".to_string()],
    );
    fields.record_debug("message", "disaster");
    assert!(layer.write_recorded(
        WINEVENT_OPCODE_INFO,
        &options,
        true,
        TraceLevel::Error,
        TARGET,
        b"disaster",
        &fields,
    ));

    let writes = recorder.writes.borrow();
    assert_eq!(writes.len(), 3);
    assert_eq!((writes[0].level, writes[0].opcode, writes[0].channel), (4, 0, 11));
    assert_eq!(writes[1].level, 2);
    let mut metadata: Vec<u8> = vec![0, 0, 0];
    metadata.extend_from_slice(b"hi what\0target\0");
    metadata.extend_from_slice(&[0x97, 35]);
    metadata.extend_from_slice(b"foo\0\x09bar\0\x09baz\0\x82\x23");
    metadata[0] = metadata.len() as u8;
    let mut data: Vec<u8> = Vec::new();
    data.extend_from_slice(&123i64.to_le_bytes());
    data.extend_from_slice(&456i64.to_le_bytes());
    data.extend_from_slice(b"what\0");
    assert_eq!(
        writes[0].data,
        vec![
            (1, metadata),
            (0, vec![TARGET.len() as u8, 0]),
            (0, TARGET.as_bytes().to_vec()),
            (0, data),
        ]
    );
    let mut data: Vec<u8> = vec![1];
    data.extend_from_slice(b"e1c71d95-7bbc-5f48-a92b-8aaa0b529158\0");
    assert_eq!(writes[1].data[3], (0, data));
    assert_eq!(
        writes[2].data[3],
        (0, b"this thing failed: really failed: failed\0".to_vec())
    );
}

#[test]
fn span() {
    let recorder = Recorder::new(255);
    let layer = TracelogSubscriber::new(&recorder);
    let geo = GUID::from("00000000-0000-0000-0000-000000000001");
    let dude = GUID::from("00000000-0000-0000-0000-000000000002");

    // The span "geo" starts.
    let mut fields = EventData::new(false);
    fields.record_i64("bar", 456);
    let options =
        EventOptions { activity_id: Some(geo.clone()), ..Default::default() };
    assert!(layer.write_recorded(
        WINEVENT_OPCODE_START,
        &options,
        true,
        TraceLevel::Info,
        TARGET,
        b"geo",
        &fields
    ));

    // The span "dude" starts within it.
    let mut fields = EventData::new(false);
    fields.record_i64("baz", 789);
    let options = EventOptions {
        activity_id: Some(dude.clone()),
        related_activity_id: Some(geo.clone()),
        ..Default::default()
    };
    assert!(layer.write_recorded(
        WINEVENT_OPCODE_START,
        &options,
        true,
        TraceLevel::Info,
        TARGET,
        b"dude",
        &fields
    ));

    // An event within the span, and two values that are recorded later.
    let mut fields = EventData::new(false);
    fields.record_debug("message", "test");
    let options = EventOptions { activity_id: Some(dude.clone()), ..Default::default() };
    assert!(layer.write_recorded(
        WINEVENT_OPCODE_INFO,
        &options,
        true,
        TraceLevel::Info,
        TARGET,
        b"test",
        &fields
    ));
    let mut deferred = DeferredValues::default();
    deferred.update("later", DeferredValue::Boolean(true));
    deferred.update("later", DeferredValue::String("wait no it's a string now".to_string()));
    assert_eq!(deferred.values.len(), 1);

    // The spans end; the first carries what was recorded later.
    let mut fields = EventData::new(false);
    deferred.record(&mut fields);
    assert!(layer.write_recorded(
        WINEVENT_OPCODE_STOP,
        &options,
        false,
        TraceLevel::Info,
        TARGET,
        b"dude",
        &fields
    ));
    let options = EventOptions { activity_id: Some(geo.clone()), ..Default::default() };
    assert!(layer.write_recorded(
        WINEVENT_OPCODE_STOP,
        &options,
        false,
        TraceLevel::Info,
        TARGET,
        b"geo",
        &EventData::new(false)
    ));

    let writes = recorder.writes.borrow();
    let opcodes: Vec<u8> = writes.iter().map(|w| w.opcode).collect();
    assert_eq!(opcodes, vec![1, 1, 0, 2, 2]);
    assert_eq!(writes[1].activity_id, Some(dude));
    assert_eq!(writes[1].related_activity_id, Some(geo));
    assert_eq!(writes[0].related_activity_id, None);
    // The end of a span carries no target: its metadata and its data.
    let mut metadata: Vec<u8> = vec![0, 0, 0];
    metadata.extend_from_slice(b"dude\0later\0\x82\x23");
    metadata[0] = metadata.len() as u8;
    assert_eq!(
        writes[3].data,
        vec![(1, metadata), (0, b"wait no it's a string now\0".to_vec())]
    );
    assert_eq!(writes[4].data, vec![(1, vec![7, 0, 0, b'g', b'e', b'o', 0]), (0, vec![])]);
}

#[test]
fn global() {
    let recorder = Recorder::new(255);
    let mut layer = TracelogSubscriber::new(&recorder);
    let options = EventOptions::default();
    let write = |layer: &TracelogSubscriber<&Recorder>, value: i64, name: &[u8]| {
        let mut fields = EventData::new(false);
        fields.record_i64("a_field", value);
        assert!(layer.write_recorded(
            WINEVENT_OPCODE_INFO,
            &options,
            true,
            TraceLevel::Info,
            TARGET,
            name,
            &fields
        ));
    };
    write(&layer, 123, b"test globals");
    let global = vec![("global", "some value")];
    layer.set_global_fields(&global);
    write(&layer, 456, b"test globals modify");
    let mut fields = EventData::new(false);
    fields.record_str("span_field", "abc");
    assert!(layer.write_recorded(
        WINEVENT_OPCODE_START,
        &options,
        true,
        TraceLevel::Info,
        TARGET,
        b"span with globals",
        &fields
    ));
    let global = vec![("global", "new value"), ("global2", "value")];
    layer.set_global_fields(&global);
    write(&layer, 789, b"test globals modify again");

    let writes = recorder.writes.borrow();
    assert_eq!(writes.len(), 4);
    let data = |index: usize| writes[index].data[3].1.clone();
    assert_eq!(data(0), 123i64.to_le_bytes().to_vec());
    assert_eq!(data(1), [&b"some value\0"[..], &456i64.to_le_bytes()[..]].concat());
    assert_eq!(data(2), b"some value\0abc\0".to_vec());
    assert_eq!(data(3), [&b"new value\0value\0"[..], &789i64.to_le_bytes()[..]].concat());
    let mut metadata: Vec<u8> = vec![0, 0, 0];
    metadata.extend_from_slice(b"test globals modify again\0target\0\x97\x23");
    metadata.extend_from_slice(b"global\0\x82\x23global2\0\x82\x23a_field\0\x09");
    metadata[0] = metadata.len() as u8;
    assert_eq!(writes[3].data[0], (1, metadata));
}

#[test]
fn levels_and_keywords() {
    let recorder = Recorder::new(255);
    let mut layer = TracelogSubscriber::new(&recorder);
    let levels = [
        (TraceLevel::Error, 2),
        (TraceLevel::Warn, 3),
        (TraceLevel::Info, 4),
        (TraceLevel::Debug, 5),
        (TraceLevel::Trace, 5),
    ];
    for (level, expected) in levels {
        let d = layer.event_descriptor(7, level);
        assert_eq!(d.level, Level(expected));
        assert_eq!((d.id, d.version, d.channel, d.opcode, d.task, d.keyword), (0, 0, 11, 7, 0, 0));
    }
    layer.set_trace_keyword(0x0000_2000_0000_0010);
    assert_eq!(layer.event_descriptor(0, TraceLevel::Trace).keyword, 0x0000_2000_0000_0010);
    assert_eq!(layer.event_descriptor(0, TraceLevel::Debug).keyword, 0);
    layer.enable_telemetry_events(false);
    assert_eq!(layer.event_descriptor(0, TraceLevel::Trace).keyword, 0x10);
    assert_eq!(layer.filter_keyword(u64::MAX), 0xffff_1fff_ffff_ffff);
    assert_eq!(layer.filter_keyword(0x0000_e000_0000_0000), 0);
    layer.enable_telemetry_events(true);
    assert_eq!(layer.filter_keyword(u64::MAX), u64::MAX);
    assert_eq!(layer.event_descriptor(0, TraceLevel::Trace).keyword, 0x0000_2000_0000_0010);
}

#[test]
fn disabled_traced_events_are_not_written() {
    let recorder = Recorder::new(Level::warn().0);
    let layer = TracelogSubscriber::new(&recorder);
    assert!(layer.is_enabled(0, TraceLevel::Error));
    assert!(layer.is_enabled(0, TraceLevel::Warn));
    assert!(!layer.is_enabled(0, TraceLevel::Info));
    let written = layer.write_recorded(
        0,
        &EventOptions::default(),
        true,
        TraceLevel::Info,
        TARGET,
        b"quiet",
        &EventData::new(false),
    );
    assert!(!written);
    assert_eq!(recorder.writes.borrow().len(), 0);
}

#[test]
fn recorded_fields() {
    let mut fields = EventData::new(false);
    assert!(fields.write_name("name"));
    assert_eq!(fields.metadata, b"name\0");
    assert!(!fields.write_name("message"));
    assert!(fields.write_name("log.target"));
    assert_eq!(fields.metadata, b"name\0log.target\0");
    assert!(fields.data.is_empty());

    let mut fields = EventData::new(true);
    assert!(!fields.write_name("log.target"));
    assert!(!fields.write_name("log."));
    assert!(fields.write_name("log"));
    assert!(fields.write_name("logs.x"));
    assert!(!fields.write_name("message"));
    assert_eq!(fields.metadata, b"log\0logs.x\0");

    let mut fields = EventData::new(false);
    fields.record_u64("u", 0x0102030405060708);
    assert_eq!(fields.metadata, b"u\0\x8a\x04");
    assert_eq!(fields.data, vec![8, 7, 6, 5, 4, 3, 2, 1]);
    fields.record_i64("i", -2);
    assert_eq!(fields.metadata, b"u\0\x8a\x04i\0\x09");
    assert_eq!(fields.data[8..], (-2i64).to_le_bytes());
    fields.record_bool("b", true);
    fields.record_bool("c", false);
    assert_eq!(fields.metadata, b"u\0\x8a\x04i\0\x09b\0\x84\x03c\0\x84\x03");
    assert_eq!(fields.data[16..], [1, 0]);
    fields.record_global("g", "v");
    fields.record_str("s", "w");
    fields.record_debug("d", "x");
    fields.record_error("e", "y", &Vec::new());
    assert_eq!(fields.data[18..], *b"v\0w\0x\0y\0");
    let before = (fields.metadata.clone(), fields.data.clone());
    fields.record_u64("message", 1);
    fields.record_i64("message", 1);
    fields.record_bool("message", true);
    fields.record_str("message", "m");
    fields.record_error("message", "m", &vec!["n".to_string()]);
    fields.record_field("message", &[1], &[2]);
    assert_eq!((fields.metadata.clone(), fields.data.clone()), before);
    fields.record_field("raw", &[0x0e], &[9, 9]);
    assert_eq!(fields.metadata[before.0.len()..], *b"raw\0\x0e");
    assert_eq!(fields.data[before.1.len()..], [9, 9]);
}

#[test]
fn deferred_values_keep_their_first_place() {
    let mut deferred = DeferredValues::default();
    deferred.update("a", DeferredValue::Unsigned(1));
    deferred.update("b", DeferredValue::Signed(-1));
    deferred.update("c", DeferredValue::Boolean(false));
    deferred.update("a", DeferredValue::String("one".to_string()));
    deferred.update("d", DeferredValue::Unsigned(4));
    deferred.update("c", DeferredValue::Boolean(true));
    let names: Vec<&str> = deferred.values.iter().map(|f| f.name.as_str()).collect();
    assert_eq!(names, vec!["a", "b", "c", "d"]);
    let mut fields = EventData::new(false);
    deferred.record(&mut fields);
    assert_eq!(fields.metadata, b"a\0\x82\x23b\0\x09c\0\x84\x03d\0\x8a\x04");
    let mut data = b"one\0".to_vec();
    data.extend_from_slice(&(-1i64).to_le_bytes());
    data.push(1);
    data.extend_from_slice(&4u64.to_le_bytes());
    assert_eq!(fields.data, data);
}

#[test]
fn traced_metadata_length_is_cut_to_sixteen_bits() {
    assert_eq!(build_traced_metadata(false, b"n", b"", b""), vec![5, 0, 0, b'n', 0]);
    assert_eq!(
        build_traced_metadata(true, b"", b"g", b"r"),
        vec![15, 0, 0, 0, b't', b'a', b'r', b'g', b'e', b't', 0, 0x97, 35, b'g', b'r']
    );
    let long = vec![b'x'; 0x1_0000];
    let blob = build_traced_metadata(false, &long, b"", b"");
    assert_eq!(blob.len(), 0x1_0004);
    assert_eq!(&blob[..2], &[4, 0]);
}

#[test]
fn the_length_of_the_target_is_cut_to_sixteen_bits() {
    let recorder = Recorder::new(255);
    let layer = TracelogSubscriber::new(&recorder);
    let target = "t".repeat(0x1_0001);
    assert!(layer.write_recorded(
        0,
        &EventOptions::default(),
        true,
        TraceLevel::Error,
        &target,
        b"n",
        &EventData::new(false)
    ));
    let writes = recorder.writes.borrow();
    assert_eq!(writes[0].data[1].1, vec![1, 0]);
    assert_eq!(writes[0].data[2].1.len(), 0x1_0001);
}

#[test]
fn activity_ids() {
    assert!(ActivityId::new().is_err());
    assert!(ActivityId::from_current_thread().is_err());
    assert!(ActivityId::default().0.is_nil());
    let id = ActivityId::from_current_thread().unwrap_or_default();
    assert_eq!(id.0, GUID::default());
}

#[test]
fn a_traced_event_is_recorded_only_where_it_is_enabled() {
    let recorder = Recorder::new(Level::warn().0);
    let layer = TracelogSubscriber::new(&recorder);
    let mut named = 0;
    let mut recorded = 0;
    let written = layer.write_event(
        WINEVENT_OPCODE_INFO,
        &EventOptions::default(),
        true,
        TraceLevel::Info,
        TARGET,
        |name| {
            named += 1;
            name.extend_from_slice(b"quiet");
        },
        |fields| {
            recorded += 1;
            fields.record_u64("n", 1);
        },
    );
    assert!(!written);
    assert_eq!((named, recorded), (0, 0));
    assert_eq!(recorder.writes.borrow().len(), 0);
    let written = layer.write_event(
        WINEVENT_OPCODE_INFO,
        &EventOptions::default(),
        false,
        TraceLevel::Error,
        TARGET,
        |name| {
            named += 1;
            name.extend_from_slice(b"loud");
        },
        |fields| {
            recorded += 1;
            fields.record_u64("n", 1);
        },
    );
    assert!(written);
    assert_eq!((named, recorded), (1, 1));
    let writes = recorder.writes.borrow();
    assert_eq!(
        writes[0].data,
        vec![
            (1, vec![12, 0, 0, b'l', b'o', b'u', b'd', 0, b'n', 0, 0x8a, 4]),
            (0, vec![1, 0, 0, 0, 0, 0, 0, 0]),
        ]
    );
}

#[test]
fn log_fields_are_left_out_where_asked() {
    let recorder = Recorder::new(255);
    let mut layer = TracelogSubscriber::new(&recorder);
    layer.set_skip_log_fields(true);
    assert!(layer.write_event(
        WINEVENT_OPCODE_INFO,
        &EventOptions::default(),
        false,
        TraceLevel::Error,
        TARGET,
        |name| name.push(b'e'),
        |fields| {
            fields.record_str("log.target", "t");
            fields.record_str("kept", "k");
        },
    ));
    let writes = recorder.writes.borrow();
    assert_eq!(writes[0].data[1], (0, b"k\0".to_vec()));
}

#[test]
fn spans_start_and_end_with_their_activity() {
    let recorder = Recorder::new(255);
    let layer = TracelogSubscriber::new(&recorder);
    let parent = ActivityId(GUID::from("00000000-0000-0000-0000-000000000001"));
    let child = ActivityId(GUID::from("00000000-0000-0000-0000-000000000002"));
    assert!(layer.on_new_span(&child, Some(&parent), TraceLevel::Info, TARGET, "dude", |fields| {
        fields.record_i64("baz", 789)
    }));
    assert!(layer.on_event(
        Some(&child),
        TraceLevel::Warn,
        TARGET,
        |name| name.extend_from_slice(b"test"),
        |fields| fields.record_bool("ok", true),
    ));
    assert!(layer.on_event(
        None,
        TraceLevel::Error,
        TARGET,
        |name| name.extend_from_slice(b"alone"),
        |_fields| {},
    ));
    let mut deferred = DeferredValues::default();
    deferred.update("later", DeferredValue::Boolean(true));
    assert!(layer.on_close(&child, TraceLevel::Info, TARGET, "dude", Some(&deferred)));
    assert!(layer.on_close(&parent, TraceLevel::Info, TARGET, "geo", None));

    let writes = recorder.writes.borrow();
    let seen: Vec<(u8, u8, Option<GUID>, Option<GUID>, usize)> = writes
        .iter()
        .map(|w| {
            (w.opcode, w.level, w.activity_id.clone(), w.related_activity_id.clone(), w.data.len())
        })
        .collect();
    assert_eq!(
        seen,
        vec![
            (1, 4, Some(child.0.clone()), Some(parent.0.clone()), 4),
            (0, 3, Some(child.0.clone()), None, 4),
            (0, 2, None, None, 4),
            (2, 4, Some(child.0.clone()), None, 2),
            (2, 4, Some(parent.0.clone()), None, 2),
        ]
    );
    assert_eq!(writes[0].data[3].1, 789i64.to_le_bytes().to_vec());
    assert_eq!(writes[3].data[1].1, vec![1]);
    assert_eq!(writes[3].data[0].1[3..], *b"dude\0later\0\x84\x03");
}

#[test]
fn disabled_spans_record_nothing() {
    let recorder = Recorder::new(Level::error().0);
    let layer = TracelogSubscriber::new(&recorder);
    let id = ActivityId::default();
    let mut recorded = 0;
    assert!(!layer.on_new_span(&id, None, TraceLevel::Info, TARGET, "quiet", |_fields| {
        recorded += 1;
    }));
    assert!(!layer.on_event(Some(&id), TraceLevel::Info, TARGET, |_name| {}, |_fields| {}));
    assert!(!layer.on_close(&id, TraceLevel::Info, TARGET, "quiet", None));
    assert_eq!(recorded, 0);
    assert_eq!(recorder.writes.borrow().len(), 0);
}

#[test]
fn a_traced_event_is_built_with_its_slots_in_order() {
    let recorder = Recorder::new(255);
    let mut layer = TracelogSubscriber::new(&recorder);
    layer.set_global_fields(&[("g", "v")]);
    let mut fields = EventData::new(false);
    fields.record_u64("n", 7);

    let with_target = layer.build_event(true, "here", b"name", &fields);
    assert_eq!(
        with_target.metadata,
        build_traced_metadata(true, b"name", b"g\0\x82\x23", b"n\0\x8a\x04")
    );
    let mut data = b"v\0".to_vec();
    data.extend_from_slice(&7u64.to_le_bytes());
    assert_eq!(with_target.slots, vec![vec![4, 0], b"here".to_vec(), data.clone()]);
    let handed = with_target.descriptors();
    let seen: Vec<(u32, Vec<u8>)> = handed.iter().map(|d| (d.kind(), d.data().to_vec())).collect();
    assert_eq!(
        seen,
        vec![
            (1, with_target.metadata.clone()),
            (0, vec![4, 0]),
            (0, b"here".to_vec()),
            (0, data.clone())
        ]
    );

    let without_target = layer.build_event(false, "here", b"name", &fields);
    assert_eq!(
        without_target.metadata,
        build_traced_metadata(false, b"name", b"g\0\x82\x23", b"n\0\x8a\x04")
    );
    assert_eq!(without_target.slots, vec![data]);
    assert_eq!(without_target.descriptors().len(), 2);
}

#[test]
fn the_options_of_a_traced_event_carry_its_activities() {
    let one = ActivityId(provider_guid());
    let other = ActivityId(GUID { data1: 1, data2: 2, data3: 3, data4: [4; 8] });
    let both = build_traced_options(Some(&one), Some(&other));
    assert_eq!(both.level, None);
    assert_eq!(both.activity_id, Some(one.0.clone()));
    assert_eq!(both.related_activity_id, Some(other.0.clone()));
    let alone = build_traced_options(Some(&other), None);
    assert_eq!(alone.activity_id, Some(other.0.clone()));
    assert_eq!(alone.related_activity_id, None);
    let none = build_traced_options(None, None);
    assert_eq!((none.level, none.activity_id, none.related_activity_id), (None, None, None));
}
