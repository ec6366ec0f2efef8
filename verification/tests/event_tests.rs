use std::cell::{Cell, RefCell};
use win_etw::data_descriptor::EventDataDescriptor;
use win_etw::event::{serialize_event, serialize_field, wire_form, ParamValue, WireForm};
use win_etw::metadata::{InFlag, Level};
use win_etw::model::{EventModel, ParamModel, ProviderModel};
use win_etw::provider::{
    activity_result, new_activity_id, status_result, Error, EventDescriptor, EventOptions, NullProvider, Provider,
};
use win_etw::surface::{
    event_descriptor, event_descriptors, event_payload, EventProvider, WriteOutcome,
};
use win_etw::types::{OutOfRangeError, SocketAddrV4, SocketAddrV6, FILETIME};
use win_etw::well_known_types::WellKnownType;
use win_etw::GUID;

/// A backend that lets events up to a level pass and keeps what it is handed.
struct Recorder {
    max_level: u8,
    asked: Cell<usize>,
    writes: RefCell<Vec<(Option<Level>, u16, u8, Vec<(u32, Vec<u8>)>)>>,
}

impl Recorder {
    fn new(max_level: u8) -> Recorder {
        Recorder { max_level, asked: Cell::new(0), writes: RefCell::new(Vec::new()) }
    }
}

impl Provider for &Recorder {
    fn write(
        &self,
        options: Option<&EventOptions>,
        descriptor: &EventDescriptor,
        data: &[EventDataDescriptor<'_>],
    ) {
        self.writes.borrow_mut().push((
            options.and_then(|o| o.level),
            descriptor.id,
            descriptor.level.0,
            data.iter().map(|d| (d.kind(), d.data().to_vec())).collect(),
        ));
    }

    fn is_enabled(&self, level: u8, _keyword: u64) -> bool {
        level <= self.max_level
    }

    fn is_event_enabled(&self, event_descriptor: &EventDescriptor) -> bool {
        self.asked.set(self.asked.get() + 1);
        event_descriptor.level.0 <= self.max_level
    }
}

fn field(name: &str, code: WellKnownType, is_slice: bool) -> ParamModel {
    ParamModel { name: name.to_string(), code, is_slice, output_hex: false }
}

fn event(name: &str, id: u16, level: Level, params: Vec<ParamModel>) -> EventModel {
    EventModel {
        name: name.to_string(),
        id,
        level,
        opcode: 3,
        task: 4,
        keyword: 5,
        doc: String::new(),
        params,
    }
}

fn model(events: Vec<EventModel>) -> ProviderModel {
    ProviderModel {
        name: "P".to_string(),
        guid: GUID::from("861A3948-3B6B-4DDF-B862-B2CB361E238E"),
        provider_group_guid: None,
        static_mode: false,
        events,
    }
}

fn slots(code: u8, is_slice: bool, value: ParamValue) -> Option<Vec<Vec<u8>>> {
    serialize_field(code, is_slice, &value)
}

#[test]
fn numbers_travel_least_significant_byte_first() {
    assert_eq!(slots(InFlag::UINT8, false, ParamValue::from_u8(0xab)), Some(vec![vec![0xab]]));
    assert_eq!(
        slots(InFlag::UINT16, false, ParamValue::from_u16(0x0809)),
        Some(vec![vec![0x09, 0x08]])
    );
    assert_eq!(
        slots(InFlag::UINT32, false, ParamValue::from_u32(0xcafef00d)),
        Some(vec![vec![0x0d, 0xf0, 0xfe, 0xca]])
    );
    assert_eq!(
        slots(InFlag::UINT64, false, ParamValue::from_u64(0x0102030405060708)),
        Some(vec![vec![8, 7, 6, 5, 4, 3, 2, 1]])
    );
    assert_eq!(slots(InFlag::INT8, false, ParamValue::from_i8(-2)), Some(vec![vec![0xfe]]));
    assert_eq!(
        slots(InFlag::INT16, false, ParamValue::from_i16(-2)),
        Some(vec![vec![0xfe, 0xff]])
    );
    assert_eq!(
        slots(InFlag::INT32, false, ParamValue::from_i32(i32::MIN)),
        Some(vec![vec![0, 0, 0, 0x80]])
    );
    assert_eq!(
        slots(InFlag::INT64, false, ParamValue::from_i64(-1)),
        Some(vec![vec![0xff; 8]])
    );
    assert_eq!(
        slots(InFlag::INT64, false, ParamValue::from_i64(i64::MIN)),
        Some(vec![vec![0, 0, 0, 0, 0, 0, 0, 0x80]])
    );
    assert_eq!(slots(InFlag::INT8, false, ParamValue::from_bool(true)), Some(vec![vec![1]]));
    assert_eq!(slots(InFlag::INT8, false, ParamValue::from_bool(false)), Some(vec![vec![0]]));
    assert_eq!(
        slots(InFlag::FLOAT, false, ParamValue::from_u32(1.5f32.to_bits())),
        Some(vec![1.5f32.to_le_bytes().to_vec()])
    );
    assert_eq!(
        slots(InFlag::DOUBLE, false, ParamValue::from_u64((-2.25f64).to_bits())),
        Some(vec![(-2.25f64).to_le_bytes().to_vec()])
    );
}

#[test]
fn numbers_that_do_not_fit_are_rejected() {
    assert_eq!(slots(InFlag::UINT8, false, ParamValue::Int(0x100)), None);
    assert_eq!(slots(InFlag::UINT16, false, ParamValue::Int(0x1_0000)), None);
    assert_eq!(slots(InFlag::UINT32, false, ParamValue::Int(0x1_0000_0000)), None);
    assert_eq!(slots(InFlag::UINT8, true, ParamValue::List(vec![1, 0x100, 2])), None);
    assert!(slots(InFlag::UINT64, false, ParamValue::Int(u64::MAX)).is_some());
}

#[test]
fn values_of_the_wrong_kind_are_rejected() {
    assert_eq!(slots(InFlag::UINT8, false, ParamValue::from_str("x")), None);
    assert_eq!(slots(InFlag::COUNTED_ANSI_STRING, false, ParamValue::from_u8(1)), None);
    assert_eq!(slots(InFlag::UINT8, true, ParamValue::from_u8(1)), None);
    assert_eq!(slots(InFlag::UINT8, false, ParamValue::List(vec![1])), None);
    assert_eq!(slots(InFlag::GUID, false, ParamValue::from_u64(1)), None);
    assert_eq!(slots(InFlag::GUID, true, ParamValue::List(vec![1])), None);
    assert_eq!(slots(InFlag::UINT32, false, ParamValue::Absent), None);
    assert_eq!(slots(InFlag::NULL, false, ParamValue::from_u8(1)), None);
    assert_eq!(slots(InFlag::SID, false, ParamValue::from_str("x")), None);
}

#[test]
fn strings_travel_as_a_count_and_their_bytes() {
    assert_eq!(
        slots(InFlag::COUNTED_ANSI_STRING, false, ParamValue::from_str("Hello, world!")),
        Some(vec![vec![13, 0], b"Hello, world!".to_vec()])
    );
    assert_eq!(
        slots(InFlag::COUNTED_ANSI_STRING, false, ParamValue::from_str("")),
        Some(vec![vec![0, 0], vec![]])
    );
    assert_eq!(
        slots(InFlag::COUNTED_ANSI_STRING, false, ParamValue::from_str("é")),
        Some(vec![vec![2, 0], vec![0xc3, 0xa9]])
    );
    let units: Vec<u16> = "hi!".encode_utf16().collect();
    assert_eq!(
        slots(InFlag::COUNTED_UNICODE_STRING, false, ParamValue::from_wide(&units)),
        Some(vec![vec![3, 0], vec![b'h', 0, b'i', 0, b'!', 0]])
    );
}

#[test]
fn counted_values_are_cut_to_65535_items() {
    let long = "x".repeat(70_000);
    let cut = slots(InFlag::COUNTED_ANSI_STRING, false, ParamValue::from_str(&long)).unwrap();
    assert_eq!(cut[0], vec![0xff, 0xff]);
    assert_eq!(cut[1].len(), 0xffff);
    let whole = "x".repeat(0xffff);
    let kept = slots(InFlag::COUNTED_ANSI_STRING, false, ParamValue::from_str(&whole)).unwrap();
    assert_eq!(kept[0], vec![0xff, 0xff]);
    assert_eq!(kept[1].len(), 0xffff);
    let items: Vec<u32> = (0..70_000).collect();
    let cut = slots(InFlag::UINT32, true, ParamValue::from_u32_slice(&items)).unwrap();
    assert_eq!(cut[0], vec![0xff, 0xff]);
    assert_eq!(cut[1].len(), 4 * 0xffff);
    assert_eq!(&cut[1][4 * 0xfffe..], &0xfffeu32.to_le_bytes());
    let units = vec![7u16; 70_000];
    let cut = slots(InFlag::COUNTED_UNICODE_STRING, false, ParamValue::from_wide(&units)).unwrap();
    assert_eq!(cut[0], vec![0xff, 0xff]);
    assert_eq!(cut[1].len(), 2 * 0xffff);
}

#[test]
fn slices_travel_as_a_count_and_their_items() {
    assert_eq!(
        slots(InFlag::UINT8, true, ParamValue::from_u8_slice(&[44, 55, 66])),
        Some(vec![vec![3, 0], vec![44, 55, 66]])
    );
    assert_eq!(
        slots(InFlag::INT32, true, ParamValue::from_i32_slice(&[10001, -20002, 30003])),
        Some(vec![
            vec![3, 0],
            [10001i32.to_le_bytes(), (-20002i32).to_le_bytes(), 30003i32.to_le_bytes()].concat()
        ])
    );
    assert_eq!(
        slots(InFlag::UINT64, true, ParamValue::List(Vec::new())),
        Some(vec![vec![0, 0], vec![]])
    );
}

#[test]
fn identifiers_and_addresses_and_times() {
    let g = GUID::from("01020304-0506-0708-090a-0b0c0d0e0f10");
    assert_eq!(
        slots(InFlag::GUID, false, ParamValue::from_guid(&g)),
        Some(vec![vec![4, 3, 2, 1, 6, 5, 8, 7, 9, 10, 11, 12, 13, 14, 15, 16]])
    );
    let v4 = SocketAddrV4::new([192, 168, 23, 42], 6667);
    assert_eq!(
        slots(InFlag::BINARY, false, ParamValue::from_socket_addr_v4(&v4)),
        Some(vec![
            vec![16, 0],
            vec![2, 0, 0x1a, 0x0b, 192, 168, 23, 42, 0, 0, 0, 0, 0, 0, 0, 0]
        ])
    );
    let mut octets = [0u8; 16];
    octets[0] = 0x20;
    octets[1] = 0x01;
    octets[15] = 1;
    let v6 = SocketAddrV6::new(octets, 8080, 0x01020304, 0x0a0b0c0d);
    let mut expected = vec![23, 0, 0x1f, 0x90, 1, 2, 3, 4];
    expected.extend_from_slice(&octets);
    expected.extend_from_slice(&[0x0a, 0x0b, 0x0c, 0x0d]);
    assert_eq!(v6.to_bytes(), expected);
    assert_eq!(
        slots(InFlag::BINARY, false, ParamValue::from_socket_addr_v6(&v6)),
        Some(vec![vec![28, 0], expected])
    );
    assert_eq!(
        slots(InFlag::FILETIME, false, ParamValue::from_filetime(FILETIME(0x0102030405060708))),
        Some(vec![vec![8, 7, 6, 5, 4, 3, 2, 1]])
    );
    assert_eq!(
        slots(InFlag::FILETIME, false, ParamValue::from_time(Ok(FILETIME(1)))),
        Some(vec![vec![1, 0, 0, 0, 0, 0, 0, 0]])
    );
    // A point in time that has no FILETIME travels in an empty slot.
    assert_eq!(
        slots(InFlag::FILETIME, false, ParamValue::from_time(Err(OutOfRangeError))),
        Some(vec![vec![]])
    );
}

#[test]
fn wire_forms() {
    assert_eq!(wire_form(InFlag::INT8), Some(WireForm::Fixed(1)));
    assert_eq!(wire_form(InFlag::UINT16), Some(WireForm::Fixed(2)));
    assert_eq!(wire_form(InFlag::FLOAT), Some(WireForm::Fixed(4)));
    assert_eq!(wire_form(InFlag::FILETIME), Some(WireForm::Fixed(8)));
    assert_eq!(wire_form(InFlag::BINARY), Some(WireForm::CountedBytes));
    assert_eq!(wire_form(InFlag::COUNTED_ANSI_STRING), Some(WireForm::CountedBytes));
    assert_eq!(wire_form(InFlag::COUNTED_UNICODE_STRING), Some(WireForm::CountedWide));
    assert_eq!(wire_form(InFlag::GUID), Some(WireForm::Guid));
    assert_eq!(wire_form(InFlag::NULL), None);
    assert_eq!(wire_form(InFlag::ANSI_STRING), None);
    assert_eq!(wire_form(16), None);
    assert_eq!(wire_form(InFlag::UINT8 | InFlag::CHAIN_FLAG), None);
}

#[test]
fn the_values_of_an_event_travel_in_the_order_of_its_fields() {
    let fields = vec![
        field("a", WellKnownType::RefStr, false),
        field("b", WellKnownType::U16, false),
        field("c", WellKnownType::U8, true),
        field("d", WellKnownType::Bool, false),
    ];
    let values = vec![
        ParamValue::from_str("ab"),
        ParamValue::from_u16(0x1234),
        ParamValue::from_u8_slice(&[9]),
        ParamValue::from_bool(true),
    ];
    assert_eq!(
        serialize_event(&fields, &values),
        Some(vec![
            vec![2, 0],
            vec![b'a', b'b'],
            vec![0x34, 0x12],
            vec![1, 0],
            vec![9],
            vec![1]
        ])
    );
    // One value too few, one too many, and one of the wrong kind.
    assert_eq!(serialize_event(&fields, &values[..3].iter().map(copy).collect()), None);
    let mut more: Vec<ParamValue> = values.iter().map(copy).collect();
    more.push(ParamValue::from_u8(1));
    assert_eq!(serialize_event(&fields, &more), None);
    let mut wrong: Vec<ParamValue> = values.iter().map(copy).collect();
    wrong[3] = ParamValue::from_str("true");
    assert_eq!(serialize_event(&fields, &wrong), None);
    assert_eq!(serialize_event(&Vec::new(), &Vec::new()), Some(Vec::new()));
}

fn copy(value: &ParamValue) -> ParamValue {
    match value {
        ParamValue::Int(bits) => ParamValue::Int(*bits),
        ParamValue::Bytes(bytes) => ParamValue::Bytes(bytes.clone()),
        ParamValue::Wide(units) => ParamValue::Wide(units.clone()),
        ParamValue::Guid(g) => ParamValue::Guid(g.clone()),
        ParamValue::List(items) => ParamValue::List(items.clone()),
        ParamValue::Absent => ParamValue::Absent,
    }
}

#[test]
fn pointer_sized_values_are_as_wide_as_the_machine() {
    let fields = vec![field("a", WellKnownType::Usize, false)];
    let got = serialize_event(&fields, &vec![ParamValue::from_u64(7)]).unwrap();
    assert_eq!(got[0].len(), (usize::BITS / 8) as usize);
    assert_eq!(got[0][0], 7);
}

#[test]
fn a_disabled_event_has_no_payload() {
    let e = event("e", 1, Level::info(), vec![field("a", WellKnownType::U8, false)]);
    assert_eq!(event_payload(false, &e, &vec![ParamValue::from_u8(1)]), None);
    // Not even values that the event cannot have are looked at.
    assert_eq!(event_payload(false, &e, &vec![ParamValue::from_str("x")]), None);
    assert_eq!(event_payload(false, &e, &Vec::new()), None);
    assert_eq!(event_payload(true, &e, &vec![ParamValue::from_u8(1)]), Some(vec![vec![1]]));
    assert_eq!(event_payload(true, &e, &Vec::new()), None);
}

#[test]
fn a_disabled_event_is_not_written() {
    // The session asks for events up to the level of errors; the event is informational.
    let recorder = Recorder::new(Level::error().0);
    let provider = EventProvider::new(
        model(vec![event("e", 1, Level::info(), vec![field("a", WellKnownType::U8, false)])]),
        Some(&recorder),
    )
    .unwrap();
    let outcome = provider.write_event(0, None, &vec![ParamValue::from_u8(1)]);
    assert_eq!(outcome, WriteOutcome::Disabled);
    assert_eq!(recorder.asked.get(), 1);
    assert_eq!(recorder.writes.borrow().len(), 0);
    // The data is not touched: values that the event cannot have go unnoticed.
    let outcome = provider.write_event(0, None, &vec![ParamValue::from_str("not a u8")]);
    assert_eq!(outcome, WriteOutcome::Disabled);
    assert_eq!(recorder.writes.borrow().len(), 0);
    assert!(!provider.is_event_enabled(0, None));
    assert!(provider.is_event_enabled(0, Some(Level::error())));
}

#[test]
fn an_enabled_event_is_written_behind_its_metadata() {
    let recorder = Recorder::new(Level::verbose().0);
    let provider = EventProvider::new(
        model(vec![
            event("first", 10, Level::info(), Vec::new()),
            event(
                "e",
                11,
                Level::info(),
                vec![field("a", WellKnownType::U8, false), field("b", WellKnownType::RefStr, false)],
            ),
        ]),
        Some(&recorder),
    )
    .unwrap();
    let outcome =
        provider.write_event(1, None, &vec![ParamValue::from_u8(7), ParamValue::from_str("hi")]);
    assert_eq!(outcome, WriteOutcome::Written);
    let writes = recorder.writes.borrow();
    assert_eq!(writes.len(), 1);
    let (level_override, id, level, data) = &writes[0];
    assert_eq!(*level_override, None);
    assert_eq!(*id, 11);
    assert_eq!(*level, 4);
    assert_eq!(
        *data,
        vec![
            (2, vec![4, 0, b'P', 0]),
            (1, vec![12, 0, 0, b'e', 0, b'a', 0, 4, b'b', 0, 0x97, 35]),
            (0, vec![7]),
            (0, vec![2, 0]),
            (0, vec![b'h', b'i']),
        ]
    );
    assert_eq!(provider.provider_metadata(), &[4, 0, b'P', 0]);
    assert_eq!(
        provider.event_metadata(0).unwrap(),
        &[9, 0, 0, b'f', b'i', b'r', b's', b't', 0]
    );
    assert!(provider.event_metadata(2).is_none());
    assert_eq!(provider.model().events.len(), 2);
}

#[test]
fn the_level_of_the_options_takes_the_place_of_the_events_own() {
    let recorder = Recorder::new(Level::warn().0);
    let provider = EventProvider::new(
        model(vec![event("e", 1, Level::verbose(), Vec::new())]),
        Some(&recorder),
    )
    .unwrap();
    assert_eq!(provider.write_event(0, None, &Vec::new()), WriteOutcome::Disabled);
    let options = EventOptions { level: Some(Level::error()), ..Default::default() };
    assert_eq!(provider.write_event(0, Some(&options), &Vec::new()), WriteOutcome::Written);
    let writes = recorder.writes.borrow();
    assert_eq!(writes.len(), 1);
    assert_eq!(writes[0].0, Some(Level::error()));
    assert_eq!(writes[0].2, 2);
    let no_level = EventOptions::default();
    assert!(no_level.level.is_none());
    assert!(no_level.activity_id.is_none());
    assert!(no_level.related_activity_id.is_none());
    drop(writes);
    assert_eq!(provider.write_event(0, Some(&no_level), &Vec::new()), WriteOutcome::Disabled);
}

#[test]
fn events_that_cannot_be_are_rejected() {
    let recorder = Recorder::new(255);
    let provider = EventProvider::new(
        model(vec![event("e", 1, Level::info(), vec![field("a", WellKnownType::U8, false)])]),
        Some(&recorder),
    )
    .unwrap();
    assert_eq!(provider.write_event(1, None, &Vec::new()), WriteOutcome::Rejected);
    assert_eq!(recorder.asked.get(), 0);
    assert_eq!(provider.write_event(0, None, &Vec::new()), WriteOutcome::Rejected);
    assert_eq!(
        provider.write_event(0, None, &vec![ParamValue::from_u16(300)]),
        WriteOutcome::Rejected
    );
    assert_eq!(recorder.writes.borrow().len(), 0);
    assert!(!provider.is_event_enabled(1, None));
}

#[test]
fn a_provider_without_a_backend_reports_nothing() {
    let provider: EventProvider<NullProvider> =
        EventProvider::null(model(vec![event("e", 1, Level::critical(), Vec::new())])).unwrap();
    assert_eq!(provider.write_event(0, None, &Vec::new()), WriteOutcome::Disabled);
    assert!(!provider.is_event_enabled(0, None));
    let failed: EventProvider<NullProvider> = EventProvider::from_registration(
        model(vec![event("e", 1, Level::critical(), Vec::new())]),
        Err(Error::WindowsError(5)),
    )
    .unwrap();
    assert_eq!(failed.write_event(0, None, &Vec::new()), WriteOutcome::Disabled);
    let null: EventProvider<NullProvider> = EventProvider::from_registration(
        model(vec![event("e", 1, Level::critical(), Vec::new())]),
        Ok(NullProvider),
    )
    .unwrap();
    assert_eq!(null.write_event(0, None, &Vec::new()), WriteOutcome::Disabled);
}

#[test]
fn null_provider_and_absent_provider_discard_everything() {
    let d = EventDescriptor {
        id: 1,
        version: 0,
        channel: 11,
        level: Level::critical(),
        opcode: 0,
        task: 0,
        keyword: 0,
    };
    assert!(!NullProvider.is_enabled(0, 0));
    assert!(!NullProvider.is_event_enabled(&d));
    NullProvider.write(None, &d, &[]);
    let absent: Option<NullProvider> = None;
    assert!(!absent.is_enabled(0, 0));
    assert!(!absent.is_event_enabled(&d));
    absent.write(None, &d, &[]);
    let recorder = Recorder::new(1);
    let present = Some(&recorder);
    assert!(present.is_enabled(1, 0));
    assert!(!present.is_enabled(2, 0));
    assert!(present.is_event_enabled(&d));
    present.write(None, &d, &[EventDataDescriptor::for_bytes(&[1, 2])]);
    assert_eq!(recorder.writes.borrow()[0].3, vec![(0, vec![1, 2])]);
}

#[test]
fn a_provider_whose_blobs_do_not_fit_is_not_built() {
    let mut long_name = model(Vec::new());
    long_name.name = "n".repeat(0xffff);
    assert!(EventProvider::<NullProvider>::null(long_name).is_none());
    let long_event = model(vec![event(&"e".repeat(0xffff), 1, Level::info(), Vec::new())]);
    assert!(EventProvider::<NullProvider>::null(long_event).is_none());
}

#[test]
fn registration_names_the_provider_and_its_group() {
    let mut m = model(Vec::new());
    let plain: EventProvider<NullProvider> = EventProvider::null(model(Vec::new())).unwrap();
    let r = plain.registration();
    assert_eq!(r.guid, GUID::from("861A3948-3B6B-4DDF-B862-B2CB361E238E"));
    assert_eq!(r.provider_metadata, vec![4, 0, b'P', 0]);
    assert!(r.provider_traits.is_none());
    m.provider_group_guid = Some(GUID::from("6aeb6059-444a-4606-a3ea-06fd00fe3378"));
    let grouped: EventProvider<NullProvider> = EventProvider::null(m).unwrap();
    let traits = grouped.registration().provider_traits.unwrap();
    assert_eq!(&traits[..7], &[23, 0, b'P', 0, 19, 0, 1]);
    assert_eq!(traits.len(), 23);
}

#[test]
fn descriptors() {
    let e = event("e", 9, Level::warn(), Vec::new());
    let d = event_descriptor(&e, None);
    assert_eq!((d.id, d.version, d.channel, d.level, d.opcode, d.task, d.keyword),
        (9, 0, 11, Level::warn(), 3, 4, 5));
    assert_eq!(event_descriptor(&e, Some(Level(9))).level, Level(9));
    let options = EventOptions { level: Some(Level::error()), ..Default::default() };
    assert_eq!(d.with_options(Some(&options)).level, Level::error());
    assert_eq!(d.with_options(None).level, Level::warn());
    assert_eq!(d.with_options(Some(&EventOptions::default())).level, Level::warn());
    let blob = [1u8, 2, 3];
    let slots = vec![vec![4u8], vec![]];
    let all = event_descriptors(&blob, &blob[..1], &slots);
    let seen: Vec<(u32, u32, Vec<u8>)> =
        all.iter().map(|d| (d.kind(), d.size(), d.data().to_vec())).collect();
    assert_eq!(
        seen,
        vec![(2, 3, vec![1, 2, 3]), (1, 1, vec![1]), (0, 1, vec![4]), (0, 0, vec![])]
    );
}

#[test]
fn data_descriptors() {
    let empty = EventDataDescriptor::empty();
    assert_eq!((empty.kind(), empty.size(), empty.data().len()), (0, 0, 0));
    let bytes = [1u8, 2, 3];
    let provider = EventDataDescriptor::for_provider_metadata(&bytes);
    assert_eq!((provider.kind(), provider.size(), provider.data()), (2, 3, &bytes[..]));
    let event = EventDataDescriptor::for_event_metadata(&bytes);
    assert_eq!((event.kind(), event.size(), event.data()), (1, 3, &bytes[..]));
    let data = EventDataDescriptor::for_bytes(&bytes[1..]);
    assert_eq!((data.kind(), data.size(), data.data()), (0, 2, &bytes[1..]));
    let text = EventDataDescriptor::for_str("héllo");
    assert_eq!((text.kind(), text.size(), text.data()), (0, 6, "héllo".as_bytes()));
}

#[test]
fn activity_ids_need_a_backend() {
    assert_eq!(new_activity_id(), Err(Error::NotSupported));
}

#[test]
fn a_status_of_zero_is_success() {
    let id = GUID {
        data1: 0x0102_0304,
        data2: 0x0506,
        data3: 0x0708,
        data4: [9, 10, 11, 12, 13, 14, 15, 16],
    };
    assert_eq!(activity_result(0, id.clone()), Ok(id.clone()));
    assert_eq!(activity_result(5, id.clone()), Err(Error::WindowsError(5)));
    assert_eq!(activity_result(u32::MAX, id), Err(Error::WindowsError(u32::MAX)));
    assert_eq!(status_result(0), Ok(()));
    assert_eq!(status_result(87), Err(Error::WindowsError(87)));
}

#[test]
fn the_data_of_an_event_stands_behind_its_two_blobs() {
    let recorder = Recorder::new(Level::verbose().0);
    let provider = EventProvider::new(
        model(vec![
            event("first", 10, Level::info(), Vec::new()),
            event("e", 11, Level::info(), vec![field("a", WellKnownType::U8, false)]),
        ]),
        Some(&recorder),
    )
    .unwrap();
    let slots = vec![vec![7u8], vec![8u8, 9u8]];
    let data = provider.event_data(1, &slots).unwrap();
    let seen: Vec<(u32, Vec<u8>)> = data.iter().map(|d| (d.kind(), d.data().to_vec())).collect();
    assert_eq!(
        seen,
        vec![
            (2, vec![4, 0, b'P', 0]),
            (1, vec![8, 0, 0, b'e', 0, b'a', 0, 4]),
            (0, vec![7]),
            (0, vec![8, 9]),
        ]
    );
    let first = provider.event_data(0, &slots).unwrap();
    assert_eq!(first[1].data(), &[9, 0, 0, b'f', b'i', b'r', b's', b't', 0]);
    assert!(provider.event_data(2, &slots).is_none());
    assert_eq!(recorder.writes.borrow().len(), 0);
}
