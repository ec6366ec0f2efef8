use win_etw::emitter::{create_event_metadata, create_provider_metadata, create_provider_traits};
use win_etw::metadata::{
    metadata_flags_pointer_width, InFlag, Level, OutFlag, TraceLoggingMetadata, METADATA_MAGIC,
    METADATA_SIGNATURE, METADATA_VERSION,
};
use win_etw::model::{EventModel, ParamModel};
use win_etw::well_known_types::{
    DeclaredType, TypeShape, WellKnownType, WellKnownTypeOptions, WellKnownTypes,
};
use win_etw::GUID;

fn field(name: &str, code: WellKnownType, is_slice: bool, output_hex: bool) -> ParamModel {
    ParamModel { name: name.to_string(), code, is_slice, output_hex }
}

fn event(name: &str, params: Vec<ParamModel>) -> EventModel {
    EventModel {
        name: name.to_string(),
        id: 0,
        level: Level::verbose(),
        opcode: 0,
        task: 0,
        keyword: 0,
        doc: String::new(),
        params,
    }
}

#[test]
fn provider_metadata_is_length_name_and_zero() {
    assert_eq!(
        create_provider_metadata("Hello").unwrap(),
        vec![8, 0, b'H', b'e', b'l', b'l', b'o', 0]
    );
    assert_eq!(create_provider_metadata("").unwrap(), vec![3, 0, 0]);
}

#[test]
fn provider_metadata_length_is_little_endian() {
    let name = "n".repeat(300);
    let blob = create_provider_metadata(&name).unwrap();
    assert_eq!(blob.len(), 303);
    assert_eq!(&blob[..2], &[0x2f, 0x01]);
    assert_eq!(blob[302], 0);
}

#[test]
fn provider_metadata_has_a_longest_name() {
    assert_eq!(create_provider_metadata(&"n".repeat(0xffff - 3)).unwrap().len(), 0xffff);
    assert!(create_provider_metadata(&"n".repeat(0xffff - 2)).is_none());
}

#[test]
fn provider_metadata_counts_bytes_not_characters() {
    let blob = create_provider_metadata("é").unwrap();
    assert_eq!(blob, vec![5, 0, 0xc3, 0xa9, 0]);
}

#[test]
fn event_metadata_without_fields() {
    assert_eq!(
        create_event_metadata(&event("hi", Vec::new())).unwrap(),
        vec![6, 0, 0, b'h', b'i', 0]
    );
}

#[test]
fn event_metadata_describes_each_field_in_order() {
    let blob = create_event_metadata(&event(
        "ev",
        vec![
            field("a", WellKnownType::U32, false, false),
            field("b", WellKnownType::Bool, false, false),
            field("c", WellKnownType::U32, false, true),
            field("d", WellKnownType::I16, true, false),
            field("e", WellKnownType::RefStr, false, false),
            field("f", WellKnownType::Guid, false, false),
            field("g", WellKnownType::U8, true, true),
        ],
    ))
    .unwrap();
    let expected: Vec<u8> = vec![
        31, 0, // the length of the blob
        0,  // no extensions
        b'e', b'v', 0, // the name of the event
        b'a', 0, 8, // u32
        b'b', 0, 0x80 | 3, 3, // bool: an i8, shown as a boolean
        b'c', 0, 0x80 | 8, 4, // u32, shown in hexadecimal
        b'd', 0, 0x40 | 5, // a slice of i16
        b'e', 0, 0x80 | 23, 35, // a counted string, UTF-8
        b'f', 0, 15, // an identifier
        b'g', 0, 0x80 | 0x40 | 4, 4, // a slice of u8, shown in hexadecimal
    ];
    assert_eq!(blob, expected);
}

#[test]
fn event_metadata_of_every_type() {
    let cases: Vec<(WellKnownType, Vec<u8>)> = vec![
        (WellKnownType::Bool, vec![0x83, 3]),
        (WellKnownType::U8, vec![4]),
        (WellKnownType::U16, vec![6]),
        (WellKnownType::U32, vec![8]),
        (WellKnownType::U64, vec![10]),
        (WellKnownType::I8, vec![3]),
        (WellKnownType::I16, vec![5]),
        (WellKnownType::I32, vec![7]),
        (WellKnownType::I64, vec![9]),
        (WellKnownType::Float, vec![11]),
        (WellKnownType::Double, vec![12]),
        (WellKnownType::RefStr, vec![0x97, 35]),
        (WellKnownType::U16CStr, vec![22]),
        (WellKnownType::OsStr, vec![22]),
        (WellKnownType::Guid, vec![15]),
        (WellKnownType::SocketAddrV4, vec![0x8e, 10]),
        (WellKnownType::SocketAddrV6, vec![0x8e, 10]),
        (WellKnownType::SocketAddr, vec![0x8e, 10]),
        (WellKnownType::SystemTime, vec![17]),
        (WellKnownType::FileTime, vec![17]),
        (WellKnownType::HResult, vec![0x87, 15]),
        (WellKnownType::Win32Error, vec![0x88, 13]),
        (WellKnownType::NtStatus, vec![0x88, 14]),
    ];
    for (code, tags) in cases {
        let blob = create_event_metadata(&event("e", vec![field("x", code, false, false)])).unwrap();
        let mut expected = vec![(7 + tags.len()) as u8, 0, 0, b'e', 0, b'x', 0];
        expected.extend(tags);
        assert_eq!(blob, expected, "{:?}", code);
    }
}

#[test]
fn pointer_sized_fields_have_the_tag_of_the_machine() {
    let wide = usize::BITS == 64;
    let unsigned = create_event_metadata(&event(
        "e",
        vec![field("x", WellKnownType::Usize, false, false)],
    ))
    .unwrap();
    assert_eq!(unsigned[7], if wide { 10 } else { 8 });
    let signed = create_event_metadata(&event(
        "e",
        vec![field("x", WellKnownType::Isize, true, false)],
    ))
    .unwrap();
    assert_eq!(signed[7], 0x40 | if wide { 9 } else { 7 });
    assert_eq!(InFlag::usize_flag().bits(), if wide { 10 } else { 8 });
    assert_eq!(InFlag::isize_flag().bits(), if wide { 9 } else { 7 });
}

#[test]
fn event_metadata_has_a_longest() {
    let fits = event(&"e".repeat(0xffff - 4), Vec::new());
    assert_eq!(create_event_metadata(&fits).unwrap().len(), 0xffff);
    let too_long = event(&"e".repeat(0xffff - 3), Vec::new());
    assert!(create_event_metadata(&too_long).is_none());
}

#[test]
fn provider_traits_name_the_group() {
    let group = GUID::from("6aeb6059-444a-4606-a3ea-06fd00fe3378");
    let traits = create_provider_traits("Pr", &group).unwrap();
    let mut expected: Vec<u8> = vec![24, 0, b'P', b'r', 0, 19, 0, 1];
    expected.extend_from_slice(&[
        0x59, 0x60, 0xeb, 0x6a, 0x4a, 0x44, 0x06, 0x46, 0xa3, 0xea, 0x06, 0xfd, 0x00, 0xfe, 0x33,
        0x78,
    ]);
    assert_eq!(traits, expected);
    assert!(create_provider_traits(&"n".repeat(0xffff - 21), &group).is_none());
    assert!(create_provider_traits(&"n".repeat(0xffff - 22), &group).is_some());
}

#[test]
fn metadata_header() {
    let header = TraceLoggingMetadata::new();
    assert_eq!(header.signature(), 0x30_57_54_45);
    assert_eq!(header.signature(), METADATA_SIGNATURE);
    assert_eq!(header.signature().to_le_bytes(), *b"ETW0");
    assert_eq!(header.size(), 16);
    assert_eq!(header.version(), METADATA_VERSION);
    assert_eq!(header.flags(), metadata_flags_pointer_width());
    assert_eq!(header.flags(), if usize::BITS == 64 { 1 } else { 0 });
    assert_eq!(header.magic(), 0xBB8A_052B_8804_0E86);
    assert_eq!(header.magic(), METADATA_MAGIC);
}

#[test]
fn levels() {
    assert_eq!(Level::none(), Level(0));
    assert_eq!(Level::critical(), Level(1));
    assert_eq!(Level::fatal(), Level(1));
    assert_eq!(Level::error(), Level(2));
    assert_eq!(Level::warn(), Level(3));
    assert_eq!(Level::info(), Level(4));
    assert_eq!(Level::verbose(), Level(5));
    assert!(Level::error().is_within(2));
    assert!(!Level::warn().is_within(2));
    assert!(Level(8).is_within(255));
}

#[test]
fn flags() {
    assert_eq!(InFlag::COUNTED_ANSI_STRING, 23);
    assert_eq!(InFlag::CHAIN_FLAG, 0b1000_0000);
    assert_eq!(InFlag::VCOUNT_FLAG, 0x40);
    assert_eq!(InFlag::CCOUNT_FLAG, 0x20);
    assert_eq!(InFlag::CUSTOM_FLAG, 0b0110_0000);
    assert_eq!(InFlag::TYPE_MASK, 0b0001_1111);
    assert_eq!(InFlag::FLAG_MASK, 0b1110_0000);
    assert_eq!(OutFlag::UTF8, 35);
    assert_eq!(OutFlag::DATETIME_UTC, 38);
    let tag = InFlag(InFlag::UINT32).union(InFlag(InFlag::CHAIN_FLAG));
    assert_eq!(tag.bits(), 0x88);
    assert!(tag.contains(InFlag(InFlag::CHAIN_FLAG)));
    assert!(!tag.contains(InFlag(InFlag::VCOUNT_FLAG)));
    assert_eq!(OutFlag(OutFlag::HEX).bits(), 4);
}

#[test]
fn well_known_types_are_found_by_shape_and_name() {
    let types = WellKnownTypes::new();
    let find = |shape: TypeShape, name: &str| {
        types.find(&DeclaredType { shape, name: name.to_string() })
    };
    let bool_info = find(TypeShape::Value, "bool").unwrap();
    assert_eq!(bool_info.code, WellKnownType::Bool);
    assert_eq!(bool_info.in_type, InFlag(InFlag::INT8));
    assert_eq!(bool_info.opts.out_type, Some(OutFlag(OutFlag::BOOLEAN)));
    assert!(bool_info.primitive);
    assert!(!bool_info.is_ref);
    let text = find(TypeShape::Ref, "str").unwrap();
    assert_eq!(text.code, WellKnownType::RefStr);
    assert!(text.is_ref);
    assert!(!text.primitive);
    assert!(find(TypeShape::Value, "str").is_none());
    assert!(find(TypeShape::Ref, "bool").is_none());
    assert!(find(TypeShape::RefSlice, "u8").is_none());
    assert!(find(TypeShape::Other, "u8").is_none());
    assert!(find(TypeShape::Value, "U8").is_none());
    assert!(find(TypeShape::Value, "").is_none());
    let hresult = find(TypeShape::Value, "HRESULT").unwrap();
    assert_eq!(hresult.opts.replacement_type, Some(WellKnownType::I32));
    assert_eq!(hresult.opts.out_type, Some(OutFlag(OutFlag::HRESULT)));
    let time = find(TypeShape::Value, "SystemTime").unwrap();
    assert_eq!(time.opts.replacement_type, Some(WellKnownType::FileTime));
    let u32_info = find(TypeShape::Value, "u32").unwrap();
    assert!(u32_info.opts.can_output_hex);
    assert_eq!(
        WellKnownTypeOptions::default(),
        WellKnownTypeOptions {
            out_type: None,
            in_type_expr: None,
            replacement_type: None,
            can_output_hex: false
        }
    );
    assert_eq!(WellKnownType::FileTime.get_info().in_type, InFlag(InFlag::FILETIME));
}

#[test]
fn levels_are_ordered_by_their_numbers() {
    assert!(Level::critical() < Level::error());
    assert!(Level::verbose() > Level::info());
    assert!(Level(8) > Level::verbose());
    assert_eq!(Level::fatal().max(Level::none()), Level::critical());
}
