use win_etw::analyzer::analyze;
use win_etw::declaration::{
    AttrKind, AttrValue, ItemKind, RawAttr, RawAttribute, RawDeclaration, RawEvent, RawParam,
};
use win_etw::errors::{Error, Span};
use win_etw::metadata::Level;
use win_etw::model::ProviderModel;
use win_etw::well_known_types::{DeclaredType, TypeShape, WellKnownType};

const GUID_TEXT: &str = "610259b8-9270-46f2-ad94-2f805721b287";

fn span(line: u32) -> Span {
    Span { line, column: 0 }
}

fn attr(key: &str, value: AttrValue) -> RawAttr {
    RawAttr { key: key.to_string(), value, span: span(1) }
}

fn text(value: &str) -> AttrValue {
    AttrValue::Str(value.to_string())
}

fn guid_attr(value: &str) -> RawAttr {
    attr("guid", text(value))
}

fn event_attr(line: u32, items: Vec<RawAttr>) -> RawAttribute {
    RawAttribute { kind: AttrKind::Event, items, span: span(line) }
}

fn ty(shape: TypeShape, name: &str) -> DeclaredType {
    DeclaredType { shape, name: name.to_string() }
}

fn param(name: &str, ty: DeclaredType) -> RawParam {
    RawParam {
        receiver: false,
        plain_name: true,
        name: name.to_string(),
        ty,
        attrs: Vec::new(),
        span: span(50),
    }
}

fn receiver() -> RawParam {
    RawParam {
        receiver: true,
        plain_name: true,
        name: "self".to_string(),
        ty: ty(TypeShape::Other, ""),
        attrs: Vec::new(),
        span: span(50),
    }
}

fn event(line: u32, name: &str, params: Vec<RawParam>, attrs: Vec<RawAttribute>) -> RawEvent {
    RawEvent {
        name: name.to_string(),
        is_async: false,
        is_unsafe: false,
        is_generic: false,
        has_return_type: false,
        has_body: false,
        doc: String::new(),
        params,
        attrs,
        span: span(line),
    }
}

fn plain_event(line: u32, name: &str) -> RawEvent {
    event(line, name, Vec::new(), Vec::new())
}

fn event_with_id(line: u32, name: &str, id: u64) -> RawEvent {
    event(
        line,
        name,
        Vec::new(),
        vec![event_attr(line, vec![attr("id", AttrValue::Int(id))])],
    )
}

fn declaration(attrs: Vec<RawAttr>, events: Vec<RawEvent>) -> RawDeclaration {
    RawDeclaration {
        kind: ItemKind::Trait,
        ident: "Events".to_string(),
        attrs,
        events,
        span: span(0),
    }
}

fn messages(error: &Error) -> Vec<String> {
    (0..error.len()).map(|i| error.message(i).to_string()).collect()
}

/// Checks that the declaration has the expected faults and no others, in any order.
fn test_worker(decl: RawDeclaration, expected_errors: &[&'static str]) -> Option<ProviderModel> {
    match analyze(&decl) {
        Ok(model) => {
            assert!(
                expected_errors.is_empty(),
                "The declaration has no faults, but these were expected: {:?}",
                expected_errors
            );
            Some(model)
        }
        Err(error) => {
            let errors = messages(&error);
            for &expected_error in expected_errors.iter() {
                if !errors.iter().any(|e| e.contains(expected_error)) {
                    panic!(
                        "Did not find expected error {:?} in list:\n{:#?}",
                        expected_error, errors
                    );
                }
            }
            // Make sure all errors found are expected.
            for error in errors.iter() {
                if !expected_errors.iter().any(|e| error.contains(e)) {
                    panic!(
                        "Did not match error {:?} with expected error in list:\n{:#?}",
                        error, expected_errors
                    );
                }
            }
            None
        }
    }
}

fn one_param_event(name: &str, p: RawParam) -> RawEvent {
    event(10, name, vec![p], Vec::new())
}

#[test]
fn test_many_types() {
    let value_types = [
        "bool", "u8", "u16", "u32", "u64", "i8", "i16", "i32", "i64", "f32", "f64", "usize",
        "isize",
    ];
    let mut events = vec![plain_event(1, "arg_none")];
    for name in value_types.iter() {
        events.push(one_param_event(
            &format!("arg_{}", name),
            param("a", ty(TypeShape::Value, name)),
        ));
    }
    for name in value_types.iter() {
        events.push(one_param_event(
            &format!("arg_slice_{}", name),
            param("a", ty(TypeShape::RefSlice, name)),
        ));
    }
    events.push(one_param_event("arg_str", param("arg", ty(TypeShape::Ref, "str"))));
    events.push(one_param_event("arg_u16cstr", param("arg", ty(TypeShape::Ref, "U16CStr"))));
    events.push(one_param_event("arg_guid", param("arg", ty(TypeShape::Ref, "GUID"))));
    events.push(one_param_event(
        "arg_system_time",
        param("a", ty(TypeShape::Value, "SystemTime")),
    ));
    events.push(one_param_event("arg_filetime", param("a", ty(TypeShape::Value, "FILETIME"))));
    let level = |value: AttrValue| vec![event_attr(20, vec![attr("level", value)])];
    events.push(event(
        20,
        "arg_u8_at_info",
        vec![param("a", ty(TypeShape::Value, "u8"))],
        level(text("info")),
    ));
    events.push(event(
        21,
        "arg_u8_at_warn",
        vec![param("a", ty(TypeShape::Value, "u8"))],
        level(text("warn")),
    ));
    events.push(event(
        22,
        "arg_u8_at_error",
        vec![param("a", ty(TypeShape::Value, "u8"))],
        level(text("error")),
    ));
    events.push(event(
        23,
        "arg_u8_at_verbose",
        vec![param("a", ty(TypeShape::Value, "u8"))],
        level(text("verbose")),
    ));
    events.push(event(
        24,
        "arg_u8_at_level_8",
        vec![param("a", ty(TypeShape::Value, "u8"))],
        level(AttrValue::Int(8)),
    ));
    events.push(event(
        25,
        "arg_with_task",
        vec![param("a", ty(TypeShape::Value, "u8"))],
        vec![event_attr(25, vec![attr("task", AttrValue::Int(100))])],
    ));
    events.push(event(
        26,
        "arg_with_opcode",
        vec![param("a", ty(TypeShape::Value, "u8"))],
        vec![event_attr(26, vec![attr("opcode", AttrValue::Int(10))])],
    ));
    let mut hex = param("a", ty(TypeShape::Value, "u32"));
    hex.attrs = vec![event_attr(27, vec![attr("output", text("hex"))])];
    events.push(one_param_event("arg_u32_hex", hex));
    events.push(one_param_event("arg_hresult", param("a", ty(TypeShape::Value, "HRESULT"))));
    events.push(one_param_event("arg_ntstatus", param("a", ty(TypeShape::Value, "NTSTATUS"))));
    events.push(one_param_event(
        "arg_win32error",
        param("a", ty(TypeShape::Value, "WIN32ERROR")),
    ));
    let count = events.len();
    let model = test_worker(declaration(vec![guid_attr(GUID_TEXT)], events), &[]).unwrap();
    assert_eq!(model.events.len(), count);
    assert_eq!(model.name, "Events");
    assert_eq!(model.guid.data1, 0x610259b8);
    let find = |name: &str| model.events.iter().find(|e| e.name == name).unwrap();
    assert_eq!(find("arg_none").level, Level::verbose());
    assert_eq!(find("arg_u8_at_info").level, Level::info());
    assert_eq!(find("arg_u8_at_warn").level, Level::warn());
    assert_eq!(find("arg_u8_at_error").level, Level::error());
    assert_eq!(find("arg_u8_at_verbose").level, Level::verbose());
    assert_eq!(find("arg_u8_at_level_8").level, Level(8));
    assert_eq!(find("arg_with_task").task, 100);
    assert_eq!(find("arg_with_opcode").opcode, 10);
    assert!(find("arg_u32_hex").params[0].output_hex);
    assert_eq!(find("arg_slice_i32").params[0].code, WellKnownType::I32);
    assert!(find("arg_slice_i32").params[0].is_slice);
    assert_eq!(find("arg_hresult").params[0].code, WellKnownType::HResult);
    // Identifiers that are not given are the positions of the events.
    for (index, e) in model.events.iter().enumerate() {
        assert_eq!(e.id as usize, index);
    }
}

#[test]
fn test_unsupported_field_types() {
    test_worker(
        declaration(
            vec![guid_attr(GUID_TEXT)],
            vec![one_param_event("event", param("a", ty(TypeShape::Other, "")))],
        ),
        &["This type is not supported for event parameters."],
    );
}

#[test]
fn test_unsupported_slice_types() {
    // A string cannot appear in a slice, and neither can a type that is not known.
    test_worker(
        declaration(
            vec![guid_attr(GUID_TEXT)],
            vec![
                one_param_event("one", param("a", ty(TypeShape::RefSlice, "FILETIME"))),
                one_param_event("two", param("a", ty(TypeShape::RefSlice, "Thing"))),
                one_param_event("three", param("a", ty(TypeShape::Value, "str"))),
                one_param_event("four", param("a", ty(TypeShape::Ref, "u8"))),
            ],
        ),
        &["This type is not supported for event parameters."],
    );
}

#[test]
fn test_event_return_type() {
    let mut e = plain_event(2, "event");
    e.has_return_type = true;
    test_worker(
        declaration(vec![guid_attr(GUID_TEXT)], vec![e]),
        &["Event methods must not return data."],
    );
}

#[test]
fn test_event_default_implementation() {
    let mut e = plain_event(2, "event");
    e.has_body = true;
    test_worker(
        declaration(vec![guid_attr(GUID_TEXT)], vec![e]),
        &["Event methods must not contain an implementation."],
    );
}

#[test]
fn test_event_generic() {
    let mut e = plain_event(2, "event");
    e.is_generic = true;
    test_worker(
        declaration(vec![guid_attr(GUID_TEXT)], vec![e]),
        &["Generic event methods are not supported."],
    );
}

#[test]
fn test_event_generic_lifetime() {
    let mut e = plain_event(2, "event");
    e.is_generic = true;
    test_worker(
        declaration(vec![guid_attr(GUID_TEXT)], vec![e]),
        &["Generic event methods are not supported."],
    );
}

#[test]
fn test_wrong_self_ref() {
    test_worker(
        declaration(
            vec![guid_attr(GUID_TEXT)],
            vec![one_param_event("event", receiver())],
        ),
        &["Event methods should not provide any receiver arguments"],
    );
}

#[test]
fn test_wrong_self_mut() {
    test_worker(
        declaration(
            vec![guid_attr(GUID_TEXT)],
            vec![one_param_event("event", receiver())],
        ),
        &["Event methods should not provide any receiver arguments"],
    );
}

#[test]
fn test_wrong_self_move() {
    test_worker(
        declaration(
            vec![guid_attr(GUID_TEXT)],
            vec![one_param_event("event", receiver())],
        ),
        &["Event methods should not provide any receiver arguments"],
    );
}

#[test]
fn test_bad_guid_literal() {
    test_worker(
        declaration(vec![attr("guid", AttrValue::Int(0))], Vec::new()),
        &["The attribute value is required to be a GUID in string form."],
    );
}

#[test]
fn test_all_event_ids() {
    let model = test_worker(
        declaration(
            vec![guid_attr(GUID_TEXT)],
            vec![event_with_id(2, "event_one", 1), event_with_id(3, "event_two", 2)],
        ),
        &[],
    )
    .unwrap();
    assert_eq!(model.events[0].id, 1);
    assert_eq!(model.events[1].id, 2);
}

#[test]
fn test_mixed_event_ids_fail() {
    test_worker(
        declaration(
            vec![guid_attr(GUID_TEXT)],
            vec![event_with_id(2, "event_one", 1), plain_event(3, "event_two")],
        ),
        &["Event ids must be set for all events, or for none."],
    );
}

#[test]
fn mixed_event_ids_give_exactly_one_fault() {
    let error = analyze(&declaration(
        vec![guid_attr(GUID_TEXT)],
        vec![event_with_id(2, "event_one", 1), plain_event(3, "event_two")],
    ))
    .unwrap_err();
    assert_eq!(
        messages(&error),
        vec!["Event ids must be set for all events, or for none."]
    );
    assert_eq!(error.span(0), span(3));
    // The order of the two events makes no difference to the fault.
    let error = analyze(&declaration(
        vec![guid_attr(GUID_TEXT)],
        vec![
            plain_event(2, "event_one"),
            event_with_id(3, "event_two", 1),
            plain_event(4, "event_three"),
        ],
    ))
    .unwrap_err();
    assert_eq!(
        messages(&error),
        vec!["Event ids must be set for all events, or for none."]
    );
    assert_eq!(error.span(0), span(2));
}

#[test]
fn test_duplicate_event_ids_fail() {
    test_worker(
        declaration(
            vec![guid_attr(GUID_TEXT)],
            vec![
                event(
                    2,
                    "event_one",
                    Vec::new(),
                    vec![event_attr(
                        2,
                        vec![attr("id", AttrValue::Int(1)), attr("id", AttrValue::Int(2))],
                    )],
                ),
                event_with_id(3, "event_two", 3),
            ],
        ),
        &["Event id has already been defined."],
    );
}

#[test]
fn test_single_repeated_event_ids_fail() {
    test_worker(
        declaration(
            vec![guid_attr(GUID_TEXT)],
            vec![event_with_id(2, "event_one", 1), event_with_id(3, "event_two", 1)],
        ),
        &["Event id 1 has already been defined on event_one."],
    );
}

#[test]
fn test_multiple_repeated_event_ids_fail() {
    test_worker(
        declaration(
            vec![guid_attr(GUID_TEXT)],
            vec![
                event_with_id(2, "event_one", 1),
                event_with_id(3, "event_two", 2),
                event_with_id(4, "event_three", 1),
                event_with_id(5, "event_four", 2),
            ],
        ),
        &[
            "Event id 1 has already been defined on event_one.",
            "Event id 2 has already been defined on event_two.",
        ],
    );
}

#[test]
fn every_repeated_event_id_names_its_first_owner() {
    let error = analyze(&declaration(
        vec![guid_attr(GUID_TEXT)],
        vec![
            event_with_id(2, "first", 65535),
            event_with_id(3, "second", 65535),
            event_with_id(4, "third", 65535),
            event_with_id(5, "fourth", 0),
            event_with_id(6, "fifth", 0),
        ],
    ))
    .unwrap_err();
    assert_eq!(
        messages(&error),
        vec![
            "Event id 65535 has already been defined on first.",
            "Event id 65535 has already been defined on first.",
            "Event id 0 has already been defined on fourth.",
        ]
    );
    let lines: Vec<u32> = (0..error.len()).map(|i| error.span(i).line).collect();
    assert_eq!(lines, vec![3, 4, 6]);
}

#[test]
fn test_bad_multiple_errors() {
    test_worker(
        declaration(
            vec![guid_attr("bad guid")],
            vec![one_param_event("bad_arg", param("a", ty(TypeShape::Other, "")))],
        ),
        &[
            "The attribute value is required to be a valid GUID.",
            "This type is not supported for event parameters.",
        ],
    );
}

#[test]
fn bad_guid_and_bad_type_are_both_reported_in_one_pass() {
    let error = analyze(&declaration(
        vec![guid_attr("bad guid")],
        vec![one_param_event("bad_arg", param("a", ty(TypeShape::Other, "")))],
    ))
    .unwrap_err();
    assert_eq!(
        messages(&error),
        vec![
            "The attribute value is required to be a valid GUID.",
            "This type is not supported for event parameters.",
        ]
    );
}

#[test]
fn test_invalid_event_attributes() {
    test_worker(
        declaration(
            vec![guid_attr("00000000-0000-0000-0000-000000000001")],
            vec![event(
                2,
                "event",
                Vec::new(),
                vec![event_attr(2, vec![attr("bad_name", text("bad_value"))])],
            )],
        ),
        &["Unrecognized attribute."],
    );
}

#[test]
fn test_event_attributes_others_forbidden() {
    test_worker(
        declaration(
            vec![guid_attr("00000000-0000-0000-0000-000000000001")],
            vec![event(
                2,
                "event",
                Vec::new(),
                vec![RawAttribute { kind: AttrKind::Foreign, items: Vec::new(), span: span(2) }],
            )],
        ),
        &["The only attributes allowed on event methods are #[doc] and #[event(...)] attributes."],
    );
}

#[test]
fn wrong_item_kind() {
    let mut decl = declaration(Vec::new(), Vec::new());
    decl.kind = ItemKind::Other;
    decl.ident = "wrong_item_kind".to_string();
    test_worker(
        decl,
        &["The #[trace_logging_provider] attribute cannot be used with this kind of item."],
    );
}

#[test]
fn wrong_item_kind_is_the_only_fault() {
    let mut decl = declaration(
        vec![guid_attr("bad")],
        vec![one_param_event("event", receiver())],
    );
    decl.kind = ItemKind::Other;
    let error = analyze(&decl).unwrap_err();
    assert_eq!(error.len(), 1);
}

#[test]
fn multiple_errors_detected() {
    test_worker(
        declaration(
            Vec::new(),
            vec![
                event(
                    2,
                    "event_one",
                    Vec::new(),
                    vec![RawAttribute {
                        kind: AttrKind::Foreign,
                        items: Vec::new(),
                        span: span(2),
                    }],
                ),
                event_with_id(3, "event_two", 1),
                event_with_id(4, "event_three", 2),
                event_with_id(5, "event_four", 1),
            ],
        ),
        &[
            "The only attributes allowed on event methods are #[doc] and #[event(...)] attributes.",
            "Event ids must be set for all events, or for none.",
            "Event id 1 has already been defined on event_two.",
        ],
    );
}

#[test]
fn provider_groups() {
    let model = test_worker(
        declaration(
            vec![
                guid_attr("00000000-0000-0000-0000-000000000001"),
                attr("provider_group_guid", text("00000000-0000-0000-0000-000000000002")),
            ],
            vec![plain_event(2, "foo")],
        ),
        &[],
    )
    .unwrap();
    assert_eq!(model.provider_group_guid.unwrap().data4[7], 2);
}

#[test]
fn provider_attributes_multiple_provider_groups() {
    test_worker(
        declaration(
            vec![
                guid_attr("00000000-0000-0000-0000-000000000001"),
                attr("provider_group_guid", text("00000000-0000-0000-0000-000000000002")),
                attr("provider_group_guid", text("00000000-0000-0000-0000-000000000003")),
            ],
            vec![plain_event(2, "foo")],
        ),
        &["The 'provider_group_guid' attribute key cannot be specified more than once."],
    );
}

#[test]
fn event_with_keyword() {
    let model = test_worker(
        declaration(
            vec![guid_attr("00000000-0000-0000-0000-000000000001")],
            vec![event(
                2,
                "foo",
                Vec::new(),
                vec![event_attr(2, vec![attr("keyword", AttrValue::Int(100))])],
            )],
        ),
        &[],
    )
    .unwrap();
    assert_eq!(model.events[0].keyword, 100);
}

#[test]
fn error_multiple_keyword() {
    test_worker(
        declaration(
            vec![guid_attr("00000000-0000-0000-0000-000000000001")],
            vec![event(
                2,
                "foo",
                Vec::new(),
                vec![event_attr(
                    2,
                    vec![
                        attr("keyword", AttrValue::Int(100)),
                        attr("keyword", AttrValue::Int(200)),
                    ],
                )],
            )],
        ),
        &["The 'keyword' attribute cannot be specified more than once."],
    );
}

#[test]
fn provider_with_autogenerated_guid() {
    let mut decl = declaration(
        Vec::new(),
        vec![one_param_event("arg_str", param("arg", ty(TypeShape::Ref, "str")))],
    );
    decl.ident = "ProviderWithAutogeneratedGuid".to_string();
    let model = analyze(&decl).unwrap();
    assert_eq!("ProviderWithAutogeneratedGuid", model.name);
    assert_eq!(model.guid.data1, 0x0d31f5cc);
    assert_eq!(model.guid.data2, 0xfb84);
    assert_eq!(model.guid.data3, 0x50db);
    assert_eq!(model.guid.data4, [0xa6, 0x02, 0x8c, 0x7b, 0xed, 0x9c, 0x5b, 0x8b]);
}

#[test]
fn provider_with_autogenerated_guid_and_custom_provider_name() {
    let mut decl = declaration(
        vec![attr("name", text("Your.Provider.Name"))],
        vec![one_param_event("arg_str", param("arg", ty(TypeShape::Ref, "str")))],
    );
    decl.ident = "ProviderWithAutogeneratedGuidAndCustomProviderName".to_string();
    let model = analyze(&decl).unwrap();
    assert_eq!("Your.Provider.Name", model.name);
    assert_eq!(model.guid.data1, 0x0cec4c9d);
    assert_eq!(model.guid.data2, 0xcaa7);
    assert_eq!(model.guid.data3, 0x5d85);
    assert_eq!(model.guid.data4, [0xb3, 0xbd, 0xc7, 0x35, 0x77, 0xf0, 0x3f, 0xd8]);
}

#[test]
fn provider_with_custom_guid_and_custom_provider_name() {
    let mut decl = declaration(
        vec![
            attr("name", text("Another.Provider.Name")),
            guid_attr("86fe5bee-dec7-40f2-b39b-a46c20633042"),
        ],
        vec![one_param_event("arg_str", param("arg", ty(TypeShape::Ref, "str")))],
    );
    decl.ident = "ProviderWithCustomGuidAndCustomProviderName".to_string();
    let model = analyze(&decl).unwrap();
    assert_eq!("Another.Provider.Name", model.name);
    assert_eq!(model.guid.data1, 0x86fe5bee);
    assert_eq!(model.guid.data2, 0x40f2 - 0x40f2 + 0xdec7);
    assert_eq!(model.guid.data3, 0x40f2);
    assert_eq!(model.guid.data4, [0xb3, 0x9b, 0xa4, 0x6c, 0x20, 0x63, 0x30, 0x42]);
}

#[test]
fn provider_needs_a_name_or_a_guid() {
    let mut decl = declaration(Vec::new(), Vec::new());
    decl.ident = String::new();
    let error = analyze(&decl).unwrap_err();
    assert_eq!(messages(&error), vec!["A provider requires a name or a GUID."]);
    let mut decl = declaration(vec![guid_attr(GUID_TEXT)], Vec::new());
    decl.ident = String::new();
    assert!(analyze(&decl).is_ok());
}

#[test]
fn provider_name_must_fit_the_blob() {
    let mut decl = declaration(vec![guid_attr(GUID_TEXT)], Vec::new());
    decl.ident = "x".repeat(0xffff - 3);
    assert!(analyze(&decl).is_ok());
    decl.ident = "x".repeat(0xffff - 2);
    let error = analyze(&decl).unwrap_err();
    assert_eq!(messages(&error), vec!["The provider name is too long."]);
}

#[test]
fn event_must_fit_the_blob() {
    let decl = declaration(
        vec![guid_attr(GUID_TEXT)],
        vec![one_param_event(
            &"e".repeat(0xffff),
            param("a", ty(TypeShape::Value, "u8")),
        )],
    );
    let error = analyze(&decl).unwrap_err();
    assert_eq!(
        messages(&error),
        vec!["The event has too many fields, or names that are too long."]
    );
}

#[test]
fn static_mode_needs_every_event_id() {
    let decl = declaration(
        vec![guid_attr(GUID_TEXT), attr("static_mode", AttrValue::Flag)],
        vec![plain_event(2, "one"), plain_event(3, "two")],
    );
    let error = analyze(&decl).unwrap_err();
    assert_eq!(
        messages(&error),
        vec![
            "Event ids must be set for every event of a provider in static mode.",
            "Event ids must be set for every event of a provider in static mode.",
        ]
    );
    let decl = declaration(
        vec![guid_attr(GUID_TEXT), attr("static_mode", AttrValue::Flag)],
        vec![event_with_id(2, "one", 7), event_with_id(3, "two", 8)],
    );
    let model = analyze(&decl).unwrap();
    assert!(model.static_mode);
}

#[test]
fn event_shape_faults_are_all_reported() {
    let mut e = plain_event(2, "event");
    e.is_async = true;
    e.is_unsafe = true;
    e.is_generic = true;
    e.has_return_type = true;
    e.has_body = true;
    e.params = vec![receiver()];
    let error = analyze(&declaration(vec![guid_attr(GUID_TEXT)], vec![e])).unwrap_err();
    assert_eq!(
        messages(&error),
        vec![
            "Async event methods are not supported.",
            "Event methods should not be marked unsafe.",
            "Generic event methods are not supported.",
            "Event methods must not return data.",
            "Event methods must not contain an implementation.",
            "Event methods should not provide any receiver arguments (&self, &mut self, etc.).",
        ]
    );
}

#[test]
fn event_option_faults() {
    let items = vec![
        attr("level", text("loud")),
        attr("level", text("info")),
        attr("opcode", AttrValue::Int(256)),
        attr("opcode", AttrValue::Int(255)),
        attr("opcode", AttrValue::Int(1)),
        attr("task", text("x")),
        attr("task", AttrValue::Int(65535)),
        attr("task", AttrValue::Int(1)),
        attr("keyword", AttrValue::Flag),
        attr("id", AttrValue::Int(65536)),
        attr("id", text("1")),
        attr("output", text("hex")),
    ];
    let e = event(2, "event", Vec::new(), vec![event_attr(2, items)]);
    let error = analyze(&declaration(vec![guid_attr(GUID_TEXT)], vec![e])).unwrap_err();
    assert_eq!(
        messages(&error),
        vec![
            "The value specified for 'level' is not a valid string.",
            "The 'level' attribute cannot be specified more than once.",
            "The value specified for 'opcode' must be a u8.",
            "The 'opcode' attribute cannot be specified more than once.",
            "The value specified for 'task' must be a u16.",
            "The 'task' attribute cannot be specified more than once.",
            "The value specified for 'keyword' must be a u64.",
            "Event id must be a u16.",
            "Event id must be a u16.",
            "Unrecognized attribute.",
        ]
    );
}

#[test]
fn level_values() {
    let event_at = |value: AttrValue| {
        event(2, "e", Vec::new(), vec![event_attr(2, vec![attr("level", value)])])
    };
    let cases = [
        (text("critical"), Some(1u8)),
        (text("error"), Some(2)),
        (text("warn"), Some(3)),
        (text("info"), Some(4)),
        (text("verbose"), Some(5)),
        (AttrValue::Int(0), Some(0)),
        (AttrValue::Int(255), Some(255)),
        (AttrValue::Int(256), None),
        (AttrValue::Flag, None),
        (AttrValue::Other, None),
    ];
    for (value, expected) in cases {
        let result = analyze(&declaration(vec![guid_attr(GUID_TEXT)], vec![event_at(value)]));
        match expected {
            Some(level) => assert_eq!(result.unwrap().events[0].level, Level(level)),
            None => assert_eq!(
                messages(&result.unwrap_err()),
                vec!["The value specified for 'level' is not recognized."]
            ),
        }
    }
}

#[test]
fn parameter_faults() {
    let mut odd = param("a", ty(TypeShape::Value, "u8"));
    odd.plain_name = false;
    let mut noisy = param("b", ty(TypeShape::Value, "u8"));
    noisy.attrs = vec![
        RawAttribute { kind: AttrKind::Doc, items: Vec::new(), span: span(3) },
        RawAttribute { kind: AttrKind::EventMalformed, items: Vec::new(), span: span(3) },
        event_attr(
            3,
            vec![
                attr("output", text("octal")),
                attr("output", AttrValue::Int(16)),
                attr("level", text("info")),
            ],
        ),
    ];
    let e = event(2, "event", vec![odd, noisy], Vec::new());
    let error = analyze(&declaration(vec![guid_attr(GUID_TEXT)], vec![e])).unwrap_err();
    assert_eq!(
        messages(&error),
        vec![
            "Only ordinary identifier patterns are supported on event methods.",
            "The form of the #[event] attribute is invalid. It should be: #[event(name = \"value\", name2 = \"value2\", ...)].",
            "The value specified for 'output' is not recognized.",
            "The value specified for 'output' must be a string.",
            "Unrecognized attribute.",
        ]
    );
}

#[test]
fn parameters_keep_their_order() {
    let names = ["zulu", "alpha", "mike", "bravo"];
    let params: Vec<RawParam> = names
        .iter()
        .map(|n| param(n, ty(TypeShape::Value, "u64")))
        .collect();
    let model = analyze(&declaration(
        vec![guid_attr(GUID_TEXT)],
        vec![event(2, "event", params, Vec::new())],
    ))
    .unwrap();
    let found: Vec<&str> = model.events[0].params.iter().map(|p| p.name.as_str()).collect();
    assert_eq!(found, names);
}

#[test]
fn documentation_is_carried_through() {
    let mut e = plain_event(2, "event");
    e.doc = "Log a floating point value.".to_string();
    e.attrs = vec![RawAttribute { kind: AttrKind::Doc, items: Vec::new(), span: span(2) }];
    let model = analyze(&declaration(vec![guid_attr(GUID_TEXT)], vec![e, plain_event(3, "other")]))
        .unwrap();
    assert_eq!(model.events[0].doc, "Log a floating point value.");
    assert_eq!(model.events[1].doc, "");
}

#[test]
fn provider_name_must_fit_the_traits_of_a_grouped_provider() {
    let group = attr("provider_group_guid", text("00000000-0000-0000-0000-000000000002"));
    let mut decl = declaration(vec![guid_attr(GUID_TEXT), group], Vec::new());
    decl.ident = "x".repeat(0xffff - 22);
    assert!(analyze(&decl).is_ok());
    decl.ident = "x".repeat(0xffff - 21);
    let error = analyze(&decl).unwrap_err();
    assert_eq!(messages(&error), vec!["The provider name is too long."]);
    // Without a group the same name fits.
    let mut plain = declaration(vec![guid_attr(GUID_TEXT)], Vec::new());
    plain.ident = "x".repeat(0xffff - 21);
    assert!(analyze(&plain).is_ok());
}

#[test]
fn a_provider_has_at_most_65536_events() {
    let events = |count: usize| -> Vec<RawEvent> {
        (0..count).map(|i| plain_event(i as u32, "e")).collect()
    };
    let model = analyze(&declaration(vec![guid_attr(GUID_TEXT)], events(0x1_0000))).unwrap();
    assert_eq!(model.events.len(), 0x1_0000);
    assert_eq!(model.events[0xffff].id, 0xffff);
    let error = analyze(&declaration(vec![guid_attr(GUID_TEXT)], events(0x1_0001))).unwrap_err();
    assert_eq!(
        messages(&error),
        vec!["A provider cannot declare more than 65536 events."]
    );
    assert_eq!(error.span(0), span(0));
}
