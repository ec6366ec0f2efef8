use uuid::Uuid;
use win_etw::guid::{etw_event_source_guid, guid_from_sha1};
use win_etw::GUID;

fn guid(text: &str) -> GUID {
    GUID::from(text)
}

#[test]
fn test_uuid() {
    let uuid = Uuid::parse_str("1a1a1a1a-2b2b-3c3c-4142-434546474849").unwrap();
    let guid: GUID = GUID::from_be_bytes(uuid.as_bytes());
    assert_eq!(guid.data1, 0x1a1a_1a1a);
    assert_eq!(guid.data2, 0x2b2b);
    assert_eq!(guid.data3, 0x3c3c);
    assert_eq!(guid.data4, [0x41, 0x42, 0x43, 0x45, 0x46, 0x47, 0x48, 0x49]);
}

#[test]
fn test_from_str() {
    let guid_str = "1a1a1a1a-2b2b-3c3c-4142-434546474849";
    let guid: GUID = GUID::from(guid_str);
    assert_eq!(guid.data1, 0x1a1a_1a1a);
    assert_eq!(guid.data2, 0x2b2b);
    assert_eq!(guid.data3, 0x3c3c);
    assert_eq!(guid.data4, [0x41, 0x42, 0x43, 0x45, 0x46, 0x47, 0x48, 0x49]);
}

#[test]
fn test_etw_name_based_guid() {
    // the expected values below were generated by passing the provider name to
    // `[System.Diagnostics.Tracing.EventSource]::new("YourProviderName").Guid`
    assert_eq!(
        guid("5fefebda-b28e-5a81-d371-cebf3d3ddb41"),
        etw_event_source_guid("YourProviderName")
    );
    assert_eq!(
        guid("6f8eac67-f87f-598a-71a0-67e48d8c468d"),
        etw_event_source_guid("YourProviderNameYourProviderName")
    );
    assert_eq!(
        guid("5b1bddda-c110-53c9-b030-17aea3bfabd9"),
        etw_event_source_guid("YourProviderNameYourProviderNameYourProviderNameYourProviderName")
    );
    assert_eq!(
        guid("0cec4c9d-caa7-5d85-b3bd-c73577f03fd8"),
        etw_event_source_guid("Your.Provider.Name")
    );
    assert_eq!(
        guid("32805bf5-e0cc-522a-5f56-20c3e359ed93"),
        etw_event_source_guid("Your.Provider.Name.Your.Provider.Name")
    );
    assert_eq!(
        guid("ce5fa4ea-ab00-5402-8b76-9f76ac858fb5"),
        etw_event_source_guid("MyCompany.MyComponent")
    );
    assert_eq!(
        guid("0d31f5cc-fb84-50db-a602-8c7bed9c5b8b"),
        etw_event_source_guid("ProviderWithAutogeneratedGuid")
    );
}

#[test]
fn name_based_guid_is_deterministic_and_distinct_on_golden_names() {
    let names = [
        "ProviderWithAutogeneratedGuid",
        "Your.Provider.Name",
        "MyCompany.MyComponent",
    ];
    for a in names.iter() {
        assert_eq!(etw_event_source_guid(a), etw_event_source_guid(a));
        for b in names.iter() {
            if a != b {
                assert_ne!(etw_event_source_guid(a), etw_event_source_guid(b));
            }
        }
    }
}

#[test]
fn name_based_guid_ignores_case() {
    assert_eq!(
        etw_event_source_guid("your.provider.name"),
        etw_event_source_guid("YOUR.PROVIDER.NAME")
    );
}

#[test]
fn name_based_guid_is_not_its_input() {
    // A hash that handed its input back would leave the namespace in the identifier.
    let g = etw_event_source_guid("");
    assert_ne!(g.to_le_bytes()[..4], [0x48, 0x2C, 0x2D, 0xB2]);
}

#[test]
fn guid_from_sha1_sets_the_version() {
    let mut digest = [0u8; 20];
    for (i, byte) in digest.iter_mut().enumerate() {
        *byte = 0xf0 + i as u8;
    }
    let g = guid_from_sha1(&digest);
    assert_eq!(g.data1, 0xf3f2f1f0);
    assert_eq!(g.data2, 0xf5f4);
    assert_eq!(g.data3, 0x57f6);
    assert_eq!(g.data4, [0xf8, 0xf9, 0xfa, 0xfb, 0xfc, 0xfd, 0xfe, 0xff]);
}

#[test]
fn guid_parse_accepts_braces_and_rejects_malformed_text() {
    let plain = GUID::parse("861A3948-3B6B-4DDF-B862-B2CB361E238E").unwrap();
    let braced = GUID::parse("{861a3948-3b6b-4ddf-b862-b2cb361e238e}").unwrap();
    assert_eq!(plain, braced);
    assert_eq!(plain.data1, 0x861a3948);
    assert!(GUID::parse("xxx").is_none());
    assert!(GUID::parse("861A3948-3B6B-4DDF-B862-B2CB361E238").is_none());
    assert!(GUID::parse("").is_none());
}

#[test]
fn guid_to_string_is_lower_case_hex() {
    let g = guid("861A3948-3B6B-4DDF-B862-B2CB361E238E");
    assert_eq!(g.to_string(), "861a3948-3b6b-4ddf-b862-b2cb361e238e");
    assert_eq!(GUID::default().to_string(), "00000000-0000-0000-0000-000000000000");
    let g = GUID {
        data1: 0x1a1a_1a1a,
        data2: 0x2b2b,
        data3: 0x3c3c,
        data4: [0x41, 0x42, 0x43, 0x45, 0x46, 0x47, 0x48, 0x49],
    };
    assert_eq!(g.to_string(), "1a1a1a1a-2b2b-3c3c-4142-434546474849");
    let g = GUID { data1: 1, data2: 2, data3: 3, data4: [4, 5, 6, 7, 8, 9, 10, 0xff] };
    assert_eq!(g.to_string(), "00000001-0002-0003-0405-060708090aff");
}

#[test]
fn guid_nil_and_bytes() {
    assert!(GUID::default().is_nil());
    let g = guid("00000000-0000-0000-0000-000000000001");
    assert!(!g.is_nil());
    let g = guid("01020304-0506-0708-090a-0b0c0d0e0f10");
    assert_eq!(
        g.to_le_bytes(),
        vec![4, 3, 2, 1, 6, 5, 8, 7, 9, 10, 11, 12, 13, 14, 15, 16]
    );
    let mut wire = [0u8; 16];
    wire.copy_from_slice(&g.to_le_bytes());
    assert_eq!(GUID::from_le_bytes(&wire), g);
    assert_eq!(g.clone(), g);
}

#[test]
fn parsing_undoes_to_string() {
    let ids = [
        GUID::default(),
        guid("861A3948-3B6B-4DDF-B862-B2CB361E238E"),
        GUID { data1: u32::MAX, data2: u16::MAX, data3: u16::MAX, data4: [0xff; 8] },
        GUID { data1: 1, data2: 2, data3: 3, data4: [4, 5, 6, 7, 8, 9, 10, 11] },
        etw_event_source_guid("MyCompany.MyComponent"),
    ];
    for id in ids.iter() {
        let text = id.to_string();
        assert_eq!(text.len(), 36);
        for (at, c) in text.chars().enumerate() {
            if at == 8 || at == 13 || at == 18 || at == 23 {
                assert_eq!(c, '-');
            } else {
                assert!(c.is_ascii_digit() || ('a'..='f').contains(&c));
            }
        }
        assert_eq!(GUID::parse(&text), Some(id.clone()));
        assert_eq!(GUID::from(text.as_str()), *id);
    }
}
