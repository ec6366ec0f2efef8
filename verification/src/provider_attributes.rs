//! The configuration of a provider: its identifier, its name, its provider
//! group and its registration mode.

use crate::declaration::{AttrValue, RawAttr};
use crate::encoding::{be_bytes, be_bytes_len, be_value_of_be_bytes, byte_limit};
use crate::errors::{CombinedErrors, DiagnosticView, Error, Span};
use crate::guid::{uuid_parse_str, GUID};
use crate::text::{copy_str, str_eq};
use vstd::prelude::*;

verus! {

/// The configuration of a provider, as far as its declaration gives it.
#[derive(Debug)]
pub struct ProviderAttributes {
    /// The identifier of the provider.
    pub uuid: Option<GUID>,
    /// The name of the provider.
    pub provider_name: Option<String>,
    /// The identifier of the provider group that the provider belongs to.
    pub provider_group_guid: Option<GUID>,
    /// Whether the provider is registered in the static mode.
    pub static_mode: bool,
}

/// The configuration of a provider as plain values: identifiers by their
/// sixteen bytes in text order.
pub struct ProviderAttributesView {
    /// The identifier of the provider.
    pub uuid: Option<Seq<u8>>,
    /// The name of the provider.
    pub provider_name: Option<Seq<char>>,
    /// The identifier of the provider group.
    pub provider_group_guid: Option<Seq<u8>>,
    /// Whether the provider is registered in the static mode.
    pub static_mode: bool,
}

impl View for ProviderAttributes {
    type V = ProviderAttributesView;

    open spec fn view(&self) -> ProviderAttributesView {
        ProviderAttributesView {
            uuid: match self.uuid {
                Some(g) => Some(g.canonical_bytes()),
                None => None,
            },
            provider_name: match self.provider_name {
                Some(n) => Some(n@),
                None => None,
            },
            provider_group_guid: match self.provider_group_guid {
                Some(g) => Some(g.canonical_bytes()),
                None => None,
            },
            static_mode: self.static_mode,
        }
    }
}

/// The configuration in which nothing is given.
pub open spec fn no_attributes() -> ProviderAttributesView {
    ProviderAttributesView {
        uuid: None,
        provider_name: None,
        provider_group_guid: None,
        static_mode: false,
    }
}

impl Default for ProviderAttributes {
    fn default() -> (attrs: ProviderAttributes)
        ensures
            attrs@ == no_attributes(),
    {
        ProviderAttributes {
            uuid: None,
            provider_name: None,
            provider_group_guid: None,
            static_mode: false,
        }
    }
}

/// The sixteen bytes of the identifier whose every bit is zero.
pub open spec fn nil_bytes() -> Seq<u8> {
    Seq::new(16, |i: int| 0u8)
}

/// The identifier that a value gives, by its bytes, and what is wrong with the
/// value, if anything. A value that gives no identifier stands for the nil one.
pub open spec fn guid_value(value: AttrValue) -> (Seq<u8>, Seq<Seq<char>>) {
    match value {
        AttrValue::Str(text) => match uuid_parse_str(text@) {
            Some(bytes) => if bytes == nil_bytes() {
                (bytes, seq!["The GUID cannot be the NIL (all-zeroes) GUID."@])
            } else {
                (bytes, Seq::<Seq<char>>::empty())
            },
            None => (nil_bytes(), seq!["The attribute value is required to be a valid GUID."@]),
        },
        _ => (nil_bytes(), seq!["The attribute value is required to be a GUID in string form."@]),
    }
}

/// The configuration after one more item, and what is wrong with the item.
pub open spec fn provider_attr_step(state: ProviderAttributesView, attr: RawAttr) -> (
    ProviderAttributesView,
    Seq<Seq<char>>,
) {
    if attr.value is Flag {
        if attr.key@ == "static_mode"@ {
            (ProviderAttributesView { static_mode: true, ..state }, Seq::<Seq<char>>::empty())
        } else {
            (state, seq!["Unrecognized attribute item."@])
        }
    } else if attr.key@ == "guid"@ {
        let (bytes, faults) = guid_value(attr.value);
        if state.uuid is Some {
            (
                state,
                faults.push("The 'guid' attribute key cannot be specified more than once."@),
            )
        } else {
            (ProviderAttributesView { uuid: Some(bytes), ..state }, faults)
        }
    } else if attr.key@ == "name"@ {
        match attr.value {
            AttrValue::Str(name) => if state.provider_name is Some {
                (state, seq!["The 'name' attribute key cannot be specified more than once."@])
            } else {
                (
                    ProviderAttributesView { provider_name: Some(name@), ..state },
                    Seq::<Seq<char>>::empty(),
                )
            },
            _ => (state, seq!["The 'name' attribute key requires a string value."@]),
        }
    } else if attr.key@ == "provider_group_guid"@ {
        let (bytes, faults) = guid_value(attr.value);
        if state.provider_group_guid is Some {
            (
                state,
                faults.push(
                    "The 'provider_group_guid' attribute key cannot be specified more than once."@,
                ),
            )
        } else {
            (ProviderAttributesView { provider_group_guid: Some(bytes), ..state }, faults)
        }
    } else {
        (state, seq!["Unrecognized attribute key."@])
    }
}

/// The faults with the given messages, all at one place.
pub open spec fn faults_at(messages: Seq<Seq<char>>, span: Span) -> Seq<
    DiagnosticView,
> {
    messages.map_values(|m: Seq<char>| DiagnosticView { message: m, span })
}

/// The configuration that a list of items gives, and every fault of the
/// list, in the order of the items.
pub open spec fn provider_attributes_of(attrs: Seq<RawAttr>) -> (
    ProviderAttributesView,
    Seq<DiagnosticView>,
)
    decreases attrs.len(),
{
    if attrs.len() == 0 {
        (no_attributes(), Seq::<DiagnosticView>::empty())
    } else {
        let (before, faults) = provider_attributes_of(attrs.drop_last());
        let (after, messages) = provider_attr_step(before, attrs.last());
        (after, faults + faults_at(messages, attrs.last().span))
    }
}

/// An identifier is nil where its bytes are all zero, and only there.
pub proof fn nil_by_bytes(g: GUID)
    ensures
        g.is_nil_spec() <==> g.canonical_bytes() == nil_bytes(),
{
    be_bytes_len(g.data1 as nat, 4);
    be_bytes_len(g.data2 as nat, 2);
    be_bytes_len(g.data3 as nat, 2);
    assert(byte_limit(4) == 0x1_0000_0000) by {
        reveal_with_fuel(byte_limit, 5);
    }
    assert(byte_limit(2) == 0x1_0000) by {
        reveal_with_fuel(byte_limit, 3);
    }
    be_value_of_be_bytes(g.data1 as nat, 4);
    be_value_of_be_bytes(g.data2 as nat, 2);
    be_value_of_be_bytes(g.data3 as nat, 2);
    let zero4 = seq![0u8, 0u8, 0u8, 0u8];
    let zero2 = seq![0u8, 0u8];
    assert(be_bytes(0, 4) =~= zero4) by {
        reveal_with_fuel(be_bytes, 5);
    }
    assert(be_bytes(0, 2) =~= zero2) by {
        reveal_with_fuel(be_bytes, 3);
    }
    let bytes = g.canonical_bytes();
    if g.is_nil_spec() {
        assert(bytes =~= nil_bytes());
    }
    if bytes == nil_bytes() {
        assert(bytes.subrange(0, 4) =~= be_bytes(g.data1 as nat, 4));
        assert(bytes.subrange(4, 6) =~= be_bytes(g.data2 as nat, 2));
        assert(bytes.subrange(6, 8) =~= be_bytes(g.data3 as nat, 2));
        assert(bytes.subrange(8, 16) =~= g.data4@);
        assert(nil_bytes().subrange(0, 4) =~= zero4);
        assert(nil_bytes().subrange(4, 6) =~= zero2);
        assert(nil_bytes().subrange(6, 8) =~= zero2);
        assert(nil_bytes().subrange(8, 16) =~= seq![0u8, 0u8, 0u8, 0u8, 0u8, 0u8, 0u8, 0u8]);
        be_value_of_be_bytes(0, 4);
        be_value_of_be_bytes(0, 2);
    }
}

/// The nil identifier has a fault of its own: a text that spells the nil
/// identifier is reported as that, and not as a text that spells no identifier.
pub proof fn nil_guid_has_its_own_fault(text: String)
    requires
        uuid_parse_str(text@) == Some(nil_bytes()),
    ensures
        guid_value(AttrValue::Str(text)).1 == seq![
            "The GUID cannot be the NIL (all-zeroes) GUID."@,
        ],
        "The GUID cannot be the NIL (all-zeroes) GUID."@
            != "The attribute value is required to be a valid GUID."@,
{
    reveal_strlit("The GUID cannot be the NIL (all-zeroes) GUID.");
    reveal_strlit("The attribute value is required to be a valid GUID.");
    assert("The GUID cannot be the NIL (all-zeroes) GUID."@.len() == 45);
    assert("The attribute value is required to be a valid GUID."@.len() == 51);
}

/// Reads the identifier that a value gives, and reports what is wrong with
/// the value at the given place.
pub fn parse_guid_value(value: &AttrValue, span: Span, errors: &mut CombinedErrors) -> (g:
    GUID)
    ensures
        g.canonical_bytes() == guid_value(*value).0,
        final(errors)@ == old(errors)@ + faults_at(guid_value(*value).1, span),
{
    let g = match value {
        AttrValue::Str(text) => {
            match GUID::parse(text.as_str()) {
                Some(g) => {
                    proof {
                        nil_by_bytes(g);
                    }
                    if g.is_nil() {
                        errors.msg(span, "The GUID cannot be the NIL (all-zeroes) GUID.");
                    }
                    g
                },
                None => {
                    errors.msg(span, "The attribute value is required to be a valid GUID.");
                    GUID::default()
                },
            }
        },
        _ => {
            errors.msg(span, "The attribute value is required to be a GUID in string form.");
            GUID::default()
        },
    };
    proof {
        nil_by_bytes(g);
        let messages = guid_value(*value).1;
        assert(final(errors)@ =~= old(errors)@ + faults_at(messages, span));
    }
    g
}

impl ProviderAttributes {
    /// Reads the configuration of a provider from the items of its
    /// declaration. Every fault of every item is reported, in the order of
    /// the items; the configuration is handed out where there is none.
    pub fn parse(attrs: &Vec<RawAttr>) -> (r: Result<ProviderAttributes, Error>)
        ensures
            match r {
                Ok(parsed) => provider_attributes_of(attrs@).1.len() == 0 && parsed@
                    == provider_attributes_of(attrs@).0,
                Err(e) => e@ == provider_attributes_of(attrs@).1,
            },
    {
        let mut errors = CombinedErrors::default();
        let parsed = ProviderAttributes::parse_into(attrs, &mut errors);
        proof {
            assert(Seq::<DiagnosticView>::empty() + provider_attributes_of(attrs@).1
                =~= provider_attributes_of(attrs@).1);
        }
        errors.into_result(parsed)
    }

    /// Reads the configuration of a provider from the items of its
    /// declaration, and adds every fault of every item to a collection.
    pub fn parse_into(attrs: &Vec<RawAttr>, errors: &mut CombinedErrors) -> (parsed:
        ProviderAttributes)
        ensures
            parsed@ == provider_attributes_of(attrs@).0,
            final(errors)@ == old(errors)@ + provider_attributes_of(attrs@).1,
    {
        let mut parsed = ProviderAttributes::default();
        let mut i: usize = 0;
        proof {
            assert(attrs@.subrange(0, 0) =~= Seq::<RawAttr>::empty());
            assert(errors@ =~= old(errors)@ + Seq::<DiagnosticView>::empty());
        }
        while i < attrs.len()
            invariant
                i <= attrs@.len(),
                parsed@ == provider_attributes_of(attrs@.subrange(0, i as int)).0,
                errors@ == old(errors)@ + provider_attributes_of(attrs@.subrange(0, i as int)).1,
            decreases attrs@.len() - i,
        {
            let attr = &attrs[i];
            let ghost before = parsed@;
            let ghost faults_before = errors@;
            proof {
                let longer = attrs@.subrange(0, i as int + 1);
                assert(longer.drop_last() =~= attrs@.subrange(0, i as int));
                assert(longer.last() == attrs@[i as int]);
            }
            let key = attr.key.as_str();
            if matches!(attr.value, AttrValue::Flag) {
                if str_eq(key, "static_mode") {
                    parsed.static_mode = true;
                    proof {
                        assert(errors@ =~= faults_before + faults_at(
                            Seq::<Seq<char>>::empty(),
                            attr.span,
                        ));
                    }
                } else {
                    errors.msg(attr.span, "Unrecognized attribute item.");
                    proof {
                        assert(errors@ =~= faults_before + faults_at(
                            seq!["Unrecognized attribute item."@],
                            attr.span,
                        ));
                    }
                }
            } else if str_eq(key, "guid") {
                let g = parse_guid_value(&attr.value, attr.span, errors);
                if parsed.uuid.is_some() {
                    errors.msg(
                        attr.span,
                        "The 'guid' attribute key cannot be specified more than once.",
                    );
                    proof {
                        let faults = guid_value(attr.value).1;
                        assert(errors@ =~= faults_before + faults_at(
                            faults.push(
                                "The 'guid' attribute key cannot be specified more than once."@,
                            ),
                            attr.span,
                        ));
                    }
                } else {
                    parsed.uuid = Some(g);
                }
            } else if str_eq(key, "name") {
                match &attr.value {
                    AttrValue::Str(name) => {
                        if parsed.provider_name.is_some() {
                            errors.msg(
                                attr.span,
                                "The 'name' attribute key cannot be specified more than once.",
                            );
                            proof {
                                assert(errors@ =~= faults_before + faults_at(
                                    seq![
                                        "The 'name' attribute key cannot be specified more than once."@,
                                    ],
                                    attr.span,
                                ));
                            }
                        } else {
                            parsed.provider_name = Some(copy_str(name.as_str()));
                            proof {
                                assert(errors@ =~= faults_before + faults_at(
                                    Seq::<Seq<char>>::empty(),
                                    attr.span,
                                ));
                            }
                        }
                    },
                    _ => {
                        errors.msg(attr.span, "The 'name' attribute key requires a string value.");
                        proof {
                            assert(errors@ =~= faults_before + faults_at(
                                seq!["The 'name' attribute key requires a string value."@],
                                attr.span,
                            ));
                        }
                    },
                }
            } else if str_eq(key, "provider_group_guid") {
                let g = parse_guid_value(&attr.value, attr.span, errors);
                if parsed.provider_group_guid.is_some() {
                    errors.msg(
                        attr.span,
                        "The 'provider_group_guid' attribute key cannot be specified more than once.",
                    );
                    proof {
                        let faults = guid_value(attr.value).1;
                        assert(errors@ =~= faults_before + faults_at(
                            faults.push(
                                "The 'provider_group_guid' attribute key cannot be specified more than once."@,
                            ),
                            attr.span,
                        ));
                    }
                } else {
                    parsed.provider_group_guid = Some(g);
                }
            } else {
                errors.msg(attr.span, "Unrecognized attribute key.");
                proof {
                    assert(errors@ =~= faults_before + faults_at(
                        seq!["Unrecognized attribute key."@],
                        attr.span,
                    ));
                }
            }
            proof {
                let step = provider_attr_step(before, attrs@[i as int]);
                assert(parsed@ == step.0);
                assert(errors@ == faults_before + faults_at(step.1, attrs@[i as int].span));
                let prior = provider_attributes_of(attrs@.subrange(0, i as int)).1;
                assert(old(errors)@ + prior + faults_at(step.1, attrs@[i as int].span) =~= old(
                    errors,
                )@ + (prior + faults_at(step.1, attrs@[i as int].span)));
            }
            i = i + 1;
        }
        proof {
            assert(attrs@.subrange(0, attrs@.len() as int) =~= attrs@);
        }
        parsed
    }
}

} // verus!
