//! The binary metadata that describes a provider and each of its events to a
//! decoder.
//!
//! A blob starts with its own length in two bytes, least significant first.
//! The blob of a provider then holds the provider's name and a zero byte. The
//! blob of an event holds a byte of extension flags, the event's name and a
//! zero byte, and then for each field, in the order of the declaration, the
//! field's name, a zero byte, its type tag and, where the tag has the chain
//! flag, its display tag.

use crate::encoding::{le_bytes, le_bytes_len, put_slice, put_u16_le, put_u8};
use crate::guid::GUID;
use crate::model::{EventModel, EventSpec, ParamModel, ParamSpec};
use vstd::prelude::*;
use vstd::utf8::encode_utf8;

verus! {

/// The longest blob that the two bytes of its length can describe.
pub const MAX_METADATA_LEN: usize = 0xffff;

/// The kind of provider trait that names the provider group.
pub const PROVIDER_TRAIT_GROUP: u8 = 1;

/// The number of bytes in the blob of a provider with the given name.
pub open spec fn provider_metadata_len(name: Seq<char>) -> nat {
    2 + encode_utf8(name).len() + 1
}

/// The blob of a provider with the given name.
pub open spec fn provider_metadata(name: Seq<char>) -> Seq<u8> {
    le_bytes(provider_metadata_len(name), 2) + encode_utf8(name) + seq![0u8]
}

/// The bytes that describe one field where pointers are `bits` wide.
pub open spec fn field_metadata(field: ParamSpec, bits: int) -> Seq<u8> {
    encode_utf8(field.name) + seq![0u8, field.in_tag(bits)] + match field.out_tag() {
        Some(out) => seq![out],
        None => Seq::<u8>::empty(),
    }
}

/// The bytes that describe the fields of an event, in their order.
pub open spec fn fields_metadata(fields: Seq<ParamSpec>, bits: int) -> Seq<u8>
    decreases fields.len(),
{
    if fields.len() == 0 {
        Seq::<u8>::empty()
    } else {
        fields_metadata(fields.drop_last(), bits) + field_metadata(fields.last(), bits)
    }
}

/// What the blob of an event holds behind its length.
pub open spec fn event_metadata_body(event: EventSpec, bits: int) -> Seq<u8> {
    seq![0u8] + encode_utf8(event.name) + seq![0u8] + fields_metadata(event.params, bits)
}

/// The number of bytes that describe one field.
pub open spec fn field_metadata_len(field: ParamSpec) -> nat {
    encode_utf8(field.name).len() + 2 + if field.out_tag() is Some {
        1nat
    } else {
        0nat
    }
}

/// The number of bytes that describe the fields of an event.
pub open spec fn fields_metadata_len(fields: Seq<ParamSpec>) -> nat
    decreases fields.len(),
{
    if fields.len() == 0 {
        0
    } else {
        fields_metadata_len(fields.drop_last()) + field_metadata_len(fields.last())
    }
}

/// The number of bytes in the blob of an event.
pub open spec fn event_metadata_len(event: EventSpec) -> nat {
    2 + 1 + encode_utf8(event.name).len() + 1 + fields_metadata_len(event.params)
}

/// The blob of an event where pointers are `bits` wide.
pub open spec fn event_metadata(event: EventSpec, bits: int) -> Seq<u8> {
    le_bytes(event_metadata_len(event), 2) + event_metadata_body(event, bits)
}

/// The description of the fields is as long as counted.
pub proof fn fields_metadata_has_its_len(fields: Seq<ParamSpec>, bits: int)
    ensures
        fields_metadata(fields, bits).len() == fields_metadata_len(fields),
    decreases fields.len(),
{
    if fields.len() > 0 {
        fields_metadata_has_its_len(fields.drop_last(), bits);
    }
}

/// The number of bytes in the traits of a provider that belongs to a group.
pub open spec fn provider_traits_len(name: Seq<char>) -> nat {
    2 + encode_utf8(name).len() + 1 + 2 + 1 + 16
}

/// The traits of a provider that belongs to a group: their own length, the
/// provider's name and a zero byte, and one trait that holds its length, its
/// kind and the identifier of the group.
pub open spec fn provider_traits(name: Seq<char>, group: GUID) -> Seq<u8> {
    le_bytes(provider_traits_len(name), 2) + encode_utf8(name) + seq![0u8] + le_bytes(19, 2)
        + seq![PROVIDER_TRAIT_GROUP] + group.wire_bytes()
}

/// The blob of a provider is as long as it says.
pub proof fn provider_metadata_has_its_len(name: Seq<char>)
    ensures
        provider_metadata(name).len() == provider_metadata_len(name),
{
    le_bytes_len(provider_metadata_len(name), 2);
}

/// The blob of an event is as long as it says.
pub proof fn event_metadata_has_its_len(event: EventSpec, bits: int)
    ensures
        event_metadata(event, bits).len() == event_metadata_len(event),
{
    le_bytes_len(event_metadata_len(event), 2);
    fields_metadata_has_its_len(event.params, bits);
}

/// Builds the blob of a provider with the given name, or says that the name
/// is too long for one.
pub fn create_provider_metadata(name: &str) -> (blob: Option<Vec<u8>>)
    ensures
        blob is Some <==> provider_metadata_len(name@) <= MAX_METADATA_LEN,
        blob matches Some(bytes) ==> bytes@ == provider_metadata(name@),
{
    let name_bytes = name.as_bytes();
    if name_bytes.len() > MAX_METADATA_LEN - 3 {
        return None;
    }
    let len: u16 = (2 + name_bytes.len() + 1) as u16;
    let mut blob: Vec<u8> = Vec::new();
    put_u16_le(&mut blob, len);
    put_slice(&mut blob, name_bytes);
    put_u8(&mut blob, 0);
    proof {
        assert(blob@ =~= provider_metadata(name@));
    }
    Some(blob)
}

/// Appends the bytes that describe one field.
pub fn put_field_metadata(buf: &mut Vec<u8>, field: &ParamModel)
    ensures
        final(buf)@ == old(buf)@ + field_metadata(field@, usize::BITS as int),
{
    put_slice(buf, field.name.as_str().as_bytes());
    put_u8(buf, 0);
    put_u8(buf, field.in_tag());
    match field.out_tag() {
        Some(out) => {
            put_u8(buf, out);
        },
        None => {},
    }
    proof {
        assert(buf@ =~= old(buf)@ + field_metadata(field@, usize::BITS as int));
    }
}

/// Builds the blob of an event, or says that the event is too large for one.
pub fn create_event_metadata(event: &EventModel) -> (blob: Option<Vec<u8>>)
    ensures
        blob is Some <==> event_metadata_len(event@) <= MAX_METADATA_LEN,
        blob matches Some(bytes) ==> bytes@ == event_metadata(event@, usize::BITS as int),
{
    let ghost bits = usize::BITS as int;
    let mut body: Vec<u8> = Vec::new();
    put_u8(&mut body, 0);
    put_slice(&mut body, event.name.as_str().as_bytes());
    put_u8(&mut body, 0);
    let ghost head = body@;
    let mut i: usize = 0;
    proof {
        assert(event@.params.subrange(0, 0) =~= Seq::<ParamSpec>::empty());
        assert(body@ =~= head + fields_metadata(event@.params.subrange(0, 0), bits));
    }
    while i < event.params.len()
        invariant
            i <= event.params@.len(),
            event@.params.len() == event.params@.len(),
            bits == usize::BITS as int,
            head == seq![0u8] + encode_utf8(event@.name) + seq![0u8],
            body@ == head + fields_metadata(event@.params.subrange(0, i as int), bits),
        decreases event.params@.len() - i,
    {
        put_field_metadata(&mut body, &event.params[i]);
        proof {
            let shorter = event@.params.subrange(0, i as int);
            let longer = event@.params.subrange(0, i as int + 1);
            assert(longer.drop_last() =~= shorter);
            assert(longer.last() == event.params@[i as int]@);
            assert(body@ =~= head + fields_metadata(longer, bits));
        }
        i = i + 1;
    }
    proof {
        assert(event@.params.subrange(0, event.params@.len() as int) =~= event@.params);
        assert(body@ =~= event_metadata_body(event@, bits));
        fields_metadata_has_its_len(event@.params, bits);
    }
    if body.len() > MAX_METADATA_LEN - 2 {
        return None;
    }
    let len: u16 = (2 + body.len()) as u16;
    let mut blob: Vec<u8> = Vec::new();
    put_u16_le(&mut blob, len);
    put_slice(&mut blob, body.as_slice());
    Some(blob)
}

/// Builds the traits of a provider that belongs to a group, or says that the
/// name is too long for them.
pub fn create_provider_traits(name: &str, group: &GUID) -> (traits: Option<Vec<u8>>)
    ensures
        traits is Some <==> provider_traits_len(name@) <= MAX_METADATA_LEN,
        traits matches Some(bytes) ==> bytes@ == provider_traits(name@, *group),
{
    let name_bytes = name.as_bytes();
    if name_bytes.len() > MAX_METADATA_LEN - 22 {
        return None;
    }
    let len: u16 = (2 + name_bytes.len() + 1 + 2 + 1 + 16) as u16;
    let mut traits: Vec<u8> = Vec::new();
    put_u16_le(&mut traits, len);
    put_slice(&mut traits, name_bytes);
    put_u8(&mut traits, 0);
    put_u16_le(&mut traits, 19);
    put_u8(&mut traits, PROVIDER_TRAIT_GROUP);
    let group_bytes = group.to_le_bytes();
    put_slice(&mut traits, group_bytes.as_slice());
    proof {
        assert(traits@ =~= provider_traits(name@, *group));
    }
    Some(traits)
}

} // verus!
