//! How a decoder reads an event back: the fields out of the event's
//! metadata blob, and the values of the fields out of the slots of an event
//! record. What is proved here is that a decoder that reads this way finds
//! what the emitter and the serialiser wrote.

use crate::emitter::{
    event_metadata, event_metadata_len, field_metadata, fields_metadata,
    fields_metadata_has_its_len, MAX_METADATA_LEN,
};
use crate::encoding::{byte_limit, le_bytes, le_bytes_len, le_value, le_value_of_le_bytes};
use crate::analyzer::{
    analysed_events_fit, analysis_preserves_order, declaration_faults, declaration_model,
};
use crate::declaration::RawDeclaration;
use crate::encoding::read_uint_le;
use crate::event::{
    all_fit, byte_limits, event_slots, field_slots, le_items, slots_view, units_as_items,
    values_view, wire_form, wire_form_of, ParamValue, ParamValueSpec, WireForm, MAX_COUNT,
};
use crate::guid::{guid_is_of_wire, guid_of_wire, GUID};
use crate::metadata::InFlag;
use crate::model::{type_code, type_code_is_small, EventSpec, ParamSpec};
use vstd::prelude::*;
use vstd::utf8::encode_utf8;

verus! {

/// One field as an event's metadata blob describes it.
pub struct FieldLayout {
    /// The bytes of the name of the field.
    pub name: Seq<u8>,
    /// The type tag of the field.
    pub in_tag: u8,
    /// The display tag of the field, where the type tag has the chain flag.
    pub out_tag: Option<u8>,
}

/// Whether no byte of a sequence is zero.
pub open spec fn no_zero(bytes: Seq<u8>) -> bool {
    forall|i: int| 0 <= i < bytes.len() ==> #[trigger] bytes[i] != 0
}

/// The position of the first zero byte of a sequence, or the length of the
/// sequence where it has none.
pub open spec fn first_zero(bytes: Seq<u8>) -> nat
    decreases bytes.len(),
{
    if bytes.len() == 0 {
        0
    } else if bytes[0] == 0 {
        0
    } else {
        1 + first_zero(bytes.drop_first())
    }
}

/// Whether a type tag has the chain flag: a display tag follows it.
pub open spec fn tag_is_chained(tag: u8) -> bool {
    tag >= 0x80
}

/// Whether a type tag has the flag of a variable count.
pub open spec fn tag_is_counted(tag: u8) -> bool {
    (tag as int / 0x40) % 2 == 1
}

/// Whether a type tag has the flag of a constant count, which a length follows.
pub open spec fn tag_has_length(tag: u8) -> bool {
    (tag as int / 0x20) % 2 == 1
}

/// The type code of a type tag.
pub open spec fn tag_code(tag: u8) -> u8 {
    (tag % 0x20) as u8
}

/// The fields that a run of field descriptions describes, or `None` where
/// the run breaks off within a description or holds a tag that this library
/// does not write.
pub open spec fn parse_fields(bytes: Seq<u8>) -> Option<Seq<FieldLayout>>
    decreases bytes.len(),
{
    if bytes.len() == 0 {
        Some(Seq::<FieldLayout>::empty())
    } else {
        let end = first_zero(bytes) as int;
        if end + 1 >= bytes.len() {
            None
        } else {
            let tag = bytes[end + 1];
            if tag_has_length(tag) {
                None
            } else if tag_is_chained(tag) {
                if end + 2 >= bytes.len() {
                    None
                } else {
                    match parse_fields(bytes.skip(end + 3)) {
                        Some(rest) => Some(
                            seq![
                                FieldLayout {
                                    name: bytes.take(end),
                                    in_tag: tag,
                                    out_tag: Some(bytes[end + 2]),
                                },
                            ] + rest,
                        ),
                        None => None,
                    }
                }
            } else {
                match parse_fields(bytes.skip(end + 2)) {
                    Some(rest) => Some(
                        seq![FieldLayout { name: bytes.take(end), in_tag: tag, out_tag: None }]
                            + rest,
                    ),
                    None => None,
                }
            }
        }
    }
}

/// The name of the event and the fields that the metadata blob of an event
/// describes, or `None` where the blob is not as long as it says, has
/// extensions, or does not hold whole descriptions.
pub open spec fn parse_event_metadata(blob: Seq<u8>) -> Option<(Seq<u8>, Seq<FieldLayout>)> {
    if blob.len() < 4 || le_value(blob.take(2)) != blob.len() || blob[2] != 0 {
        None
    } else {
        let rest = blob.skip(3);
        let end = first_zero(rest) as int;
        if end >= rest.len() {
            None
        } else {
            match parse_fields(rest.skip(end + 1)) {
                Some(fields) => Some((rest.take(end), fields)),
                None => None,
            }
        }
    }
}

/// A field as its description in the metadata gives it.
pub open spec fn layout_of(field: ParamSpec, bits: int) -> FieldLayout {
    FieldLayout {
        name: encode_utf8(field.name),
        in_tag: field.in_tag(bits),
        out_tag: field.out_tag(),
    }
}

/// The fields of an event as their descriptions in the metadata give them.
pub open spec fn layouts_of(fields: Seq<ParamSpec>, bits: int) -> Seq<FieldLayout> {
    fields.map_values(|f: ParamSpec| layout_of(f, bits))
}

/// Whether the names of the fields of an event can be told apart from what
/// follows them: none holds a zero byte.
pub open spec fn field_names_end(fields: Seq<ParamSpec>) -> bool {
    forall|i: int| 0 <= i < fields.len() ==> no_zero(encode_utf8(#[trigger] fields[i].name))
}

/// The first zero byte behind a name without one is the byte behind the name.
pub proof fn first_zero_behind_name(name: Seq<u8>, rest: Seq<u8>)
    requires
        no_zero(name),
    ensures
        first_zero(name + seq![0u8] + rest) == name.len(),
    decreases name.len(),
{
    let all = name + seq![0u8] + rest;
    if name.len() == 0 {
        assert(all[0] == 0);
    } else {
        assert(all[0] == name[0]);
        assert(name[0] != 0);
        assert(all.drop_first() =~= name.drop_first() + seq![0u8] + rest);
        assert forall|i: int| 0 <= i < name.drop_first().len() implies #[trigger] name.drop_first()[i]
            != 0 by {
            assert(name.drop_first()[i] == name[i + 1]);
        }
        first_zero_behind_name(name.drop_first(), rest);
    }
}

/// The descriptions of the fields of an event start with the description
/// of the first field.
pub proof fn fields_metadata_from_front(fields: Seq<ParamSpec>, bits: int)
    requires
        fields.len() > 0,
    ensures
        fields_metadata(fields, bits) == field_metadata(fields[0], bits) + fields_metadata(
            fields.drop_first(),
            bits,
        ),
    decreases fields.len(),
{
    if fields.len() == 1 {
        reveal_with_fuel(fields_metadata, 2);
        assert(fields.drop_last() =~= Seq::<ParamSpec>::empty());
        assert(fields.drop_first() =~= Seq::<ParamSpec>::empty());
        assert(fields.last() == fields[0]);
        assert(fields_metadata(fields, bits) =~= field_metadata(fields[0], bits));
        assert(field_metadata(fields[0], bits) + fields_metadata(fields.drop_first(), bits)
            =~= field_metadata(fields[0], bits));
    } else {
        let shorter = fields.drop_last();
        fields_metadata_from_front(shorter, bits);
        assert(shorter[0] == fields[0]);
        assert(shorter.drop_first() =~= fields.drop_first().drop_last());
        assert(fields.drop_first().last() == fields.last());
        assert(fields_metadata(fields, bits) =~= field_metadata(fields[0], bits) + (
        fields_metadata(fields.drop_first().drop_last(), bits) + field_metadata(
            fields.last(),
            bits,
        )));
    }
}

/// The type tag of a field tells what the field is: it has the chain flag
/// where a display tag follows, the flag of a variable count where the field
/// is a slice, never the flag of a constant count, and the type code of the
/// field's type.
pub proof fn tag_tells_the_field(field: ParamSpec, bits: int)
    ensures
        tag_is_chained(field.in_tag(bits)) == field.out_tag() is Some,
        tag_is_counted(field.in_tag(bits)) == field.is_slice,
        !tag_has_length(field.in_tag(bits)),
        tag_code(field.in_tag(bits)) == type_code(field.code, bits),
{
    type_code_is_small(field.code, bits);
}

/// A decoder that reads the descriptions of the fields of an event finds
/// the fields, in the order in which they were declared.
pub proof fn parse_finds_the_fields(fields: Seq<ParamSpec>, bits: int)
    requires
        field_names_end(fields),
    ensures
        parse_fields(fields_metadata(fields, bits)) == Some(layouts_of(fields, bits)),
    decreases fields.len(),
{
    if fields.len() == 0 {
        assert(layouts_of(fields, bits) =~= Seq::<FieldLayout>::empty());
    } else {
        let first = fields[0];
        let rest = fields.drop_first();
        let name = encode_utf8(first.name);
        let tag = first.in_tag(bits);
        let bytes = fields_metadata(fields, bits);
        let tail = fields_metadata(rest, bits);
        fields_metadata_from_front(fields, bits);
        tag_tells_the_field(first, bits);
        assert(no_zero(name));
        assert forall|i: int| 0 <= i < rest.len() implies no_zero(
            encode_utf8(#[trigger] rest[i].name),
        ) by {
            assert(rest[i] == fields[i + 1]);
        }
        parse_finds_the_fields(rest, bits);
        match first.out_tag() {
            Some(out) => {
                let behind = seq![tag, out] + tail;
                assert(bytes =~= name + seq![0u8] + behind);
                first_zero_behind_name(name, behind);
                assert(bytes[name.len() as int + 1] == tag);
                assert(bytes[name.len() as int + 2] == out);
                assert(bytes.skip(name.len() as int + 3) =~= tail);
                assert(bytes.take(name.len() as int) =~= name);
            },
            None => {
                let behind = seq![tag] + tail;
                assert(bytes =~= name + seq![0u8] + behind);
                first_zero_behind_name(name, behind);
                assert(bytes[name.len() as int + 1] == tag);
                assert(bytes.skip(name.len() as int + 2) =~= tail);
                assert(bytes.take(name.len() as int) =~= name);
            },
        }
        assert(layouts_of(fields, bits) =~= seq![layout_of(first, bits)] + layouts_of(rest, bits));
    }
}

/// A decoder that reads the metadata blob of an event finds the name of the
/// event and its fields, in the order in which they were declared.
pub proof fn parse_finds_the_event(event: EventSpec, bits: int)
    requires
        no_zero(encode_utf8(event.name)),
        field_names_end(event.params),
        event_metadata_len(event) <= MAX_METADATA_LEN,
    ensures
        parse_event_metadata(event_metadata(event, bits)) == Some(
            (encode_utf8(event.name), layouts_of(event.params, bits)),
        ),
{
    let blob = event_metadata(event, bits);
    let len = event_metadata_len(event);
    let name = encode_utf8(event.name);
    let fields = fields_metadata(event.params, bits);
    le_bytes_len(len, 2);
    fields_metadata_has_its_len(event.params, bits);
    assert(byte_limit(2) == 0x1_0000) by {
        reveal_with_fuel(byte_limit, 3);
    }
    le_value_of_le_bytes(len, 2);
    assert(blob.take(2) =~= le_bytes(len, 2));
    assert(blob.len() == len);
    assert(blob[2] == 0);
    let rest = blob.skip(3);
    assert(rest =~= name + seq![0u8] + fields);
    first_zero_behind_name(name, fields);
    assert(rest.skip(name.len() as int + 1) =~= fields);
    assert(rest.take(name.len() as int) =~= name);
    parse_finds_the_fields(event.params, bits);
}

/// The Nth field that a decoder finds in the metadata blob of an event is
/// the Nth field of the event.
pub proof fn nth_field_is_nth_declared(event: EventSpec, bits: int, n: int)
    requires
        no_zero(encode_utf8(event.name)),
        field_names_end(event.params),
        event_metadata_len(event) <= MAX_METADATA_LEN,
        0 <= n < event.params.len(),
    ensures
        parse_event_metadata(event_metadata(event, bits)) matches Some(found) && found.1.len()
            == event.params.len() && found.1[n] == layout_of(event.params[n], bits),
{
    parse_finds_the_event(event, bits);
}

/// The numbers that a slot holds, each in the given number of bytes, least
/// significant byte first.
pub open spec fn decode_items(bytes: Seq<u8>, count: nat, width: nat) -> Seq<u64> {
    Seq::new(count, |i: int| le_value(bytes.subrange(i * width, (i + 1) * width)) as u64)
}

/// The 16-bit units that a slot holds, least significant byte first.
pub open spec fn decode_units(bytes: Seq<u8>, count: nat) -> Seq<u16> {
    Seq::new(count, |i: int| le_value(bytes.subrange(i * 2, (i + 1) * 2)) as u16)
}

/// The value that a decoder reads for a field with the given type tag from
/// the slots of an event record, and the number of slots that it reads; or
/// `None` where the slots do not hold a value of the field's type.
pub open spec fn decode_field(tag: u8, slots: Seq<Seq<u8>>) -> Option<(ParamValueSpec, nat)> {
    let code = tag_code(tag);
    match wire_form_of(code) {
        None => None,
        Some(form) => if tag_has_length(tag) {
            None
        } else if tag_is_counted(tag) {
            match form {
                WireForm::Fixed(w) => if slots.len() >= 2 && slots[0].len() == 2 && slots[1].len()
                    == le_value(slots[0]) * w {
                    Some(
                        (
                            ParamValueSpec::List(
                                decode_items(slots[1], le_value(slots[0]), w as nat),
                            ),
                            2,
                        ),
                    )
                } else {
                    None
                },
                _ => None,
            }
        } else {
            match form {
                WireForm::Fixed(w) => if slots.len() >= 1 && slots[0].len() == w && w > 0 {
                    Some((ParamValueSpec::Int(le_value(slots[0]) as u64), 1))
                } else if slots.len() >= 1 && slots[0].len() == 0 && code == InFlag::FILETIME {
                    Some((ParamValueSpec::Absent, 1))
                } else {
                    None
                },
                WireForm::CountedBytes => if slots.len() >= 2 && slots[0].len() == 2
                    && slots[1].len() == le_value(slots[0]) {
                    Some((ParamValueSpec::Bytes(slots[1]), 2))
                } else {
                    None
                },
                WireForm::CountedWide => if slots.len() >= 2 && slots[0].len() == 2
                    && slots[1].len() == le_value(slots[0]) * 2 {
                    Some(
                        (ParamValueSpec::Wide(decode_units(slots[1], le_value(slots[0]))), 2),
                    )
                } else {
                    None
                },
                WireForm::Guid => if slots.len() >= 1 && slots[0].len() == 16 {
                    Some((ParamValueSpec::Guid(guid_of_wire(slots[0])), 1))
                } else {
                    None
                },
            }
        },
    }
}

/// The values that a decoder reads for the fields with the given type tags
/// from the slots of an event record, or `None` where the slots are not
/// those of such fields.
pub open spec fn decode_event(tags: Seq<u8>, slots: Seq<Seq<u8>>) -> Option<Seq<ParamValueSpec>>
    decreases tags.len(),
{
    if tags.len() == 0 {
        if slots.len() == 0 {
            Some(Seq::<ParamValueSpec>::empty())
        } else {
            None
        }
    } else {
        match decode_field(tags[0], slots) {
            Some((value, taken)) => match decode_event(tags.drop_first(), slots.skip(taken as int)) {
                Some(rest) => Some(seq![value] + rest),
                None => None,
            },
            None => None,
        }
    }
}

/// The type tags of the fields that a decoder has found.
pub open spec fn tags_of(layouts: Seq<FieldLayout>) -> Seq<u8> {
    layouts.map_values(|l: FieldLayout| l.in_tag)
}

/// Whether a value travels whole: a string, a run of bytes or a slice
/// travels whole where it has at most 65535 items.
pub open spec fn travels_whole(value: ParamValueSpec) -> bool {
    match value {
        ParamValueSpec::Bytes(bytes) => bytes.len() <= MAX_COUNT,
        ParamValueSpec::Wide(units) => units.len() <= MAX_COUNT,
        ParamValueSpec::List(items) => items.len() <= MAX_COUNT,
        _ => true,
    }
}

/// Whether every value of a sequence travels whole.
pub open spec fn all_travel_whole(values: Seq<ParamValueSpec>) -> bool {
    forall|i: int| 0 <= i < values.len() ==> travels_whole(#[trigger] values[i])
}

/// The slot of a slice of numbers is as long as its numbers are wide together.
pub proof fn le_items_len(items: Seq<u64>, width: nat)
    ensures
        le_items(items, width).len() == items.len() * width,
    decreases items.len(),
{
    if items.len() > 0 {
        le_items_len(items.drop_last(), width);
        le_bytes_len(items.last() as nat, width);
        assert((items.len() - 1) * width + width == items.len() * width) by (nonlinear_arith);
    } else {
        assert(0 * width == 0) by (nonlinear_arith);
    }
}

/// A decoder finds each number of a slice in its place in the slot.
pub proof fn le_items_hold_each(items: Seq<u64>, width: nat, i: int)
    requires
        all_fit(items, width),
        0 <= i < items.len(),
    ensures
        le_value(le_items(items, width).subrange(i * width, (i + 1) * width)) == items[i],
    decreases items.len(),
{
    let shorter = items.drop_last();
    let all = le_items(items, width);
    le_items_len(shorter, width);
    le_items_len(items, width);
    le_bytes_len(items.last() as nat, width);
    assert(i * width + width == (i + 1) * width) by (nonlinear_arith);
    if i == items.len() - 1 {
        assert(all.subrange(i * width, (i + 1) * width) =~= le_bytes(items.last() as nat, width));
        le_value_of_le_bytes(items.last() as nat, width);
    } else {
        assert((i + 1) * width <= shorter.len() * width) by (nonlinear_arith)
            requires
                i + 1 <= shorter.len(),
        ;
        assert(0 <= i * width) by (nonlinear_arith)
            requires
                0 <= i,
        ;
        assert(all.subrange(i * width, (i + 1) * width) =~= le_items(shorter, width).subrange(
            i * width,
            (i + 1) * width,
        ));
        assert forall|k: int| 0 <= k < shorter.len() implies (#[trigger] shorter[k]) < byte_limit(
            width,
        ) by {
            assert(shorter[k] == items[k]);
        }
        le_items_hold_each(shorter, width, i);
        assert(shorter[i] == items[i]);
    }
}

/// A decoder finds the numbers of a slice in the slot of the slice.
pub proof fn decode_finds_the_items(items: Seq<u64>, width: nat)
    requires
        all_fit(items, width),
    ensures
        decode_items(le_items(items, width), items.len(), width) == items,
{
    let slot = le_items(items, width);
    let found = decode_items(slot, items.len(), width);
    assert forall|i: int| 0 <= i < items.len() implies found[i] == items[i] by {
        le_items_hold_each(items, width, i);
    }
    assert(found =~= items);
}

/// A decoder finds the units of a wide string in the slot of the string.
pub proof fn decode_finds_the_units(units: Seq<u16>)
    ensures
        decode_units(le_items(units_as_items(units), 2), units.len()) == units,
{
    let items = units_as_items(units);
    let slot = le_items(items, 2);
    let found = decode_units(slot, units.len());
    byte_limits();
    assert forall|i: int| 0 <= i < items.len() implies (#[trigger] items[i]) < byte_limit(2) by {
        assert(items[i] == units[i] as u64);
    }
    assert forall|i: int| 0 <= i < units.len() implies found[i] == units[i] by {
        le_items_hold_each(items, 2, i);
        assert(items[i] == units[i] as u64);
    }
    assert(found =~= units);
}

/// A decoder reads back the value of a field from the slots in which it
/// travels, whatever slots follow them.
pub proof fn decode_finds_the_value(
    tag: u8,
    is_slice: bool,
    value: ParamValueSpec,
    more: Seq<Seq<u8>>,
)
    requires
        !tag_has_length(tag),
        tag_is_counted(tag) == is_slice,
        travels_whole(value),
        field_slots(tag_code(tag), is_slice, value) is Some,
    ensures
        decode_field(tag, field_slots(tag_code(tag), is_slice, value)->0 + more) == Some(
            (value, field_slots(tag_code(tag), is_slice, value)->0.len()),
        ),
{
    let code = tag_code(tag);
    let slots = field_slots(code, is_slice, value)->0;
    let all = slots + more;
    let form = wire_form_of(code)->0;
    byte_limits();
    le_bytes_len(0, 2);
    match (form, value) {
        (WireForm::Fixed(w), ParamValueSpec::List(items)) => {
            let count = items.len();
            assert(items.take(count as int) =~= items);
            le_bytes_len(count, 2);
            le_value_of_le_bytes(count, 2);
            le_items_len(items, w as nat);
            decode_finds_the_items(items, w as nat);
            assert(all[0] == slots[0]);
            assert(all[1] == slots[1]);
        },
        (WireForm::Fixed(w), ParamValueSpec::Int(bits)) => {
            le_bytes_len(bits as nat, w as nat);
            le_value_of_le_bytes(bits as nat, w as nat);
            assert(all[0] == slots[0]);
        },
        (WireForm::Fixed(w), ParamValueSpec::Absent) => {
            assert(all[0] == slots[0]);
        },
        (WireForm::CountedBytes, ParamValueSpec::Bytes(bytes)) => {
            let count = bytes.len();
            assert(bytes.take(count as int) =~= bytes);
            le_bytes_len(count, 2);
            le_value_of_le_bytes(count, 2);
            assert(all[0] == slots[0]);
            assert(all[1] == slots[1]);
        },
        (WireForm::CountedWide, ParamValueSpec::Wide(units)) => {
            let count = units.len();
            assert(units.take(count as int) =~= units);
            le_bytes_len(count, 2);
            le_value_of_le_bytes(count, 2);
            le_items_len(units_as_items(units), 2);
            decode_finds_the_units(units);
            assert(all[0] == slots[0]);
            assert(all[1] == slots[1]);
        },
        (WireForm::Guid, ParamValueSpec::Guid(g)) => {
            guid_is_of_wire(g);
            le_bytes_len(g.data1 as nat, 4);
            le_bytes_len(g.data2 as nat, 2);
            le_bytes_len(g.data3 as nat, 2);
            assert(all[0] == slots[0]);
        },
        _ => {},
    }
}

/// The type tags of the fields of an event where pointers are `bits` wide.
pub open spec fn field_tags(fields: Seq<ParamSpec>, bits: int) -> Seq<u8> {
    fields.map_values(|f: ParamSpec| f.in_tag(bits))
}

/// A decoder reads back the values of the fields of an event from the
/// slots in which they travel, in the order of the fields.
pub proof fn decode_finds_the_values(fields: Seq<ParamSpec>, values: Seq<ParamValueSpec>, bits: int)
    requires
        all_travel_whole(values),
        event_slots(fields, values, bits) is Some,
    ensures
        decode_event(field_tags(fields, bits), event_slots(fields, values, bits)->0) == Some(
            values,
        ),
    decreases fields.len(),
{
    let tags = field_tags(fields, bits);
    let slots = event_slots(fields, values, bits)->0;
    if fields.len() == 0 {
        assert(values =~= Seq::<ParamValueSpec>::empty());
    } else {
        let first = field_slots(type_code(fields[0].code, bits), fields[0].is_slice, values[0])->0;
        let rest = event_slots(fields.drop_first(), values.drop_first(), bits)->0;
        assert(slots == first + rest);
        tag_tells_the_field(fields[0], bits);
        assert(tags[0] == fields[0].in_tag(bits));
        assert(travels_whole(values[0]));
        decode_finds_the_value(tags[0], fields[0].is_slice, values[0], rest);
        assert(slots.skip(first.len() as int) =~= rest);
        assert forall|i: int| 0 <= i < values.drop_first().len() implies travels_whole(
            #[trigger] values.drop_first()[i],
        ) by {
            assert(values.drop_first()[i] == values[i + 1]);
        }
        decode_finds_the_values(fields.drop_first(), values.drop_first(), bits);
        assert(tags.drop_first() =~= field_tags(fields.drop_first(), bits));
        assert(seq![values[0]] + values.drop_first() =~= values);
    }
}

/// Serialising the values of the fields of an event and reading them back by
/// the field layout of the event's metadata blob recovers the values: a
/// decoder that holds the blob and the slots of an event record finds the
/// values that were reported, in the order of the fields.
///
/// This holds of values that travel whole. A string, a run of bytes or a
/// slice of more than 65535 items is cut to 65535 items on its way, so it is
/// not recovered.
pub proof fn round_trip(event: EventSpec, values: Seq<ParamValueSpec>, bits: int)
    requires
        no_zero(encode_utf8(event.name)),
        field_names_end(event.params),
        event_metadata_len(event) <= MAX_METADATA_LEN,
        all_travel_whole(values),
        event_slots(event.params, values, bits) is Some,
    ensures
        parse_event_metadata(event_metadata(event, bits)) matches Some(found) && decode_event(
            tags_of(found.1),
            event_slots(event.params, values, bits)->0,
        ) == Some(values),
{
    parse_finds_the_event(event, bits);
    decode_finds_the_values(event.params, values, bits);
    assert(tags_of(layouts_of(event.params, bits)) =~= field_tags(event.params, bits));
}

/// The Nth declared parameter is the Nth serialised field: in the metadata
/// blob of an event of a provider that a declaration without faults declares,
/// a decoder finds the Nth parameter of the event's declaration as the Nth
/// field, under its name.
pub proof fn nth_declared_is_nth_serialized(decl: RawDeclaration, bits: int, i: int, n: int)
    requires
        declaration_faults(decl).len() == 0,
        0 <= i < decl.events@.len(),
        0 <= n < decl.events@[i].params@.len(),
        no_zero(encode_utf8(decl.events@[i].name@)),
        forall|k: int|
            0 <= k < decl.events@[i].params@.len() ==> no_zero(
                encode_utf8(#[trigger] decl.events@[i].params@[k].name@),
            ),
    ensures
        parse_event_metadata(event_metadata(declaration_model(decl).events[i], bits)) matches Some(
            found,
        ) && found.1.len() == decl.events@[i].params@.len() && found.1[n].name == encode_utf8(
            decl.events@[i].params@[n].name@,
        ),
{
    let event = declaration_model(decl).events[i];
    analysis_preserves_order(decl, i, n);
    analysed_events_fit(decl, i);
    assert forall|k: int| 0 <= k < event.params.len() implies no_zero(
        encode_utf8(#[trigger] event.params[k].name),
    ) by {
        analysis_preserves_order(decl, i, k);
    }
    nth_field_is_nth_declared(event, bits, n);
}

/// One field as a decoder has read it out of an event's metadata blob.
#[derive(Debug)]
pub struct FieldTags {
    /// The bytes of the name of the field.
    pub name: Vec<u8>,
    /// The type tag of the field.
    pub in_tag: u8,
    /// The display tag of the field, where the type tag has the chain flag.
    pub out_tag: Option<u8>,
}

impl View for FieldTags {
    type V = FieldLayout;

    open spec fn view(&self) -> FieldLayout {
        FieldLayout { name: self.name@, in_tag: self.in_tag, out_tag: self.out_tag }
    }
}

/// The fields of a sequence as plain values.
pub open spec fn fields_view(fields: Seq<FieldTags>) -> Seq<FieldLayout> {
    fields.map_values(|f: FieldTags| f@)
}

/// Where no byte before a position is zero, and the byte at the position is
/// zero or the sequence ends there, the position is that of the first zero byte.
pub proof fn first_zero_is_at(bytes: Seq<u8>, at: int)
    requires
        0 <= at <= bytes.len(),
        forall|k: int| 0 <= k < at ==> #[trigger] bytes[k] != 0,
        at == bytes.len() || bytes[at] == 0,
    ensures
        first_zero(bytes) == at,
    decreases at,
{
    if at > 0 {
        let rest = bytes.drop_first();
        assert(bytes[0] != 0);
        assert forall|k: int| 0 <= k < at - 1 implies #[trigger] rest[k] != 0 by {
            assert(rest[k] == bytes[k + 1]);
        }
        if at < bytes.len() {
            assert(rest[at - 1] == bytes[at]);
        }
        first_zero_is_at(rest, at - 1);
    }
}

/// Finds the first zero byte of a slice at or behind a position.
fn find_zero(bytes: &[u8], from: usize) -> (at: usize)
    requires
        from <= bytes@.len(),
    ensures
        from <= at <= bytes@.len(),
        at - from == first_zero(bytes@.skip(from as int)),
{
    let mut at: usize = from;
    while at < bytes.len() && bytes[at] != 0
        invariant
            from <= at <= bytes@.len(),
            forall|k: int| from <= k < at ==> #[trigger] bytes@[k] != 0,
        decreases bytes@.len() - at,
    {
        at = at + 1;
    }
    proof {
        let rest = bytes@.skip(from as int);
        assert forall|k: int| 0 <= k < at - from implies #[trigger] rest[k] != 0 by {
            assert(rest[k] == bytes@[from + k]);
        }
        first_zero_is_at(rest, at - from);
    }
    at
}

/// A copy of a part of a slice.
fn copy_range(bytes: &[u8], from: usize, to: usize) -> (copy: Vec<u8>)
    requires
        from <= to <= bytes@.len(),
    ensures
        copy@ == bytes@.subrange(from as int, to as int),
{
    let mut copy: Vec<u8> = Vec::new();
    let mut i: usize = from;
    while i < to
        invariant
            from <= i <= to <= bytes@.len(),
            copy@ == bytes@.subrange(from as int, i as int),
        decreases to - i,
    {
        copy.push(bytes[i]);
        proof {
            assert(bytes@.subrange(from as int, i as int).push(bytes@[i as int])
                =~= bytes@.subrange(from as int, i as int + 1));
        }
        i = i + 1;
    }
    copy
}

/// Reads the fields that a run of field descriptions describes, from a
/// position of a slice to its end.
fn read_fields(bytes: &[u8], from: usize) -> (fields: Option<Vec<FieldTags>>)
    requires
        from <= bytes@.len(),
    ensures
        match fields {
            Some(found) => parse_fields(bytes@.skip(from as int)) == Some(fields_view(found@)),
            None => parse_fields(bytes@.skip(from as int)) is None,
        },
{
    let ghost all = bytes@.skip(from as int);
    let mut fields: Vec<FieldTags> = Vec::new();
    let mut pos: usize = from;
    proof {
        assert(fields_view(fields@) =~= Seq::<FieldLayout>::empty());
        match parse_fields(all) {
            Some(rest) => {
                assert(fields_view(fields@) + rest =~= rest);
            },
            None => {},
        }
    }
    while pos < bytes.len()
        invariant
            from <= pos <= bytes@.len(),
            all == bytes@.skip(from as int),
            parse_fields(all) == match parse_fields(bytes@.skip(pos as int)) {
                Some(rest) => Some(fields_view(fields@) + rest),
                None => None,
            },
        decreases bytes@.len() - pos,
    {
        let ghost here = bytes@.skip(pos as int);
        let ghost before = fields_view(fields@);
        let end = find_zero(bytes, pos);
        if bytes.len() - end < 2 {
            return None;
        }
        let tag = bytes[end + 1];
        proof {
            assert(here[end - pos + 1] == tag);
            assert(here.take(end - pos) =~= bytes@.subrange(pos as int, end as int));
        }
        if (tag / 0x20) % 2 == 1 {
            return None;
        }
        let name = copy_range(bytes, pos, end);
        if tag >= 0x80 {
            if bytes.len() - end < 3 {
                return None;
            }
            let out = bytes[end + 2];
            proof {
                assert(here[end - pos + 2] == out);
                assert(here.skip(end - pos + 3) =~= bytes@.skip(end + 3));
            }
            fields.push(FieldTags { name, in_tag: tag, out_tag: Some(out) });
            pos = end + 3;
        } else {
            proof {
                assert(here.skip(end - pos + 2) =~= bytes@.skip(end + 2));
            }
            fields.push(FieldTags { name, in_tag: tag, out_tag: None });
            pos = end + 2;
        }
        proof {
            let added = fields@.last()@;
            assert(fields_view(fields@) =~= before.push(added));
            match parse_fields(bytes@.skip(pos as int)) {
                Some(rest) => {
                    assert(before + (seq![added] + rest) =~= before.push(added) + rest);
                },
                None => {},
            }
        }
    }
    proof {
        assert(bytes@.skip(pos as int) =~= Seq::<u8>::empty());
        assert(fields_view(fields@) + Seq::<FieldLayout>::empty() =~= fields_view(fields@));
    }
    Some(fields)
}

/// Reads the name of the event and its fields out of the metadata blob of
/// an event.
pub fn read_event_metadata(blob: &[u8]) -> (r: Option<(Vec<u8>, Vec<FieldTags>)>)
    ensures
        match r {
            Some((name, fields)) => parse_event_metadata(blob@) == Some(
                (name@, fields_view(fields@)),
            ),
            None => parse_event_metadata(blob@) is None,
        },
{
    if blob.len() < 4 {
        return None;
    }
    let len = read_uint_le(vstd::slice::slice_subrange(blob, 0, 2));
    proof {
        assert(blob@.subrange(0, 2) =~= blob@.take(2));
    }
    if len != blob.len() as u64 || blob[2] != 0 {
        return None;
    }
    let ghost rest = blob@.skip(3);
    let end = find_zero(blob, 3);
    if end >= blob.len() {
        return None;
    }
    proof {
        assert(rest.skip(end - 3 + 1) =~= blob@.skip(end + 1));
        assert(rest.take(end - 3) =~= blob@.subrange(3, end as int));
    }
    match read_fields(blob, end + 1) {
        Some(fields) => Some((copy_range(blob, 3, end), fields)),
        None => None,
    }
}

/// Reads the numbers that a slot holds, each in the given number of bytes.
fn read_items(bytes: &[u8], count: usize, width: usize) -> (items: Vec<u64>)
    requires
        width == 1 || width == 2 || width == 4 || width == 8,
        bytes@.len() == count * width,
    ensures
        items@ == decode_items(bytes@, count as nat, width as nat),
{
    let mut items: Vec<u64> = Vec::new();
    let mut i: usize = 0;
    let total = bytes.len();
    while i < count
        invariant
            i <= count,
            width == 1 || width == 2 || width == 4 || width == 8,
            bytes@.len() == count * width,
            total == bytes@.len(),
            items@.len() == i,
            forall|k: int|
                0 <= k < i ==> (#[trigger] items@[k]) == le_value(
                    bytes@.subrange(k * width, (k + 1) * width),
                ) as u64,
        decreases count - i,
    {
        proof {
            assert(i * width + width == (i + 1) * width) by (nonlinear_arith);
            assert((i + 1) * width <= count * width) by (nonlinear_arith)
                requires
                    i + 1 <= count,
            ;
        }
        let chunk = vstd::slice::slice_subrange(bytes, i * width, i * width + width);
        let item = read_uint_le(chunk);
        items.push(item);
        i = i + 1;
    }
    proof {
        assert(items@ =~= decode_items(bytes@, count as nat, width as nat));
    }
    items
}

/// Reads the 16-bit units that a slot holds.
fn read_units(bytes: &[u8], count: usize) -> (units: Vec<u16>)
    requires
        bytes@.len() == count * 2,
    ensures
        units@ == decode_units(bytes@, count as nat),
{
    let mut units: Vec<u16> = Vec::new();
    let mut i: usize = 0;
    let total = bytes.len();
    while i < count
        invariant
            i <= count,
            bytes@.len() == count * 2,
            total == bytes@.len(),
            units@.len() == i,
            forall|k: int|
                0 <= k < i ==> (#[trigger] units@[k]) == le_value(
                    bytes@.subrange(k * 2, (k + 1) * 2),
                ) as u16,
        decreases count - i,
    {
        let chunk = vstd::slice::slice_subrange(bytes, i * 2, i * 2 + 2);
        let unit = read_uint_le(chunk);
        proof {
            crate::encoding::le_value_bound(chunk@);
            byte_limits();
        }
        units.push(unit as u16);
        i = i + 1;
    }
    proof {
        assert(units@ =~= decode_units(bytes@, count as nat));
    }
    units
}

/// Reads the count that the first of the two slots of a counted field
/// holds, where there are two slots at a position and the first holds a count.
fn read_count(slots: &Vec<Vec<u8>>, at: usize) -> (count: Option<usize>)
    requires
        at <= slots@.len(),
    ensures
        count is Some <==> at + 2 <= slots@.len() && slots@[at as int]@.len() == 2,
        count matches Some(n) ==> n == le_value(slots@[at as int]@) && n <= 0xffff,
{
    if slots.len() - at < 2 || slots[at].len() != 2 {
        return None;
    }
    let n = read_uint_le(slots[at].as_slice());
    proof {
        crate::encoding::le_value_bound(slots@[at as int]@);
        byte_limits();
    }
    Some(n as usize)
}

/// Reads the value of a field with the given type tag from the slots of an
/// event record at a position, and says how many slots it has read.
fn read_field(tag: u8, slots: &Vec<Vec<u8>>, at: usize) -> (r: Option<(ParamValue, usize)>)
    requires
        at <= slots@.len(),
    ensures
        match r {
            Some((value, taken)) => decode_field(tag, slots_view(slots@).skip(at as int)) == Some(
                (value@, taken as nat),
            ) && at + taken <= slots@.len(),
            None => decode_field(tag, slots_view(slots@).skip(at as int)) is None,
        },
{
    let ghost rest = slots_view(slots@).skip(at as int);
    proof {
        assert(rest.len() == slots@.len() - at);
        if at < slots@.len() {
            assert(rest[0] == slots@[at as int]@);
        }
        if at + 1 < slots@.len() {
            assert(rest[1] == slots@[at as int + 1]@);
        }
    }
    let total = slots.len();
    let code = tag % 0x20;
    let form = match wire_form(code) {
        Some(form) => form,
        None => {
            return None;
        },
    };
    if (tag / 0x20) % 2 == 1 {
        return None;
    }
    if (tag / 0x40) % 2 == 1 {
        match form {
            WireForm::Fixed(w) => {
                let count = match read_count(slots, at) {
                    Some(count) => count,
                    None => {
                        return None;
                    },
                };
                if slots[at + 1].len() != count * w {
                    return None;
                }
                let items = read_items(slots[at + 1].as_slice(), count, w);
                Some((ParamValue::List(items), 2))
            },
            _ => None,
        }
    } else {
        match form {
            WireForm::Fixed(w) => {
                if at >= slots.len() {
                    return None;
                }
                if slots[at].len() == w {
                    let bits = read_uint_le(slots[at].as_slice());
                    Some((ParamValue::Int(bits), 1))
                } else if slots[at].len() == 0 && code == InFlag::FILETIME {
                    Some((ParamValue::Absent, 1))
                } else {
                    None
                }
            },
            WireForm::CountedBytes => {
                let count = match read_count(slots, at) {
                    Some(count) => count,
                    None => {
                        return None;
                    },
                };
                if slots[at + 1].len() != count {
                    return None;
                }
                let bytes = copy_range(slots[at + 1].as_slice(), 0, count);
                proof {
                    assert(bytes@ =~= slots@[at as int + 1]@);
                }
                Some((ParamValue::Bytes(bytes), 2))
            },
            WireForm::CountedWide => {
                let count = match read_count(slots, at) {
                    Some(count) => count,
                    None => {
                        return None;
                    },
                };
                if slots[at + 1].len() != count * 2 {
                    return None;
                }
                let units = read_units(slots[at + 1].as_slice(), count);
                Some((ParamValue::Wide(units), 2))
            },
            WireForm::Guid => {
                if at >= slots.len() || slots[at].len() != 16 {
                    return None;
                }
                let slot = &slots[at];
                let bytes: [u8; 16] = [
                    slot[0],
                    slot[1],
                    slot[2],
                    slot[3],
                    slot[4],
                    slot[5],
                    slot[6],
                    slot[7],
                    slot[8],
                    slot[9],
                    slot[10],
                    slot[11],
                    slot[12],
                    slot[13],
                    slot[14],
                    slot[15],
                ];
                let g = GUID::from_le_bytes(&bytes);
                proof {
                    assert(bytes@ =~= slot@);
                    guid_is_of_wire(g);
                }
                Some((ParamValue::Guid(g), 1))
            },
        }
    }
}

/// Reads the values of the fields with the given type tags from the slots
/// of an event record.
pub fn read_event(tags: &Vec<u8>, slots: &Vec<Vec<u8>>) -> (values: Option<Vec<ParamValue>>)
    ensures
        match values {
            Some(found) => decode_event(tags@, slots_view(slots@)) == Some(values_view(found@)),
            None => decode_event(tags@, slots_view(slots@)) is None,
        },
{
    let ghost all = slots_view(slots@);
    let mut values: Vec<ParamValue> = Vec::new();
    let mut i: usize = 0;
    let mut at: usize = 0;
    let total = slots.len();
    proof {
        assert(tags@.skip(0) =~= tags@);
        assert(all.skip(0) =~= all);
        assert(values_view(values@) =~= Seq::<ParamValueSpec>::empty());
        match decode_event(tags@, all) {
            Some(rest) => {
                assert(values_view(values@) + rest =~= rest);
            },
            None => {},
        }
    }
    while i < tags.len()
        invariant
            i <= tags@.len(),
            at <= slots@.len(),
            total == slots@.len(),
            all == slots_view(slots@),
            decode_event(tags@, all) == match decode_event(
                tags@.skip(i as int),
                all.skip(at as int),
            ) {
                Some(rest) => Some(values_view(values@) + rest),
                None => None,
            },
        decreases tags@.len() - i,
    {
        let ghost before = values_view(values@);
        proof {
            let here = tags@.skip(i as int);
            assert(here[0] == tags@[i as int]);
            assert(here.drop_first() =~= tags@.skip(i as int + 1));
        }
        match read_field(tags[i], slots, at) {
            Some((value, taken)) => {
                proof {
                    assert(all.skip(at as int).skip(taken as int) =~= all.skip(at + taken));
                }
                values.push(value);
                at = at + taken;
                proof {
                    let added = values@.last()@;
                    assert(values_view(values@) =~= before.push(added));
                    match decode_event(tags@.skip(i as int + 1), all.skip(at as int)) {
                        Some(rest) => {
                            assert(before + (seq![added] + rest) =~= before.push(added) + rest);
                        },
                        None => {},
                    }
                }
            },
            None => {
                return None;
            },
        }
        i = i + 1;
    }
    proof {
        assert(tags@.skip(i as int) =~= Seq::<u8>::empty());
        assert(values_view(values@) + Seq::<ParamValueSpec>::empty() =~= values_view(values@));
        assert(all.skip(at as int).len() == slots@.len() - at);
    }
    if at != slots.len() {
        return None;
    }
    Some(values)
}

} // verus!
