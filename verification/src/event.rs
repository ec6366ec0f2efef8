//! The values of the fields of an event, and the bytes in which an event
//! record carries them.
//!
//! Each field travels in one or two slots of bytes. A number travels in one
//! slot, least significant byte first, in as many bytes as its type is wide.
//! An identifier travels in one slot of sixteen bytes. A string, a run of
//! bytes and a slice travel in two slots: the first holds the number of
//! items in two bytes, the second the items. At most 65535 items travel.

use crate::encoding::{byte_limit, le_bytes, put_u16_le, put_uint_le};
use crate::guid::GUID;
use crate::metadata::InFlag;
use crate::model::{type_code, ParamModel, ParamSpec};
use crate::types::{SocketAddrV4, SocketAddrV6, FILETIME};
use vstd::prelude::*;
use vstd::string::StringSliceAdditionalSpecFns;

verus! {

/// The most items that a counted field carries.
pub const MAX_COUNT: usize = 0xffff;

/// The value of one field of an event.
#[derive(Debug)]
pub enum ParamValue {
    /// A number, a boolean or a point in time: its bit pattern, in as many
    /// bytes as its type is wide.
    Int(u64),
    /// A string or a run of bytes.
    Bytes(Vec<u8>),
    /// A string of 16-bit units.
    Wide(Vec<u16>),
    /// An identifier.
    Guid(GUID),
    /// A slice of numbers: the bit pattern of each.
    List(Vec<u64>),
    /// A point in time that has no `FILETIME`.
    Absent,
}

/// The value of one field of an event as a plain value.
pub enum ParamValueSpec {
    /// A number, a boolean or a point in time.
    Int(u64),
    /// A string or a run of bytes.
    Bytes(Seq<u8>),
    /// A string of 16-bit units.
    Wide(Seq<u16>),
    /// An identifier.
    Guid(GUID),
    /// A slice of numbers.
    List(Seq<u64>),
    /// A point in time that has no `FILETIME`.
    Absent,
}

impl View for ParamValue {
    type V = ParamValueSpec;

    open spec fn view(&self) -> ParamValueSpec {
        match self {
            ParamValue::Int(bits) => ParamValueSpec::Int(*bits),
            ParamValue::Bytes(bytes) => ParamValueSpec::Bytes(bytes@),
            ParamValue::Wide(units) => ParamValueSpec::Wide(units@),
            ParamValue::Guid(g) => ParamValueSpec::Guid(*g),
            ParamValue::List(items) => ParamValueSpec::List(items@),
            ParamValue::Absent => ParamValueSpec::Absent,
        }
    }
}

/// The values of a sequence of fields as plain values.
pub open spec fn values_view(values: Seq<ParamValue>) -> Seq<ParamValueSpec> {
    values.map_values(|v: ParamValue| v@)
}

/// The slots of a sequence as plain values.
pub open spec fn slots_view(slots: Seq<Vec<u8>>) -> Seq<Seq<u8>> {
    slots.map_values(|s: Vec<u8>| s@)
}

/// The form in which the values of a type travel.
#[derive(Copy, Clone, PartialEq, Eq, Structural, Debug)]
pub enum WireForm {
    /// A number in the given number of bytes: one, two, four or eight.
    Fixed(usize),
    /// A count, and as many bytes.
    CountedBytes,
    /// A count, and as many 16-bit units.
    CountedWide,
    /// The sixteen bytes of an identifier.
    Guid,
}

/// The form in which the values of the type with the given code travel, where
/// they travel in one of the forms that this library writes.
pub open spec fn wire_form_of(code: u8) -> Option<WireForm> {
    if code == InFlag::INT8 || code == InFlag::UINT8 {
        Some(WireForm::Fixed(1))
    } else if code == InFlag::INT16 || code == InFlag::UINT16 {
        Some(WireForm::Fixed(2))
    } else if code == InFlag::INT32 || code == InFlag::UINT32 || code == InFlag::FLOAT || code
        == InFlag::BOOL32 || code == InFlag::HEXINT32 {
        Some(WireForm::Fixed(4))
    } else if code == InFlag::INT64 || code == InFlag::UINT64 || code == InFlag::DOUBLE || code
        == InFlag::FILETIME || code == InFlag::HEXINT64 {
        Some(WireForm::Fixed(8))
    } else if code == InFlag::BINARY || code == InFlag::COUNTED_ANSI_STRING {
        Some(WireForm::CountedBytes)
    } else if code == InFlag::COUNTED_UNICODE_STRING {
        Some(WireForm::CountedWide)
    } else if code == InFlag::GUID {
        Some(WireForm::Guid)
    } else {
        None
    }
}

/// The form in which the values of the type with the given code travel.
pub fn wire_form(code: u8) -> (form: Option<WireForm>)
    ensures
        form == wire_form_of(code),
        form matches Some(WireForm::Fixed(w)) ==> w == 1 || w == 2 || w == 4 || w == 8,
{
    if code == InFlag::INT8 || code == InFlag::UINT8 {
        Some(WireForm::Fixed(1))
    } else if code == InFlag::INT16 || code == InFlag::UINT16 {
        Some(WireForm::Fixed(2))
    } else if code == InFlag::INT32 || code == InFlag::UINT32 || code == InFlag::FLOAT || code
        == InFlag::BOOL32 || code == InFlag::HEXINT32 {
        Some(WireForm::Fixed(4))
    } else if code == InFlag::INT64 || code == InFlag::UINT64 || code == InFlag::DOUBLE || code
        == InFlag::FILETIME || code == InFlag::HEXINT64 {
        Some(WireForm::Fixed(8))
    } else if code == InFlag::BINARY || code == InFlag::COUNTED_ANSI_STRING {
        Some(WireForm::CountedBytes)
    } else if code == InFlag::COUNTED_UNICODE_STRING {
        Some(WireForm::CountedWide)
    } else if code == InFlag::GUID {
        Some(WireForm::Guid)
    } else {
        None
    }
}

/// The number of items of a counted field that travel.
pub open spec fn count_of(len: nat) -> nat {
    if len > MAX_COUNT {
        MAX_COUNT as nat
    } else {
        len
    }
}

/// Whether every number of a sequence fits the given number of bytes.
pub open spec fn all_fit(items: Seq<u64>, width: nat) -> bool {
    forall|i: int| 0 <= i < items.len() ==> (#[trigger] items[i]) < byte_limit(width)
}

/// The numbers of a sequence, each in the given number of bytes, least
/// significant byte first.
pub open spec fn le_items(items: Seq<u64>, width: nat) -> Seq<u8>
    decreases items.len(),
{
    if items.len() == 0 {
        Seq::<u8>::empty()
    } else {
        le_items(items.drop_last(), width) + le_bytes(items.last() as nat, width)
    }
}

/// The 16-bit units of a sequence as numbers.
pub open spec fn units_as_items(units: Seq<u16>) -> Seq<u64> {
    units.map_values(|u: u16| u as u64)
}

/// The slots in which a value travels as a field of the type with the given
/// code, or as a slice of that type. There are none where the value is not
/// one that such a field can have.
pub open spec fn field_slots(code: u8, is_slice: bool, value: ParamValueSpec) -> Option<
    Seq<Seq<u8>>,
> {
    match wire_form_of(code) {
        None => None,
        Some(form) => if is_slice {
            match (form, value) {
                (WireForm::Fixed(w), ParamValueSpec::List(items)) => if all_fit(items, w as nat) {
                    let count = count_of(items.len());
                    Some(
                        seq![le_bytes(count, 2), le_items(items.take(count as int), w as nat)],
                    )
                } else {
                    None
                },
                _ => None,
            }
        } else {
            match (form, value) {
                (WireForm::Fixed(w), ParamValueSpec::Int(bits)) => if bits < byte_limit(
                    w as nat,
                ) {
                    Some(seq![le_bytes(bits as nat, w as nat)])
                } else {
                    None
                },
                (WireForm::Fixed(w), ParamValueSpec::Absent) => if code == InFlag::FILETIME {
                    Some(seq![Seq::<u8>::empty()])
                } else {
                    None
                },
                (WireForm::CountedBytes, ParamValueSpec::Bytes(bytes)) => {
                    let count = count_of(bytes.len());
                    Some(seq![le_bytes(count, 2), bytes.take(count as int)])
                },
                (WireForm::CountedWide, ParamValueSpec::Wide(units)) => {
                    let count = count_of(units.len());
                    Some(
                        seq![
                            le_bytes(count, 2),
                            le_items(units_as_items(units.take(count as int)), 2),
                        ],
                    )
                },
                (WireForm::Guid, ParamValueSpec::Guid(g)) => Some(seq![g.wire_bytes()]),
                _ => None,
            }
        },
    }
}

/// The slots in which the values of the fields of an event travel, in the
/// order of the fields, where pointers are `bits` wide. There are none where
/// there are not as many values as fields, or where a value is not one that
/// its field can have.
pub open spec fn event_slots(fields: Seq<ParamSpec>, values: Seq<ParamValueSpec>, bits: int) -> Option<
    Seq<Seq<u8>>,
>
    decreases fields.len(),
{
    if fields.len() != values.len() {
        None
    } else if fields.len() == 0 {
        Some(Seq::<Seq<u8>>::empty())
    } else {
        match field_slots(type_code(fields[0].code, bits), fields[0].is_slice, values[0]) {
            Some(first) => match event_slots(fields.drop_first(), values.drop_first(), bits) {
                Some(rest) => Some(first + rest),
                None => None,
            },
            None => None,
        }
    }
}

/// The numbers that one, two and four bytes hold.
pub proof fn byte_limits()
    ensures
        byte_limit(1) == 0x100,
        byte_limit(2) == 0x1_0000,
        byte_limit(4) == 0x1_0000_0000,
        byte_limit(8) == 0x1_0000_0000_0000_0000,
{
    reveal_with_fuel(byte_limit, 9);
}

/// Checks whether a number fits the given number of bytes.
fn fits_width(bits: u64, width: usize) -> (fits: bool)
    requires
        width == 1 || width == 2 || width == 4 || width == 8,
    ensures
        fits == (bits < byte_limit(width as nat)),
{
    proof {
        byte_limits();
    }
    if width == 1 {
        bits < 0x100
    } else if width == 2 {
        bits < 0x1_0000
    } else if width == 4 {
        bits < 0x1_0000_0000
    } else {
        true
    }
}

/// Builds the slot of the first numbers of a slice, or says that one of the
/// numbers of the slice does not fit the width.
fn put_items(items: &Vec<u64>, count: usize, width: usize) -> (slot: Option<Vec<u8>>)
    requires
        count <= items@.len(),
        width == 1 || width == 2 || width == 4 || width == 8,
    ensures
        slot is Some <==> all_fit(items@, width as nat),
        slot matches Some(bytes) ==> bytes@ == le_items(items@.take(count as int), width as nat),
{
    let mut slot: Vec<u8> = Vec::new();
    let mut i: usize = 0;
    proof {
        assert(items@.take(0) =~= Seq::<u64>::empty());
    }
    while i < items.len()
        invariant
            i <= items@.len(),
            count <= items@.len(),
            width == 1 || width == 2 || width == 4 || width == 8,
            forall|k: int| 0 <= k < i ==> (#[trigger] items@[k]) < byte_limit(width as nat),
            slot@ == le_items(
                items@.take(
                    if i <= count {
                        i as int
                    } else {
                        count as int
                    },
                ),
                width as nat,
            ),
        decreases items@.len() - i,
    {
        if !fits_width(items[i], width) {
            return None;
        }
        if i < count {
            put_uint_le(&mut slot, items[i], width);
            proof {
                let longer = items@.take(i as int + 1);
                assert(longer.drop_last() =~= items@.take(i as int));
                assert(longer.last() == items@[i as int]);
            }
        }
        i = i + 1;
    }
    Some(slot)
}

/// Builds the slot of the first units of a string of 16-bit units.
fn put_units(units: &Vec<u16>, count: usize) -> (slot: Vec<u8>)
    requires
        count <= units@.len(),
    ensures
        slot@ == le_items(units_as_items(units@.take(count as int)), 2),
{
    let mut slot: Vec<u8> = Vec::new();
    let mut i: usize = 0;
    proof {
        assert(units_as_items(units@.take(0)) =~= Seq::<u64>::empty());
    }
    while i < count
        invariant
            i <= count <= units@.len(),
            slot@ == le_items(units_as_items(units@.take(i as int)), 2),
        decreases count - i,
    {
        put_uint_le(&mut slot, units[i] as u64, 2);
        proof {
            let longer = units_as_items(units@.take(i as int + 1));
            assert(longer.drop_last() =~= units_as_items(units@.take(i as int)));
            assert(longer.last() == units@[i as int] as u64);
        }
        i = i + 1;
    }
    slot
}

/// The first bytes of a run of bytes.
fn take_bytes(bytes: &Vec<u8>, count: usize) -> (slot: Vec<u8>)
    requires
        count <= bytes@.len(),
    ensures
        slot@ == bytes@.take(count as int),
{
    let mut slot: Vec<u8> = Vec::new();
    let mut i: usize = 0;
    while i < count
        invariant
            i <= count <= bytes@.len(),
            slot@ == bytes@.take(i as int),
        decreases count - i,
    {
        slot.push(bytes[i]);
        proof {
            assert(bytes@.take(i as int).push(bytes@[i as int]) =~= bytes@.take(i as int + 1));
        }
        i = i + 1;
    }
    slot
}

/// The slot that holds a count.
fn count_slot(len: usize) -> (r: (Vec<u8>, usize))
    ensures
        r.1 == count_of(len as nat),
        r.1 <= len,
        r.0@ == le_bytes(count_of(len as nat), 2),
{
    let count: usize = if len > MAX_COUNT {
        MAX_COUNT
    } else {
        len
    };
    let mut slot: Vec<u8> = Vec::new();
    put_u16_le(&mut slot, count as u16);
    proof {
        assert(slot@ =~= le_bytes(count as nat, 2));
    }
    (slot, count)
}

/// Builds the slots in which a value travels as a field of the type with the
/// given code, or as a slice of that type, or says that the value is not one
/// that such a field can have.
pub fn serialize_field(code: u8, is_slice: bool, value: &ParamValue) -> (slots: Option<
    Vec<Vec<u8>>,
>)
    ensures
        slots is Some <==> field_slots(code, is_slice, value@) is Some,
        slots matches Some(s) ==> Some(slots_view(s@)) == field_slots(code, is_slice, value@),
{
    let form = match wire_form(code) {
        Some(form) => form,
        None => {
            return None;
        },
    };
    let mut slots: Vec<Vec<u8>> = Vec::new();
    if is_slice {
        match (form, value) {
            (WireForm::Fixed(w), ParamValue::List(items)) => {
                let (head, count) = count_slot(items.len());
                match put_items(items, count, w) {
                    Some(body) => {
                        slots.push(head);
                        slots.push(body);
                        proof {
                            assert(slots_view(slots@) =~= seq![head@, body@]);
                        }
                        Some(slots)
                    },
                    None => None,
                }
            },
            _ => None,
        }
    } else {
        match (form, value) {
            (WireForm::Fixed(w), ParamValue::Int(bits)) => {
                if fits_width(*bits, w) {
                    let mut slot: Vec<u8> = Vec::new();
                    put_uint_le(&mut slot, *bits, w);
                    slots.push(slot);
                    proof {
                        assert(slot@ =~= le_bytes(*bits as nat, w as nat));
                        assert(slots_view(slots@) =~= seq![slot@]);
                    }
                    Some(slots)
                } else {
                    None
                }
            },
            (WireForm::Fixed(_), ParamValue::Absent) => {
                if code == InFlag::FILETIME {
                    let slot: Vec<u8> = Vec::new();
                    slots.push(slot);
                    proof {
                        assert(slots_view(slots@) =~= seq![Seq::<u8>::empty()]);
                    }
                    Some(slots)
                } else {
                    None
                }
            },
            (WireForm::CountedBytes, ParamValue::Bytes(bytes)) => {
                let (head, count) = count_slot(bytes.len());
                let body = take_bytes(bytes, count);
                slots.push(head);
                slots.push(body);
                proof {
                    assert(slots_view(slots@) =~= seq![head@, body@]);
                }
                Some(slots)
            },
            (WireForm::CountedWide, ParamValue::Wide(units)) => {
                let (head, count) = count_slot(units.len());
                let body = put_units(units, count);
                slots.push(head);
                slots.push(body);
                proof {
                    assert(slots_view(slots@) =~= seq![head@, body@]);
                }
                Some(slots)
            },
            (WireForm::Guid, ParamValue::Guid(g)) => {
                let slot = g.to_le_bytes();
                slots.push(slot);
                proof {
                    assert(slots_view(slots@) =~= seq![slot@]);
                }
                Some(slots)
            },
            _ => None,
        }
    }
}

/// Builds the slots in which the values of the fields of an event travel, in
/// the order of the fields, or says that the values are not ones that the
/// fields can have.
pub fn serialize_event(fields: &Vec<ParamModel>, values: &Vec<ParamValue>) -> (slots: Option<
    Vec<Vec<u8>>,
>)
    ensures
        slots is Some <==> event_slots(
            crate::model::params_view(fields@),
            values_view(values@),
            usize::BITS as int,
        ) is Some,
        slots matches Some(s) ==> Some(slots_view(s@)) == event_slots(
            crate::model::params_view(fields@),
            values_view(values@),
            usize::BITS as int,
        ),
{
    let ghost bits = usize::BITS as int;
    let ghost all_fields = crate::model::params_view(fields@);
    let ghost all_values = values_view(values@);
    if fields.len() != values.len() {
        return None;
    }
    let mut slots: Vec<Vec<u8>> = Vec::new();
    let mut i: usize = 0;
    proof {
        assert(all_fields.skip(0) =~= all_fields);
        assert(all_values.skip(0) =~= all_values);
        assert(slots_view(slots@) =~= Seq::<Seq<u8>>::empty());
        match event_slots(all_fields, all_values, bits) {
            Some(rest) => {
                assert(slots_view(slots@) + rest =~= rest);
            },
            None => {},
        }
    }
    while i < fields.len()
        invariant
            i <= fields@.len() == values@.len(),
            bits == usize::BITS as int,
            all_fields == crate::model::params_view(fields@),
            all_values == values_view(values@),
            event_slots(all_fields, all_values, bits) == match event_slots(
                all_fields.skip(i as int),
                all_values.skip(i as int),
                bits,
            ) {
                Some(rest) => Some(slots_view(slots@) + rest),
                None => None,
            },
        decreases fields@.len() - i,
    {
        let field = &fields[i];
        let ghost before = slots_view(slots@);
        proof {
            let fs = all_fields.skip(i as int);
            let vs = all_values.skip(i as int);
            assert(fs.len() == vs.len());
            assert(fs[0] == all_fields[i as int]);
            assert(vs[0] == all_values[i as int]);
            assert(fs.drop_first() =~= all_fields.skip(i as int + 1));
            assert(vs.drop_first() =~= all_values.skip(i as int + 1));
            assert(all_fields[i as int] == fields@[i as int]@);
            assert(all_values[i as int] == values@[i as int]@);
        }
        match serialize_field(field.type_code(), field.is_slice, &values[i]) {
            Some(more) => {
                let ghost added = slots_view(more@);
                let mut more = more;
                slots.append(&mut more);
                proof {
                    assert(slots_view(slots@) =~= before + added);
                    match event_slots(
                        all_fields.skip(i as int + 1),
                        all_values.skip(i as int + 1),
                        bits,
                    ) {
                        Some(rest) => {
                            assert(before + (added + rest) =~= (before + added) + rest);
                        },
                        None => {},
                    }
                }
            },
            None => {
                return None;
            },
        }
        i = i + 1;
    }
    proof {
        assert(all_fields.skip(fields@.len() as int) =~= Seq::<ParamSpec>::empty());
        assert(all_values.skip(fields@.len() as int) =~= Seq::<ParamValueSpec>::empty());
        assert(slots_view(slots@) + Seq::<Seq<u8>>::empty() =~= slots_view(slots@));
    }
    Some(slots)
}

/// The bit pattern of a signed number in the given number of bytes.
pub open spec fn twos_complement(value: int, width: nat) -> nat {
    if value < 0 {
        (value + byte_limit(width)) as nat
    } else {
        value as nat
    }
}

/// A copy of a run of bytes.
pub fn copy_bytes(bytes: &[u8]) -> (copy: Vec<u8>)
    ensures
        copy@ == bytes@,
{
    let mut copy: Vec<u8> = Vec::new();
    crate::types::put_array(&mut copy, bytes);
    assert(copy@ =~= bytes@);
    copy
}

impl ParamValue {
    /// The value of a boolean field: one for true, zero for false.
    pub fn from_bool(value: bool) -> (v: ParamValue)
        ensures
            v@ == ParamValueSpec::Int(
                if value {
                    1u64
                } else {
                    0u64
                },
            ),
    {
        ParamValue::Int(
            if value {
                1
            } else {
                0
            },
        )
    }

    /// The value of a field of 8 bits without sign.
    pub fn from_u8(value: u8) -> (v: ParamValue)
        ensures
            v@ == ParamValueSpec::Int(value as u64),
    {
        ParamValue::Int(value as u64)
    }

    /// The value of a field of 16 bits without sign.
    pub fn from_u16(value: u16) -> (v: ParamValue)
        ensures
            v@ == ParamValueSpec::Int(value as u64),
    {
        ParamValue::Int(value as u64)
    }

    /// The value of a field of 32 bits without sign; also that of a 32-bit
    /// floating-point number, given by its bits.
    pub fn from_u32(value: u32) -> (v: ParamValue)
        ensures
            v@ == ParamValueSpec::Int(value as u64),
    {
        ParamValue::Int(value as u64)
    }

    /// The value of a field of 64 bits without sign; also that of a 64-bit
    /// floating-point number, given by its bits.
    pub fn from_u64(value: u64) -> (v: ParamValue)
        ensures
            v@ == ParamValueSpec::Int(value),
    {
        ParamValue::Int(value)
    }

    /// The value of a signed field of 8 bits.
    pub fn from_i8(value: i8) -> (v: ParamValue)
        ensures
            v@ == ParamValueSpec::Int(twos_complement(value as int, 1) as u64),
            twos_complement(value as int, 1) < byte_limit(1),
    {
        proof {
            byte_limits();
        }
        if value < 0 {
            ParamValue::Int((value as i64 + 0x100) as u64)
        } else {
            ParamValue::Int(value as u64)
        }
    }

    /// The value of a signed field of 16 bits.
    pub fn from_i16(value: i16) -> (v: ParamValue)
        ensures
            v@ == ParamValueSpec::Int(twos_complement(value as int, 2) as u64),
            twos_complement(value as int, 2) < byte_limit(2),
    {
        proof {
            byte_limits();
        }
        if value < 0 {
            ParamValue::Int((value as i64 + 0x1_0000) as u64)
        } else {
            ParamValue::Int(value as u64)
        }
    }

    /// The value of a signed field of 32 bits.
    pub fn from_i32(value: i32) -> (v: ParamValue)
        ensures
            v@ == ParamValueSpec::Int(twos_complement(value as int, 4) as u64),
            twos_complement(value as int, 4) < byte_limit(4),
    {
        proof {
            byte_limits();
        }
        if value < 0 {
            ParamValue::Int((value as i64 + 0x1_0000_0000) as u64)
        } else {
            ParamValue::Int(value as u64)
        }
    }

    /// The value of a signed field of 64 bits.
    pub fn from_i64(value: i64) -> (v: ParamValue)
        ensures
            v@ == ParamValueSpec::Int(twos_complement(value as int, 8) as u64),
            twos_complement(value as int, 8) < byte_limit(8),
    {
        proof {
            byte_limits();
        }
        if value < 0 {
            ParamValue::Int((value as i128 + 0x1_0000_0000_0000_0000) as u64)
        } else {
            ParamValue::Int(value as u64)
        }
    }

    /// The value of a string field.
    pub fn from_str(value: &str) -> (v: ParamValue)
        ensures
            v@ == ParamValueSpec::Bytes(value.spec_bytes()),
    {
        ParamValue::Bytes(copy_bytes(value.as_bytes()))
    }

    /// The value of a field that is a string of 16-bit units.
    pub fn from_wide(units: &[u16]) -> (v: ParamValue)
        ensures
            v@ == ParamValueSpec::Wide(units@),
    {
        let mut copy: Vec<u16> = Vec::new();
        let mut i: usize = 0;
        while i < units.len()
            invariant
                i <= units@.len(),
                copy@ == units@.take(i as int),
            decreases units@.len() - i,
        {
            copy.push(units[i]);
            proof {
                assert(units@.take(i as int).push(units@[i as int]) =~= units@.take(i as int + 1));
            }
            i = i + 1;
        }
        proof {
            assert(units@.take(units@.len() as int) =~= units@);
        }
        ParamValue::Wide(copy)
    }

    /// The value of a field that is an identifier.
    pub fn from_guid(value: &GUID) -> (v: ParamValue)
        ensures
            v@ == ParamValueSpec::Guid(*value),
    {
        ParamValue::Guid(value.clone())
    }

    /// The value of a field that is an IPv4 socket address.
    pub fn from_socket_addr_v4(value: &SocketAddrV4) -> (v: ParamValue)
        ensures
            v@ == ParamValueSpec::Bytes(value.wire_bytes()),
    {
        ParamValue::Bytes(value.to_bytes())
    }

    /// The value of a field that is an IPv6 socket address.
    pub fn from_socket_addr_v6(value: &SocketAddrV6) -> (v: ParamValue)
        ensures
            v@ == ParamValueSpec::Bytes(value.wire_bytes()),
    {
        ParamValue::Bytes(value.to_bytes())
    }

    /// The value of a field that is a `FILETIME`.
    pub fn from_filetime(value: FILETIME) -> (v: ParamValue)
        ensures
            v@ == ParamValueSpec::Int(value.0),
    {
        ParamValue::Int(value.0)
    }

    /// The value of a field that is a point in time of the system clock: its
    /// `FILETIME` where it has one, and no value where it has none.
    pub fn from_time(value: Result<FILETIME, crate::types::OutOfRangeError>) -> (v: ParamValue)
        ensures
            v@ == match value {
                Ok(t) => ParamValueSpec::Int(t.0),
                Err(_) => ParamValueSpec::Absent,
            },
    {
        match value {
            Ok(t) => ParamValue::Int(t.0),
            Err(_) => ParamValue::Absent,
        }
    }

    /// The value of a field that is a slice of bytes.
    pub fn from_u8_slice(items: &[u8]) -> (v: ParamValue)
        ensures
            v@ == ParamValueSpec::List(items@.map_values(|x: u8| x as u64)),
    {
        let mut list: Vec<u64> = Vec::new();
        let mut i: usize = 0;
        while i < items.len()
            invariant
                i <= items@.len(),
                list@ == items@.take(i as int).map_values(|x: u8| x as u64),
            decreases items@.len() - i,
        {
            list.push(items[i] as u64);
            proof {
                assert(items@.take(i as int + 1).map_values(|x: u8| x as u64) =~= items@.take(
                    i as int,
                ).map_values(|x: u8| x as u64).push(items@[i as int] as u64));
            }
            i = i + 1;
        }
        proof {
            assert(items@.take(items@.len() as int) =~= items@);
        }
        ParamValue::List(list)
    }

    /// The value of a field that is a slice of numbers of 32 bits without sign.
    pub fn from_u32_slice(items: &[u32]) -> (v: ParamValue)
        ensures
            v@ == ParamValueSpec::List(items@.map_values(|x: u32| x as u64)),
    {
        let mut list: Vec<u64> = Vec::new();
        let mut i: usize = 0;
        while i < items.len()
            invariant
                i <= items@.len(),
                list@ == items@.take(i as int).map_values(|x: u32| x as u64),
            decreases items@.len() - i,
        {
            list.push(items[i] as u64);
            proof {
                assert(items@.take(i as int + 1).map_values(|x: u32| x as u64) =~= items@.take(
                    i as int,
                ).map_values(|x: u32| x as u64).push(items@[i as int] as u64));
            }
            i = i + 1;
        }
        proof {
            assert(items@.take(items@.len() as int) =~= items@);
        }
        ParamValue::List(list)
    }

    /// The value of a field that is a slice of signed numbers of 32 bits.
    pub fn from_i32_slice(items: &[i32]) -> (v: ParamValue)
        ensures
            v@ == ParamValueSpec::List(
                items@.map_values(|x: i32| twos_complement(x as int, 4) as u64),
            ),
    {
        let mut list: Vec<u64> = Vec::new();
        let mut i: usize = 0;
        while i < items.len()
            invariant
                i <= items@.len(),
                list@ == items@.take(i as int).map_values(
                    |x: i32| twos_complement(x as int, 4) as u64,
                ),
            decreases items@.len() - i,
        {
            let item = items[i];
            proof {
                byte_limits();
            }
            let bits: u64 = if item < 0 {
                (item as i64 + 0x1_0000_0000) as u64
            } else {
                item as u64
            };
            list.push(bits);
            proof {
                assert(items@.take(i as int + 1).map_values(
                    |x: i32| twos_complement(x as int, 4) as u64,
                ) =~= items@.take(i as int).map_values(
                    |x: i32| twos_complement(x as int, 4) as u64,
                ).push(bits));
            }
            i = i + 1;
        }
        proof {
            assert(items@.take(items@.len() as int) =~= items@);
        }
        ParamValue::List(list)
    }
}

} // verus!
