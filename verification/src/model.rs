//! A provider and its events after validation: what the metadata blobs and
//! the event calls are made from.

use crate::guid::GUID;
use crate::metadata::{InFlag, Level, OutFlag};
use crate::well_known_types::{InTypeExpr, WellKnownType};
use vstd::prelude::*;

verus! {

/// One field of an event.
#[derive(Debug)]
pub struct ParamModel {
    /// The name of the field.
    pub name: String,
    /// The well-known type of the field, or of its items where it is a slice.
    pub code: WellKnownType,
    /// Whether the field is a slice.
    pub is_slice: bool,
    /// Whether the field is displayed in hexadecimal.
    pub output_hex: bool,
}

/// One field of an event as a plain value.
pub struct ParamSpec {
    /// The name of the field.
    pub name: Seq<char>,
    /// The well-known type of the field, or of its items where it is a slice.
    pub code: WellKnownType,
    /// Whether the field is a slice.
    pub is_slice: bool,
    /// Whether the field is displayed in hexadecimal.
    pub output_hex: bool,
}

impl View for ParamModel {
    type V = ParamSpec;

    open spec fn view(&self) -> ParamSpec {
        ParamSpec {
            name: self.name@,
            code: self.code,
            is_slice: self.is_slice,
            output_hex: self.output_hex,
        }
    }
}

/// The type code of a well-known type where pointers are `bits` wide.
pub open spec fn type_code(code: WellKnownType, bits: int) -> u8 {
    match code.info().opts.in_type_expr {
        Some(InTypeExpr::Usize) => InFlag::usize_code(bits),
        Some(InTypeExpr::Isize) => InFlag::isize_code(bits),
        None => code.info().in_type.0,
    }
}

impl ParamSpec {
    /// The display tag of the field: hexadecimal where the declaration asks for
    /// it, the default of the type otherwise.
    pub open spec fn out_tag(self) -> Option<u8> {
        if self.output_hex {
            Some(OutFlag::HEX)
        } else {
            match self.code.info().opts.out_type {
                Some(out) => Some(out.0),
                None => None,
            }
        }
    }

    /// The type tag of the field where pointers are `bits` wide: the type
    /// code, the variable-count flag for a slice, and the chain flag where a
    /// display tag follows.
    pub open spec fn in_tag(self, bits: int) -> u8 {
        (type_code(self.code, bits) + (if self.is_slice {
            InFlag::VCOUNT_FLAG as int
        } else {
            0
        }) + (if self.out_tag() is Some {
            InFlag::CHAIN_FLAG as int
        } else {
            0
        })) as u8
    }
}

/// The type codes stay below the flags.
pub proof fn type_code_is_small(code: WellKnownType, bits: int)
    ensures
        type_code(code, bits) < 0x20,
{
}

impl ParamModel {
    /// The type code of the field on this machine.
    pub fn type_code(&self) -> (code: u8)
        ensures
            code == type_code(self.code, usize::BITS as int),
            code < 0x20,
    {
        let info = self.code.get_info();
        match info.opts.in_type_expr {
            Some(InTypeExpr::Usize) => InFlag::usize_flag().bits(),
            Some(InTypeExpr::Isize) => InFlag::isize_flag().bits(),
            None => info.in_type.bits(),
        }
    }

    /// The display tag of the field.
    pub fn out_tag(&self) -> (tag: Option<u8>)
        ensures
            tag == self@.out_tag(),
    {
        if self.output_hex {
            Some(OutFlag::HEX)
        } else {
            match self.code.get_info().opts.out_type {
                Some(out) => Some(out.bits()),
                None => None,
            }
        }
    }

    /// The type tag of the field on this machine.
    pub fn in_tag(&self) -> (tag: u8)
        ensures
            tag == self@.in_tag(usize::BITS as int),
    {
        let mut tag: u8 = self.type_code();
        if self.is_slice {
            tag = tag + InFlag::VCOUNT_FLAG;
        }
        if self.out_tag().is_some() {
            tag = tag + InFlag::CHAIN_FLAG;
        }
        tag
    }
}

/// One event of a provider.
#[derive(Debug)]
pub struct EventModel {
    /// The name of the event.
    pub name: String,
    /// The identifier of the event within its provider.
    pub id: u16,
    /// The level at which the event is reported.
    pub level: Level,
    /// The operation code of the event.
    pub opcode: u8,
    /// The task of the event.
    pub task: u16,
    /// The keywords of the event.
    pub keyword: u64,
    /// The documentation of the event.
    pub doc: String,
    /// The fields of the event, in the order in which they are declared.
    pub params: Vec<ParamModel>,
}

/// One event of a provider as a plain value.
pub struct EventSpec {
    /// The name of the event.
    pub name: Seq<char>,
    /// The identifier of the event within its provider.
    pub id: u16,
    /// The level at which the event is reported.
    pub level: Level,
    /// The operation code of the event.
    pub opcode: u8,
    /// The task of the event.
    pub task: u16,
    /// The keywords of the event.
    pub keyword: u64,
    /// The documentation of the event.
    pub doc: Seq<char>,
    /// The fields of the event, in the order in which they are declared.
    pub params: Seq<ParamSpec>,
}

/// The fields of a sequence as plain values.
pub open spec fn params_view(params: Seq<ParamModel>) -> Seq<ParamSpec> {
    params.map_values(|p: ParamModel| p@)
}

impl View for EventModel {
    type V = EventSpec;

    open spec fn view(&self) -> EventSpec {
        EventSpec {
            name: self.name@,
            id: self.id,
            level: self.level,
            opcode: self.opcode,
            task: self.task,
            keyword: self.keyword,
            doc: self.doc@,
            params: params_view(self.params@),
        }
    }
}

/// A provider after validation.
#[derive(Debug)]
pub struct ProviderModel {
    /// The name of the provider.
    pub name: String,
    /// The identifier of the provider.
    pub guid: GUID,
    /// The identifier of the provider group that the provider belongs to.
    pub provider_group_guid: Option<GUID>,
    /// Whether the provider is registered in the static mode.
    pub static_mode: bool,
    /// The events of the provider, in the order in which they are declared.
    pub events: Vec<EventModel>,
}

/// A provider after validation as a plain value.
pub struct ProviderSpec {
    /// The name of the provider.
    pub name: Seq<char>,
    /// The identifier of the provider.
    pub guid: GUID,
    /// The identifier of the provider group that the provider belongs to.
    pub provider_group_guid: Option<GUID>,
    /// Whether the provider is registered in the static mode.
    pub static_mode: bool,
    /// The events of the provider, in the order in which they are declared.
    pub events: Seq<EventSpec>,
}

/// The events of a sequence as plain values.
pub open spec fn events_view(events: Seq<EventModel>) -> Seq<EventSpec> {
    events.map_values(|e: EventModel| e@)
}

impl View for ProviderModel {
    type V = ProviderSpec;

    open spec fn view(&self) -> ProviderSpec {
        ProviderSpec {
            name: self.name@,
            guid: self.guid,
            provider_group_guid: self.provider_group_guid,
            static_mode: self.static_mode,
            events: events_view(self.events@),
        }
    }
}

} // verus!
