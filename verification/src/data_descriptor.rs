//! References to the data of event fields.

use vstd::prelude::*;
use vstd::string::StringSliceAdditionalSpecFns;

verus! {

/// The kind of a descriptor that holds the data of an event field.
pub const EVENT_DATA_DESCRIPTOR_TYPE_NONE: u32 = 0;

/// The kind of a descriptor that holds the metadata of an event.
pub const EVENT_DATA_DESCRIPTOR_TYPE_EVENT_METADATA: u32 = 1;

/// The kind of a descriptor that holds the metadata of a provider.
pub const EVENT_DATA_DESCRIPTOR_TYPE_PROVIDER_METADATA: u32 = 2;

/// Contains a reference to the data for an event field. The type of the data
/// is not specified in this structure; instead, the type of the data is stored
/// in the event's metadata.
///
/// A descriptor borrows the bytes that it describes, so the bytes outlive
/// every use of the descriptor.
#[derive(Clone, Copy, Debug)]
pub struct EventDataDescriptor<'a> {
    data: &'a [u8],
    kind: u32,
}

/// The size that a descriptor reports for `len` bytes: the low 32 bits of the length.
pub open spec fn descriptor_size(len: nat) -> u32 {
    (len % 0x1_0000_0000) as u32
}

impl<'a> EventDataDescriptor<'a> {
    /// The bytes that the descriptor refers to.
    pub closed spec fn bytes(&self) -> Seq<u8> {
        self.data@
    }

    /// The kind of the descriptor: field data, event metadata or provider metadata.
    pub closed spec fn spec_kind(&self) -> u32 {
        self.kind
    }

    /// Returns an empty data descriptor.
    pub fn empty() -> (d: EventDataDescriptor<'static>)
        ensures
            d.bytes() == Seq::<u8>::empty(),
            d.spec_kind() == EVENT_DATA_DESCRIPTOR_TYPE_NONE,
    {
        let nothing: &'static [u8] = &[];
        assert(nothing@ =~= Seq::<u8>::empty());
        EventDataDescriptor { data: nothing, kind: EVENT_DATA_DESCRIPTOR_TYPE_NONE }
    }

    /// Creates an `EventDataDescriptor` for provider metadata.
    pub fn for_provider_metadata(s: &'a [u8]) -> (d: Self)
        ensures
            d.bytes() == s@,
            d.spec_kind() == EVENT_DATA_DESCRIPTOR_TYPE_PROVIDER_METADATA,
    {
        EventDataDescriptor { data: s, kind: EVENT_DATA_DESCRIPTOR_TYPE_PROVIDER_METADATA }
    }

    /// Creates an `EventDataDescriptor` for the metadata that describes a single event.
    pub fn for_event_metadata(s: &'a [u8]) -> (d: Self)
        ensures
            d.bytes() == s@,
            d.spec_kind() == EVENT_DATA_DESCRIPTOR_TYPE_EVENT_METADATA,
    {
        EventDataDescriptor { data: s, kind: EVENT_DATA_DESCRIPTOR_TYPE_EVENT_METADATA }
    }

    /// Creates a `EventDataDescriptor for a slice of bytes.
    pub fn for_bytes(s: &'a [u8]) -> (d: Self)
        ensures
            d.bytes() == s@,
            d.spec_kind() == EVENT_DATA_DESCRIPTOR_TYPE_NONE,
    {
        EventDataDescriptor { data: s, kind: EVENT_DATA_DESCRIPTOR_TYPE_NONE }
    }

    /// Creates a `EventDataDescriptor for the bytes of a string.
    pub fn for_str(s: &'a str) -> (d: Self)
        ensures
            d.bytes() == s.spec_bytes(),
            d.spec_kind() == EVENT_DATA_DESCRIPTOR_TYPE_NONE,
    {
        EventDataDescriptor { data: s.as_bytes(), kind: EVENT_DATA_DESCRIPTOR_TYPE_NONE }
    }

    /// The bytes that the descriptor refers to.
    pub fn data(&self) -> (s: &'a [u8])
        ensures
            s@ == self.bytes(),
    {
        self.data
    }

    /// The number of bytes that the descriptor reports to the tracing
    /// backend: the low 32 bits of the length of its data.
    pub fn size(&self) -> (n: u32)
        ensures
            n == descriptor_size(self.bytes().len()),
    {
        (self.data.len() as u64 % 0x1_0000_0000) as u32
    }

    /// The kind of the descriptor: field data, event metadata or provider metadata.
    pub fn kind(&self) -> (k: u32)
        ensures
            k == self.spec_kind(),
    {
        self.kind
    }
}

/// What a sequence of descriptors describes: of each the kind and the bytes
/// that it refers to, in the order of the sequence.
pub open spec fn described(data: Seq<EventDataDescriptor<'_>>) -> Seq<(u32, Seq<u8>)> {
    Seq::new(data.len(), |i: int| (data[i].spec_kind(), data[i].bytes()))
}

} // verus!
