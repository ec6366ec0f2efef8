//! A provider at run time: the validated provider, its metadata blobs, and the
//! backend that transmits its events. An event call checks whether the event
//! is enabled, and only then serialises the values of its fields and hands
//! them to the backend.

use crate::data_descriptor::{
    described, EventDataDescriptor, EVENT_DATA_DESCRIPTOR_TYPE_EVENT_METADATA,
    EVENT_DATA_DESCRIPTOR_TYPE_NONE, EVENT_DATA_DESCRIPTOR_TYPE_PROVIDER_METADATA,
};
use crate::emitter::{
    create_event_metadata, create_provider_metadata, create_provider_traits, event_metadata,
    event_metadata_len, provider_metadata, provider_metadata_len, provider_traits,
    provider_traits_len, MAX_METADATA_LEN,
};
use crate::event::{event_slots, serialize_event, slots_view, values_view, ParamValue};
use crate::guid::GUID;
use crate::metadata::Level;
use crate::model::{EventModel, EventSpec, ProviderModel, ProviderSpec};
use crate::provider::{Error, EventDescriptor, EventOptions, Provider};
use vstd::prelude::*;

verus! {

/// The channel of every event: it tells older decoders that the event
/// describes itself.
pub const TRACELOGGING_CHANNEL: u8 = 11;

/// How an event call ended.
#[derive(Copy, Clone, PartialEq, Eq, Structural, Debug)]
pub enum WriteOutcome {
    /// The event is not enabled: nothing was serialised and nothing was written.
    Disabled,
    /// The event was handed to the backend.
    Written,
    /// There is no such event, or the values are not ones that its fields can have.
    Rejected,
}

/// The descriptor of an event, at its own level or at the level that a call
/// gives in its place.
pub open spec fn descriptor_of(event: EventSpec, level: Option<Level>) -> EventDescriptor {
    EventDescriptor {
        id: event.id,
        version: 0,
        channel: TRACELOGGING_CHANNEL,
        level: match level {
            Some(l) => l,
            None => event.level,
        },
        opcode: event.opcode,
        task: event.task,
        keyword: event.keyword,
    }
}

/// The descriptor of an event, at its own level or at the level that a call
/// gives in its place.
pub fn event_descriptor(event: &EventModel, level: Option<Level>) -> (d: EventDescriptor)
    ensures
        d == descriptor_of(event@, level),
{
    EventDescriptor {
        id: event.id,
        version: 0,
        channel: TRACELOGGING_CHANNEL,
        level: match level {
            Some(l) => l,
            None => event.level,
        },
        opcode: event.opcode,
        task: event.task,
        keyword: event.keyword,
    }
}

/// The level that the options of a call give in place of the event's own.
pub open spec fn level_override(options: Option<&EventOptions>) -> Option<Level> {
    match options {
        Some(o) => o.level,
        None => None,
    }
}

/// The level that the options of a call give in place of the event's own.
pub fn options_level(options: Option<&EventOptions>) -> (level: Option<Level>)
    ensures
        level == level_override(options),
{
    match options {
        Some(o) => o.level,
        None => None,
    }
}

/// What an event call hands to the backend besides the metadata: the slots
/// of the values where the event is enabled, and nothing where it is not.
/// The values of a disabled event are not looked at.
pub fn event_payload(enabled: bool, event: &EventModel, values: &Vec<ParamValue>) -> (payload:
    Option<Vec<Vec<u8>>>)
    ensures
        !enabled ==> payload is None,
        enabled ==> (payload is Some <==> event_slots(
            event@.params,
            values_view(values@),
            usize::BITS as int,
        ) is Some),
        payload matches Some(s) ==> Some(slots_view(s@)) == event_slots(
            event@.params,
            values_view(values@),
            usize::BITS as int,
        ),
{
    if !enabled {
        None
    } else {
        serialize_event(&event.params, values)
    }
}

/// The descriptors that an event call hands to the backend: the provider's
/// blob, the event's blob, and then the slots of the values, in their order.
pub fn event_descriptors<'a>(
    provider_blob: &'a [u8],
    event_blob: &'a [u8],
    slots: &'a Vec<Vec<u8>>,
) -> (descriptors: Vec<EventDataDescriptor<'a>>)
    ensures
        descriptors@.len() == 2 + slots@.len(),
        descriptors@[0].bytes() == provider_blob@,
        descriptors@[0].spec_kind() == EVENT_DATA_DESCRIPTOR_TYPE_PROVIDER_METADATA,
        descriptors@[1].bytes() == event_blob@,
        descriptors@[1].spec_kind() == EVENT_DATA_DESCRIPTOR_TYPE_EVENT_METADATA,
        forall|i: int|
            0 <= i < slots@.len() ==> (#[trigger] descriptors@[2 + i]).bytes() == slots@[i]@
                && descriptors@[2 + i].spec_kind() == EVENT_DATA_DESCRIPTOR_TYPE_NONE,
{
    let mut descriptors: Vec<EventDataDescriptor<'a>> = Vec::new();
    descriptors.push(EventDataDescriptor::for_provider_metadata(provider_blob));
    descriptors.push(EventDataDescriptor::for_event_metadata(event_blob));
    let mut i: usize = 0;
    while i < slots.len()
        invariant
            i <= slots@.len(),
            descriptors@.len() == 2 + i,
            descriptors@[0].bytes() == provider_blob@,
            descriptors@[0].spec_kind() == EVENT_DATA_DESCRIPTOR_TYPE_PROVIDER_METADATA,
            descriptors@[1].bytes() == event_blob@,
            descriptors@[1].spec_kind() == EVENT_DATA_DESCRIPTOR_TYPE_EVENT_METADATA,
            forall|k: int|
                0 <= k < i ==> (#[trigger] descriptors@[2 + k]).bytes() == slots@[k]@
                    && descriptors@[2 + k].spec_kind() == EVENT_DATA_DESCRIPTOR_TYPE_NONE,
        decreases slots@.len() - i,
    {
        descriptors.push(EventDataDescriptor::for_bytes(slots[i].as_slice()));
        i = i + 1;
    }
    descriptors
}

/// What a call of the event at a position of a provider hands to the
/// backend with the given slots: the blob of the provider, the blob of the
/// event, and then the slots, in their order, each with its kind.
pub open spec fn event_record(model: ProviderSpec, index: int, slots: Seq<Seq<u8>>) -> Seq<
    (u32, Seq<u8>),
> {
    seq![
        (EVENT_DATA_DESCRIPTOR_TYPE_PROVIDER_METADATA, provider_metadata(model.name)),
        (
            EVENT_DATA_DESCRIPTOR_TYPE_EVENT_METADATA,
            event_metadata(model.events[index], usize::BITS as int),
        ),
    ] + Seq::new(slots.len(), |i: int| (EVENT_DATA_DESCRIPTOR_TYPE_NONE, slots[i]))
}

/// Whether the blobs of a provider and of each of its events fit the length
/// that a blob can have.
pub open spec fn blobs_fit(model: ProviderSpec) -> bool {
    &&& provider_metadata_len(model.name) <= MAX_METADATA_LEN
    &&& forall|i: int|
        0 <= i < model.events.len() ==> event_metadata_len(#[trigger] model.events[i])
            <= MAX_METADATA_LEN
}

/// What a backend is told when a provider is registered with it.
#[derive(Debug)]
pub struct ProviderRegistration {
    /// The identifier of the provider.
    pub guid: GUID,
    /// The blob of the provider.
    pub provider_metadata: Vec<u8>,
    /// The traits of the provider, where it belongs to a provider group and
    /// its name is short enough for them.
    pub provider_traits: Option<Vec<u8>>,
}

/// A provider at run time.
pub struct EventProvider<P: Provider> {
    provider: Option<P>,
    model: ProviderModel,
    provider_blob: Vec<u8>,
    event_blobs: Vec<Vec<u8>>,
}

impl<P: Provider> EventProvider<P> {
    /// The blobs are those of the provider and of its events.
    #[verifier::type_invariant]
    closed spec fn well_formed(&self) -> bool {
        &&& self.provider_blob@ == provider_metadata(self.model@.name)
        &&& self.event_blobs@.len() == self.model.events@.len()
        &&& forall|i: int|
            0 <= i < self.event_blobs@.len() ==> (#[trigger] self.event_blobs@[i])@
                == event_metadata(self.model.events@[i]@, usize::BITS as int)
    }

    /// The validated provider.
    pub closed spec fn spec_model(&self) -> ProviderSpec {
        self.model@
    }

    /// The backend of the provider, if it has one.
    pub closed spec fn backend(&self) -> Option<P> {
        self.provider
    }

    /// Whether the provider has a backend.
    pub open spec fn has_backend(&self) -> bool {
        self.backend() is Some
    }

    /// The descriptor with which the backend is asked about the event at a
    /// position, and with which the event is written: that of the event, at
    /// its own level or at the level given in its place.
    pub open spec fn descriptor_at(&self, index: int, level: Option<Level>) -> EventDescriptor {
        descriptor_of(self.spec_model().events[index], level)
    }

    /// Builds the provider at run time from the validated provider and the
    /// backend, if there is one. There is no provider at run time where a
    /// blob would be too long.
    pub fn new(model: ProviderModel, provider: Option<P>) -> (built: Option<EventProvider<P>>)
        ensures
            built is Some <==> blobs_fit(model@),
            built matches Some(p) ==> p.spec_model() == model@ && p.backend() == provider,
    {
        let provider_blob = match create_provider_metadata(model.name.as_str()) {
            Some(blob) => blob,
            None => {
                return None;
            },
        };
        let mut event_blobs: Vec<Vec<u8>> = Vec::new();
        let mut i: usize = 0;
        while i < model.events.len()
            invariant
                i <= model.events@.len(),
                event_blobs@.len() == i,
                forall|k: int|
                    0 <= k < i ==> (#[trigger] event_blobs@[k])@ == event_metadata(
                        model.events@[k]@,
                        usize::BITS as int,
                    ),
                forall|k: int|
                    0 <= k < i ==> event_metadata_len(#[trigger] model@.events[k])
                        <= MAX_METADATA_LEN,
            decreases model.events@.len() - i,
        {
            assert(model@.events[i as int] == model.events@[i as int]@);
            match create_event_metadata(&model.events[i]) {
                Some(blob) => {
                    event_blobs.push(blob);
                },
                None => {
                    return None;
                },
            }
            i = i + 1;
        }
        Some(EventProvider { provider, model, provider_blob, event_blobs })
    }

    /// Builds the provider at run time from the validated provider and the
    /// outcome of registering it with a backend. Where the registration has
    /// failed the provider has no backend, and its events are dropped.
    pub fn from_registration(model: ProviderModel, registered: Result<P, Error>) -> (built: Option<
        EventProvider<P>,
    >)
        ensures
            built is Some <==> blobs_fit(model@),
            built matches Some(p) ==> p.spec_model() == model@ && p.backend() == match registered {
                Ok(backend) => Some(backend),
                Err(_) => None,
            },
    {
        let provider = match registered {
            Ok(p) => Some(p),
            Err(_) => None,
        };
        EventProvider::new(model, provider)
    }

    /// Builds a provider at run time that has no backend.
    pub fn null(model: ProviderModel) -> (built: Option<EventProvider<P>>)
        ensures
            built is Some <==> blobs_fit(model@),
            built matches Some(p) ==> p.spec_model() == model@ && !p.has_backend(),
    {
        EventProvider::new(model, None)
    }

    /// The validated provider.
    pub fn model(&self) -> (model: &ProviderModel)
        ensures
            model@ == self.spec_model(),
    {
        &self.model
    }

    /// The blob of the provider.
    pub fn provider_metadata(&self) -> (blob: &[u8])
        ensures
            blob@ == provider_metadata(self.spec_model().name),
    {
        proof {
            use_type_invariant(self);
        }
        self.provider_blob.as_slice()
    }

    /// The blob of the event at a position, if there is such an event.
    pub fn event_metadata(&self, index: usize) -> (blob: Option<&[u8]>)
        ensures
            blob is Some <==> index < self.spec_model().events.len(),
            blob matches Some(b) ==> b@ == event_metadata(
                self.spec_model().events[index as int],
                usize::BITS as int,
            ),
    {
        proof {
            use_type_invariant(self);
        }
        if index < self.event_blobs.len() {
            assert(self.model@.events[index as int] == self.model.events@[index as int]@);
            Some(self.event_blobs[index].as_slice())
        } else {
            None
        }
    }

    /// What a backend is told when the provider is registered with it.
    pub fn registration(&self) -> (r: ProviderRegistration)
        ensures
            r.guid == self.spec_model().guid,
            r.provider_metadata@ == provider_metadata(self.spec_model().name),
            match self.spec_model().provider_group_guid {
                Some(group) => if provider_traits_len(self.spec_model().name)
                    <= MAX_METADATA_LEN {
                    r.provider_traits matches Some(t) && t@ == provider_traits(
                        self.spec_model().name,
                        group,
                    )
                } else {
                    r.provider_traits is None
                },
                None => r.provider_traits is None,
            },
    {
        proof {
            use_type_invariant(self);
        }
        let provider_traits = match &self.model.provider_group_guid {
            Some(group) => create_provider_traits(self.model.name.as_str(), group),
            None => None,
        };
        ProviderRegistration {
            guid: self.model.guid.clone(),
            provider_metadata: self.provider_blob.clone(),
            provider_traits,
        }
    }

    /// Checks whether the event at a position is enabled, at its own level
    /// or at the level given in its place. An event that does not exist is
    /// not enabled, and neither is any event of a provider without a backend.
    /// For any other event the answer is the one that the backend gives when
    /// it is asked with the descriptor of the event.
    pub fn is_event_enabled(&self, index: usize, level: Option<Level>) -> (enabled: bool)
        ensures
            index >= self.spec_model().events.len() ==> !enabled,
            index < self.spec_model().events.len() ==> self.backend().answers_event_enabled(
                self.descriptor_at(index as int, level),
                enabled,
            ),
            !self.has_backend() ==> !enabled,
    {
        if index >= self.model.events.len() {
            return false;
        }
        let event = &self.model.events[index];
        assert(self.model@.events[index as int] == event@);
        let descriptor = event_descriptor(event, level);
        self.provider.is_event_enabled(&descriptor)
    }

    /// The descriptors that a call of the event at a position hands to the
    /// backend with the given slots: the blob of the provider, the blob of
    /// the event, and then the slots, in their order. There are none where
    /// there is no such event.
    pub fn event_data<'a>(&'a self, index: usize, slots: &'a Vec<Vec<u8>>) -> (data: Option<
        Vec<EventDataDescriptor<'a>>,
    >)
        ensures
            data is Some <==> index < self.spec_model().events.len(),
            data matches Some(descriptors) ==> described(descriptors@) == event_record(
                self.spec_model(),
                index as int,
                slots_view(slots@),
            ),
    {
        proof {
            use_type_invariant(self);
        }
        if index >= self.model.events.len() {
            return None;
        }
        assert(self.model@.events[index as int] == self.model.events@[index as int]@);
        let descriptors = event_descriptors(
            self.provider_blob.as_slice(),
            self.event_blobs[index].as_slice(),
            slots,
        );
        proof {
            let record = event_record(self.spec_model(), index as int, slots_view(slots@));
            assert(described(descriptors@).len() == record.len());
            assert forall|i: int| 0 <= i < record.len() implies described(descriptors@)[i]
                == record[i] by {
                if i >= 2 {
                    assert(descriptors@[2 + (i - 2)].bytes() == slots@[i - 2]@);
                }
            }
            assert(described(descriptors@) =~= record);
        }
        Some(descriptors)
    }

    /// Reports the event at a position with the given values of its fields.
    ///
    /// The backend is asked whether the event is enabled, at the level that
    /// the options give or else at its own. Where it is not, nothing else
    /// happens: the values are not looked at. Where it is, the values are
    /// serialised as `event_payload` gives them, and handed to the backend
    /// as `event_data` lays them out, behind the blobs of the provider and of
    /// the event: the backend takes the event with the options of the call
    /// and the descriptor that it was asked with.
    pub fn write_event(
        &self,
        index: usize,
        options: Option<&EventOptions>,
        values: &Vec<ParamValue>,
    ) -> (outcome: WriteOutcome)
        ensures
            index >= self.spec_model().events.len() ==> outcome == WriteOutcome::Rejected,
            index < self.spec_model().events.len() && !self.has_backend() ==> outcome
                == WriteOutcome::Disabled,
            index < self.spec_model().events.len() ==> self.backend().answers_event_enabled(
                self.descriptor_at(index as int, level_override(options)),
                outcome != WriteOutcome::Disabled,
            ),
            index < self.spec_model().events.len() && outcome == WriteOutcome::Written
                ==> event_slots(
                self.spec_model().events[index as int].params,
                values_view(values@),
                usize::BITS as int,
            ) is Some,
            index < self.spec_model().events.len() && outcome == WriteOutcome::Rejected
                ==> event_slots(
                self.spec_model().events[index as int].params,
                values_view(values@),
                usize::BITS as int,
            ) is None,
            index < self.spec_model().events.len() && outcome == WriteOutcome::Written
                ==> self.backend().takes(
                options,
                self.descriptor_at(index as int, level_override(options)),
                event_record(
                    self.spec_model(),
                    index as int,
                    event_slots(
                        self.spec_model().events[index as int].params,
                        values_view(values@),
                        usize::BITS as int,
                    )->0,
                ),
            ),
    {
        proof {
            use_type_invariant(self);
        }
        if index >= self.model.events.len() {
            return WriteOutcome::Rejected;
        }
        let event = &self.model.events[index];
        assert(self.model@.events[index as int] == event@);
        let descriptor = event_descriptor(event, options_level(options));
        let enabled = self.provider.is_event_enabled(&descriptor);
        match event_payload(enabled, event, values) {
            Some(slots) => {
                match self.event_data(index, &slots) {
                    Some(descriptors) => {
                        self.provider.write(options, &descriptor, descriptors.as_slice());
                    },
                    None => {},
                }
                WriteOutcome::Written
            },
            None => {
                if enabled {
                    WriteOutcome::Rejected
                } else {
                    WriteOutcome::Disabled
                }
            },
        }
    }
}

} // verus!
