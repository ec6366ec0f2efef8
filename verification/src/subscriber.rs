//! Reporting the events and spans of a structured tracing framework as
//! events that describe themselves: the metadata of each event is built when
//! the event is reported, from the names and values that were recorded.

use crate::data_descriptor::{
    described,
    EventDataDescriptor, EVENT_DATA_DESCRIPTOR_TYPE_EVENT_METADATA,
    EVENT_DATA_DESCRIPTOR_TYPE_NONE,
};
use crate::encoding::{
    le_bytes, put_i64_le, put_slice, put_u16_le, put_u64_le, put_u8, twos_complement_64,
};
use crate::guid::GUID;
use crate::metadata::{
    InFlag, Level, OutFlag, LEVEL_ERROR, LEVEL_INFO, LEVEL_VERBOSE, LEVEL_WARN,
    MICROSOFT_KEYWORD_CRITICAL_DATA, MICROSOFT_KEYWORD_MEASURES, MICROSOFT_KEYWORD_TELEMETRY,
};
use crate::provider::{new_activity_id, Error, EventDescriptor, EventOptions, Provider};
use crate::surface::TRACELOGGING_CHANNEL;
use crate::text::{copy_str, str_eq};
use vstd::prelude::*;
use vstd::utf8::encode_utf8;

verus! {

/// The operation code of an event that stands alone.
pub const WINEVENT_OPCODE_INFO: u8 = 0;

/// The operation code of the event that starts a span.
pub const WINEVENT_OPCODE_START: u8 = 1;

/// The operation code of the event that ends a span.
pub const WINEVENT_OPCODE_STOP: u8 = 2;

/// The keywords that pass where telemetry events are switched off.
pub const NO_TELEMETRY_MASK: u64 = 0xffff_1fff_ffff_ffff;

/// The type tag of a string that ends in a zero byte, followed by a display tag.
pub const TAG_CHAINED_STRING: u8 = 0x82;

/// The type tag of a counted string, followed by a display tag.
pub const TAG_CHAINED_COUNTED_STRING: u8 = 0x97;

/// The type tag of an unsigned number of 64 bits, followed by a display tag.
pub const TAG_CHAINED_UINT64: u8 = 0x8a;

/// The type tag of an unsigned number of 8 bits, followed by a display tag.
pub const TAG_CHAINED_UINT8: u8 = 0x84;

/// The levels of the events and spans of the tracing framework.
#[derive(Copy, Clone, PartialEq, Eq, Structural, Hash, Debug)]
pub enum TraceLevel {
    /// Very serious errors.
    Error,
    /// Hazardous situations.
    Warn,
    /// Useful information.
    Info,
    /// Lower priority information.
    Debug,
    /// Very low priority, often extremely verbose, information.
    Trace,
}

/// The event level at which events of a level are reported. There is one
/// level below informational, so the two lowest levels share it.
pub open spec fn trace_level_of(level: TraceLevel) -> Level {
    match level {
        TraceLevel::Error => Level(LEVEL_ERROR),
        TraceLevel::Warn => Level(LEVEL_WARN),
        TraceLevel::Info => Level(LEVEL_INFO),
        TraceLevel::Debug => Level(LEVEL_VERBOSE),
        TraceLevel::Trace => Level(LEVEL_VERBOSE),
    }
}

/// The keywords of events of a level before they are filtered: the keyword
/// that tells the lowest level apart, for that level, and none for the others.
pub open spec fn trace_keyword_of(level: TraceLevel, trace_keyword: u64) -> u64 {
    match level {
        TraceLevel::Trace => trace_keyword,
        _ => 0,
    }
}

/// The identifier of the activity that a span is.
#[derive(Clone, Debug)]
pub struct ActivityId(pub GUID);

impl Default for ActivityId {
    fn default() -> (id: ActivityId)
        ensures
            id.0.is_nil_spec(),
    {
        ActivityId(GUID::default())
    }
}

impl ActivityId {
    /// Makes the identifier of a new activity. Only a tracing backend can
    /// make one, so this fails.
    pub fn new() -> (r: Result<ActivityId, Error>)
        ensures
            r is Err,
            r->Err_0 == Error::NotSupported,
    {
        match new_activity_id() {
            Ok(g) => Ok(ActivityId(g)),
            Err(e) => Err(e),
        }
    }

    /// The identifier of the activity of the current thread. Only a tracing
    /// backend knows it, so this fails.
    pub fn from_current_thread() -> (r: Result<ActivityId, Error>)
        ensures
            r is Err,
            r->Err_0 == Error::NotSupported,
    {
        Err(Error::NotSupported)
    }
}

/// The metadata and the data of the fields that were recorded for one event.
#[derive(Debug)]
pub struct EventData {
    /// The description of the fields: for each, its name, a zero byte and its tags.
    pub metadata: Vec<u8>,
    /// The values of the fields, one behind the other.
    pub data: Vec<u8>,
    /// Whether fields that carry what a log record was made from are left out.
    pub skip_log_fields: bool,
}

/// The metadata and the data of recorded fields as plain values.
pub struct EventDataSpec {
    /// The description of the fields.
    pub metadata: Seq<u8>,
    /// The values of the fields.
    pub data: Seq<u8>,
    /// Whether fields that carry what a log record was made from are left out.
    pub skip_log_fields: bool,
}

impl View for EventData {
    type V = EventDataSpec;

    open spec fn view(&self) -> EventDataSpec {
        EventDataSpec {
            metadata: self.metadata@,
            data: self.data@,
            skip_log_fields: self.skip_log_fields,
        }
    }
}

/// Whether a name starts with `log.`.
pub open spec fn has_log_prefix(name: Seq<u8>) -> bool {
    name.len() >= 4 && name[0] == 0x6c && name[1] == 0x6f && name[2] == 0x67 && name[3] == 0x2e
}

/// Whether a field is left out: the message, which is the name of the event,
/// and what a log record was made from, where that is left out.
pub open spec fn field_is_skipped(name: Seq<char>, skip_log_fields: bool) -> bool {
    name == "message"@ || (skip_log_fields && has_log_prefix(encode_utf8(name)))
}

/// The recorded fields after one more field with the given tags and bytes
/// of data. A field that is left out changes nothing.
pub open spec fn with_field(before: EventDataSpec, name: Seq<char>, tags: Seq<u8>, data: Seq<u8>) -> EventDataSpec {
    if field_is_skipped(name, before.skip_log_fields) {
        before
    } else {
        EventDataSpec {
            metadata: before.metadata + encode_utf8(name) + seq![0u8] + tags,
            data: before.data + data,
            skip_log_fields: before.skip_log_fields,
        }
    }
}

/// The recorded fields after one more text: a string that ends in a zero
/// byte, displayed as UTF-8.
pub open spec fn with_text(before: EventDataSpec, name: Seq<char>, text: Seq<u8>) -> EventDataSpec {
    with_field(before, name, seq![TAG_CHAINED_STRING, OutFlag::UTF8], text + seq![0u8])
}

/// The recorded fields after one more signed number.
pub open spec fn with_i64(before: EventDataSpec, name: Seq<char>, value: i64) -> EventDataSpec {
    with_field(before, name, seq![InFlag::INT64], le_bytes(twos_complement_64(value as int), 8))
}

/// The recorded fields after one more unsigned number, displayed in hexadecimal.
pub open spec fn with_u64(before: EventDataSpec, name: Seq<char>, value: u64) -> EventDataSpec {
    with_field(before, name, seq![TAG_CHAINED_UINT64, OutFlag::HEX], le_bytes(value as nat, 8))
}

/// The recorded fields after one more boolean: one byte, displayed as a boolean.
pub open spec fn with_bool(before: EventDataSpec, name: Seq<char>, value: bool) -> EventDataSpec {
    with_field(
        before,
        name,
        seq![TAG_CHAINED_UINT8, OutFlag::BOOLEAN],
        seq![
            if value {
                1u8
            } else {
                0u8
            },
        ],
    )
}

/// One field as it is handed to be recorded: its name, its tags, and the
/// bytes of its value.
pub struct RecordedField {
    /// The name of the field.
    pub name: Seq<char>,
    /// The type tag of the field, and its display tag where it has one.
    pub tags: Seq<u8>,
    /// The bytes of the value of the field.
    pub data: Seq<u8>,
}

/// The recorded fields after more fields, one after the other.
pub open spec fn with_fields(before: EventDataSpec, fields: Seq<RecordedField>) -> EventDataSpec
    decreases fields.len(),
{
    if fields.len() == 0 {
        before
    } else {
        with_field(
            with_fields(before, fields.drop_last()),
            fields.last().name,
            fields.last().tags,
            fields.last().data,
        )
    }
}

/// The descriptions of the fields of a sequence that are not left out, in
/// the order of the sequence: of each its name, a zero byte and its tags.
pub open spec fn descriptions_of(fields: Seq<RecordedField>, skip_log_fields: bool) -> Seq<u8>
    decreases fields.len(),
{
    if fields.len() == 0 {
        Seq::<u8>::empty()
    } else if field_is_skipped(fields.last().name, skip_log_fields) {
        descriptions_of(fields.drop_last(), skip_log_fields)
    } else {
        descriptions_of(fields.drop_last(), skip_log_fields) + encode_utf8(fields.last().name)
            + seq![0u8] + fields.last().tags
    }
}

/// The values of the fields of a sequence that are not left out, in the
/// order of the sequence.
pub open spec fn values_of(fields: Seq<RecordedField>, skip_log_fields: bool) -> Seq<u8>
    decreases fields.len(),
{
    if fields.len() == 0 {
        Seq::<u8>::empty()
    } else if field_is_skipped(fields.last().name, skip_log_fields) {
        values_of(fields.drop_last(), skip_log_fields)
    } else {
        values_of(fields.drop_last(), skip_log_fields) + fields.last().data
    }
}

/// Recorded fields keep their order: the descriptions of the fields stand in
/// the metadata in the order in which the fields were recorded, and their
/// values stand in the data in the same order, so the Nth field that the
/// metadata names is the Nth whose value the data holds. A field that is
/// left out is left out of both.
pub proof fn recorded_fields_keep_their_order(before: EventDataSpec, fields: Seq<RecordedField>)
    ensures
        with_fields(before, fields).metadata == before.metadata + descriptions_of(
            fields,
            before.skip_log_fields,
        ),
        with_fields(before, fields).data == before.data + values_of(fields, before.skip_log_fields),
        with_fields(before, fields).skip_log_fields == before.skip_log_fields,
    decreases fields.len(),
{
    let skip = before.skip_log_fields;
    if fields.len() == 0 {
        assert(before.metadata + Seq::<u8>::empty() =~= before.metadata);
        assert(before.data + Seq::<u8>::empty() =~= before.data);
    } else {
        let earlier = fields.drop_last();
        let field = fields.last();
        recorded_fields_keep_their_order(before, earlier);
        if !field_is_skipped(field.name, skip) {
            assert(with_fields(before, fields).metadata =~= before.metadata + descriptions_of(
                fields,
                skip,
            ));
            assert(with_fields(before, fields).data =~= before.data + values_of(fields, skip));
        }
    }
}

/// The text of an error and of the errors that caused it, each cause behind
/// a colon and a space.
pub open spec fn error_chain(message: Seq<char>, sources: Seq<String>) -> Seq<u8>
    decreases sources.len(),
{
    if sources.len() == 0 {
        encode_utf8(message)
    } else {
        error_chain(message, sources.drop_last()) + seq![0x3au8, 0x20u8] + encode_utf8(
            sources.last()@,
        )
    }
}

impl EventData {
    /// No recorded fields.
    pub fn new(skip_log_fields: bool) -> (data: EventData)
        ensures
            data@ == (EventDataSpec {
                metadata: Seq::<u8>::empty(),
                data: Seq::<u8>::empty(),
                skip_log_fields,
            }),
    {
        EventData { metadata: Vec::new(), data: Vec::new(), skip_log_fields }
    }

    /// Writes the name of a field and a zero byte to the metadata, and says
    /// so; or leaves the field out, and says so.
    pub fn write_name(&mut self, name: &str) -> (written: bool)
        ensures
            written == !field_is_skipped(name@, old(self).skip_log_fields),
            final(self)@ == (EventDataSpec {
                metadata: if written {
                    old(self).metadata@ + encode_utf8(name@) + seq![0u8]
                } else {
                    old(self).metadata@
                },
                ..old(self)@
            }),
    {
        // Skip the message (used as the event name) as well as any metadata
        // of a log record (already consumed).
        let bytes = name.as_bytes();
        let log_field = self.skip_log_fields && bytes.len() >= 4 && bytes[0] == 0x6c && bytes[1]
            == 0x6f && bytes[2] == 0x67 && bytes[3] == 0x2e;
        if str_eq(name, "message") || log_field {
            return false;
        }
        put_slice(&mut self.metadata, bytes);
        put_u8(&mut self.metadata, 0);
        proof {
            assert(self.metadata@ =~= old(self).metadata@ + encode_utf8(name@) + seq![0u8]);
        }
        true
    }

    /// Records a field with the given tags and bytes of data.
    pub fn record_field(&mut self, name: &str, tags: &[u8], data: &[u8])
        ensures
            final(self)@ == with_field(old(self)@, name@, tags@, data@),
    {
        if self.write_name(name) {
            put_slice(&mut self.metadata, tags);
            put_slice(&mut self.data, data);
        }
    }

    /// Records a field that every event carries.
    pub fn record_global(&mut self, name: &str, value: &str)
        ensures
            final(self)@ == with_text(old(self)@, name@, encode_utf8(value@)),
    {
        self.record_str(name, value);
    }

    /// Records a field by its debug text.
    pub fn record_debug(&mut self, name: &str, debug_text: &str)
        ensures
            final(self)@ == with_text(old(self)@, name@, encode_utf8(debug_text@)),
    {
        self.record_str(name, debug_text);
    }

    /// Records a signed number.
    pub fn record_i64(&mut self, name: &str, value: i64)
        ensures
            final(self)@ == with_i64(old(self)@, name@, value),
    {
        if self.write_name(name) {
            put_u8(&mut self.metadata, InFlag::INT64);
            put_i64_le(&mut self.data, value);
            proof {
                assert(final(self)@.metadata =~= with_i64(old(self)@, name@, value).metadata);
            }
        }
    }

    /// Records an unsigned number.
    pub fn record_u64(&mut self, name: &str, value: u64)
        ensures
            final(self)@ == with_u64(old(self)@, name@, value),
    {
        if self.write_name(name) {
            put_u8(&mut self.metadata, TAG_CHAINED_UINT64);
            put_u8(&mut self.metadata, OutFlag::HEX);
            put_u64_le(&mut self.data, value);
            proof {
                assert(final(self)@.metadata =~= with_u64(old(self)@, name@, value).metadata);
            }
        }
    }

    /// Records a boolean.
    pub fn record_bool(&mut self, name: &str, value: bool)
        ensures
            final(self)@ == with_bool(old(self)@, name@, value),
    {
        if self.write_name(name) {
            put_u8(&mut self.metadata, TAG_CHAINED_UINT8);
            put_u8(&mut self.metadata, OutFlag::BOOLEAN);
            put_u8(
                &mut self.data,
                if value {
                    1
                } else {
                    0
                },
            );
            proof {
                assert(final(self)@.metadata =~= with_bool(old(self)@, name@, value).metadata);
                assert(final(self)@.data =~= with_bool(old(self)@, name@, value).data);
            }
        }
    }

    /// Records a text.
    pub fn record_str(&mut self, name: &str, value: &str)
        ensures
            final(self)@ == with_text(old(self)@, name@, encode_utf8(value@)),
    {
        if self.write_name(name) {
            put_u8(&mut self.metadata, TAG_CHAINED_STRING);
            put_u8(&mut self.metadata, OutFlag::UTF8);
            put_slice(&mut self.data, value.as_bytes());
            put_u8(&mut self.data, 0);
            proof {
                let after = with_text(old(self)@, name@, encode_utf8(value@));
                assert(final(self)@.metadata =~= after.metadata);
                assert(final(self)@.data =~= after.data);
            }
        }
    }

    /// Records an error by its text and the texts of the errors that caused it.
    pub fn record_error(&mut self, name: &str, message: &str, sources: &Vec<String>)
        ensures
            final(self)@ == with_text(old(self)@, name@, error_chain(message@, sources@)),
    {
        if self.write_name(name) {
            put_u8(&mut self.metadata, TAG_CHAINED_STRING);
            put_u8(&mut self.metadata, OutFlag::UTF8);
            let ghost start = self.data@;
            put_slice(&mut self.data, message.as_bytes());
            let mut i: usize = 0;
            proof {
                assert(sources@.subrange(0, 0) =~= Seq::<String>::empty());
            }
            while i < sources.len()
                invariant
                    i <= sources@.len(),
                    self.data@ == start + error_chain(message@, sources@.subrange(0, i as int)),
                    self.metadata@ == old(self).metadata@ + encode_utf8(name@) + seq![0u8] + seq![
                        TAG_CHAINED_STRING,
                        OutFlag::UTF8,
                    ],
                    self.skip_log_fields == old(self).skip_log_fields,
                decreases sources@.len() - i,
            {
                put_u8(&mut self.data, 0x3a);
                put_u8(&mut self.data, 0x20);
                put_slice(&mut self.data, sources[i].as_str().as_bytes());
                proof {
                    let longer = sources@.subrange(0, i as int + 1);
                    assert(longer.drop_last() =~= sources@.subrange(0, i as int));
                    assert(longer.last() == sources@[i as int]);
                    assert(self.data@ =~= start + error_chain(message@, longer));
                }
                i = i + 1;
            }
            put_u8(&mut self.data, 0);
            proof {
                assert(sources@.subrange(0, sources@.len() as int) =~= sources@);
                let after = with_text(old(self)@, name@, error_chain(message@, sources@));
                assert(final(self)@.metadata =~= after.metadata);
                assert(final(self)@.data =~= after.data);
            }
        }
    }
}

/// A value that is recorded for a span after the span has started.
#[derive(Debug)]
pub enum DeferredValue {
    /// An unsigned number.
    Unsigned(u64),
    /// A signed number.
    Signed(i64),
    /// A boolean.
    Boolean(bool),
    /// A text.
    String(String),
}

/// A field that is recorded for a span after the span has started.
#[derive(Debug)]
pub struct DeferredField {
    /// The name of the field.
    pub name: String,
    /// The value of the field.
    pub value: DeferredValue,
}

/// Collection of deferred values to log when the span is closed.
#[derive(Debug)]
pub struct DeferredValues {
    /// The fields, in the order in which they were first recorded.
    pub values: Vec<DeferredField>,
}

impl Default for DeferredValues {
    fn default() -> (values: DeferredValues)
        ensures
            values.values@.len() == 0,
    {
        DeferredValues { values: Vec::new() }
    }
}

/// Whether the field at a position is the first with the given name.
pub open spec fn is_first_named(values: Seq<DeferredField>, name: Seq<char>, i: int) -> bool {
    &&& 0 <= i < values.len()
    &&& values[i].name@ == name
    &&& forall|k: int| 0 <= k < i ==> (#[trigger] values[k]).name@ != name
}

/// Whether a list of fields is another with the value of the field at a
/// position replaced.
pub open spec fn replaced_at(
    before: Seq<DeferredField>,
    after: Seq<DeferredField>,
    name: Seq<char>,
    value: DeferredValue,
    i: int,
) -> bool {
    &&& is_first_named(before, name, i)
    &&& after.len() == before.len()
    &&& after[i].name@ == name
    &&& after[i].value == value
    &&& forall|k: int| 0 <= k < before.len() && k != i ==> after[k] == before[k]
}

/// Whether a list of fields is another after the value of a field was set:
/// in place of the value of the first field of that name, or else in a new
/// field behind the others.
pub open spec fn updated(
    before: Seq<DeferredField>,
    after: Seq<DeferredField>,
    name: Seq<char>,
    value: DeferredValue,
) -> bool {
    if exists|i: int| is_first_named(before, name, i) {
        exists|i: int| replaced_at(before, after, name, value, i)
    } else {
        &&& after.len() == before.len() + 1
        &&& after.last().name@ == name
        &&& after.last().value == value
        &&& after.drop_last() == before
    }
}

/// The recorded fields after one more deferred field.
pub open spec fn with_deferred(before: EventDataSpec, field: DeferredField) -> EventDataSpec {
    match field.value {
        DeferredValue::Unsigned(v) => with_u64(before, field.name@, v),
        DeferredValue::Signed(v) => with_i64(before, field.name@, v),
        DeferredValue::Boolean(v) => with_bool(before, field.name@, v),
        DeferredValue::String(v) => with_text(before, field.name@, encode_utf8(v@)),
    }
}

/// The recorded fields after all the deferred fields, in their order.
pub open spec fn with_all_deferred(before: EventDataSpec, fields: Seq<DeferredField>) -> EventDataSpec
    decreases fields.len(),
{
    if fields.len() == 0 {
        before
    } else {
        with_deferred(with_all_deferred(before, fields.drop_last()), fields.last())
    }
}

impl DeferredValues {
    /// Sets the value of a field: in place of the value of the first field of
    /// that name, or else in a new field behind the others.
    pub fn update(&mut self, field: &str, value: DeferredValue)
        ensures
            updated(old(self).values@, final(self).values@, field@, value),
    {
        let mut i: usize = 0;
        while i < self.values.len()
            invariant
                i <= self.values@.len(),
                self.values@ == old(self).values@,
                forall|k: int| 0 <= k < i ==> (#[trigger] self.values@[k]).name@ != field@,
            decreases self.values@.len() - i,
        {
            if str_eq(self.values[i].name.as_str(), field) {
                proof {
                    assert(is_first_named(old(self).values@, field@, i as int));
                }
                self.values.set(i, DeferredField { name: copy_str(field), value });
                proof {
                    assert(replaced_at(old(self).values@, self.values@, field@, value, i as int));
                }
                return ;
            }
            i = i + 1;
        }
        proof {
            assert(!(exists|j: int| is_first_named(old(self).values@, field@, j)));
        }
        self.values.push(DeferredField { name: copy_str(field), value });
        proof {
            assert(self.values@.drop_last() =~= old(self).values@);
        }
    }

    /// Records the fields, in their order.
    pub fn record(&self, visit: &mut EventData)
        ensures
            final(visit)@ == with_all_deferred(old(visit)@, self.values@),
    {
        let mut i: usize = 0;
        proof {
            assert(self.values@.subrange(0, 0) =~= Seq::<DeferredField>::empty());
        }
        while i < self.values.len()
            invariant
                i <= self.values@.len(),
                visit@ == with_all_deferred(old(visit)@, self.values@.subrange(0, i as int)),
            decreases self.values@.len() - i,
        {
            let field = &self.values[i];
            proof {
                let longer = self.values@.subrange(0, i as int + 1);
                assert(longer.drop_last() =~= self.values@.subrange(0, i as int));
                assert(longer.last() == self.values@[i as int]);
            }
            match &field.value {
                DeferredValue::Unsigned(v) => visit.record_u64(field.name.as_str(), *v),
                DeferredValue::Signed(v) => visit.record_i64(field.name.as_str(), *v),
                DeferredValue::Boolean(v) => visit.record_bool(field.name.as_str(), *v),
                DeferredValue::String(v) => visit.record_str(field.name.as_str(), v.as_str()),
            }
            i = i + 1;
        }
        proof {
            assert(self.values@.subrange(0, self.values@.len() as int) =~= self.values@);
        }
    }
}

/// The bytes of the name `target` and the zero byte behind it.
pub open spec fn target_name() -> Seq<u8> {
    seq![0x74u8, 0x61u8, 0x72u8, 0x67u8, 0x65u8, 0x74u8, 0u8]
}

/// What the metadata of a traced event holds behind its length: a byte of
/// extension flags, the name of the event and a zero byte, the description
/// of the target where the event carries it, then the descriptions of the
/// fields that every event carries and of the fields that were recorded.
pub open spec fn traced_metadata_body(
    write_target: bool,
    name: Seq<u8>,
    global: Seq<u8>,
    recorded: Seq<u8>,
) -> Seq<u8> {
    seq![0u8] + name + seq![0u8] + (if write_target {
        target_name() + seq![TAG_CHAINED_COUNTED_STRING, OutFlag::UTF8]
    } else {
        Seq::<u8>::empty()
    }) + global + recorded
}

/// The metadata of a traced event: its length, cut to sixteen bits, in two
/// bytes, and what it holds.
pub open spec fn traced_metadata(
    write_target: bool,
    name: Seq<u8>,
    global: Seq<u8>,
    recorded: Seq<u8>,
) -> Seq<u8> {
    let body = traced_metadata_body(write_target, name, global, recorded);
    le_bytes(((2 + body.len()) % 0x1_0000) as nat, 2) + body
}

/// The slots that a traced event hands to the backend behind its metadata:
/// the length of the target, cut to sixteen bits, and the target, where the
/// event carries it; and the values of the fields.
pub open spec fn traced_slots(write_target: bool, target: Seq<u8>, data: Seq<u8>) -> Seq<Seq<u8>> {
    if write_target {
        seq![le_bytes((target.len() % 0x1_0000) as nat, 2), target, data]
    } else {
        seq![data]
    }
}

/// What a traced event hands to the backend: its metadata, marked as event
/// metadata, and then its slots, in their order.
pub open spec fn traced_record(metadata: Seq<u8>, slots: Seq<Seq<u8>>) -> Seq<(u32, Seq<u8>)> {
    seq![(EVENT_DATA_DESCRIPTOR_TYPE_EVENT_METADATA, metadata)] + Seq::new(
        slots.len(),
        |i: int| (EVENT_DATA_DESCRIPTOR_TYPE_NONE, slots[i]),
    )
}

/// Builds the metadata of a traced event.
pub fn build_traced_metadata(write_target: bool, name: &[u8], global: &[u8], recorded: &[u8]) -> (metadata:
    Vec<u8>)
    ensures
        metadata@ == traced_metadata(write_target, name@, global@, recorded@),
{
    let mut body: Vec<u8> = Vec::new();
    put_u8(&mut body, 0);
    put_slice(&mut body, name);
    put_u8(&mut body, 0);
    if write_target {
        let target: [u8; 7] = [0x74, 0x61, 0x72, 0x67, 0x65, 0x74, 0];
        assert(target@ =~= target_name());
        put_slice(&mut body, target.as_slice());
        put_u8(&mut body, TAG_CHAINED_COUNTED_STRING);
        put_u8(&mut body, OutFlag::UTF8);
    }
    put_slice(&mut body, global);
    put_slice(&mut body, recorded);
    proof {
        assert(body@ =~= traced_metadata_body(write_target, name@, global@, recorded@));
    }
    let len: u16 = ((body.len() as u128 + 2) % 0x1_0000) as u16;
    let mut metadata: Vec<u8> = Vec::new();
    put_u16_le(&mut metadata, len);
    put_slice(&mut metadata, body.as_slice());
    metadata
}

/// What a traced event hands to the backend: its metadata, and behind it the
/// slots that hold its values.
pub struct TracedEvent {
    /// The metadata of the event.
    pub metadata: Vec<u8>,
    /// The slots of the event, in their order.
    pub slots: Vec<Vec<u8>>,
}

impl TracedEvent {
    /// The bytes of the slots, in their order.
    pub open spec fn slot_bytes(&self) -> Seq<Seq<u8>> {
        Seq::new(self.slots@.len(), |i: int| self.slots@[i]@)
    }

    /// The descriptors that the backend is given: one of the metadata, marked
    /// as event metadata, then one of each slot, in their order.
    pub fn descriptors(&self) -> (descriptors: Vec<EventDataDescriptor<'_>>)
        ensures
            described(descriptors@) == traced_record(self.metadata@, self.slot_bytes()),
    {
        let mut descriptors: Vec<EventDataDescriptor<'_>> = Vec::new();
        descriptors.push(EventDataDescriptor::for_event_metadata(self.metadata.as_slice()));
        let mut at: usize = 0;
        while at < self.slots.len()
            invariant
                at <= self.slots@.len(),
                descriptors@.len() == 1 + at,
                descriptors@[0].bytes() == self.metadata@,
                descriptors@[0].spec_kind() == EVENT_DATA_DESCRIPTOR_TYPE_EVENT_METADATA,
                forall|i: int|
                    1 <= i < descriptors@.len() ==> (#[trigger] descriptors@[i]).bytes()
                        == self.slot_bytes()[i - 1] && descriptors@[i].spec_kind()
                        == EVENT_DATA_DESCRIPTOR_TYPE_NONE,
            decreases self.slots@.len() - at,
        {
            descriptors.push(EventDataDescriptor::for_bytes(self.slots[at].as_slice()));
            at = at + 1;
        }
        proof {
            let record = traced_record(self.metadata@, self.slot_bytes());
            assert(described(descriptors@).len() == record.len());
            assert forall|i: int| 0 <= i < record.len() implies described(descriptors@)[i]
                == record[i] by {
                if i >= 1 {
                    assert(descriptors@[i].bytes() == self.slot_bytes()[i - 1]);
                }
            }
            assert(described(descriptors@) =~= record);
        }
        descriptors
    }
}

/// The identifier of an activity, where there is one.
pub open spec fn activity_guid(id: Option<&ActivityId>) -> Option<GUID> {
    match id {
        Some(id) => Some(id.0),
        None => None,
    }
}

/// The options with which a traced event is written: the level of the event
/// stays its own, and the event carries the identifiers of its activity and
/// of a related one, where it has them.
pub open spec fn traced_options(activity: Option<&ActivityId>, related: Option<&ActivityId>) -> EventOptions {
    EventOptions {
        level: None,
        activity_id: activity_guid(activity),
        related_activity_id: activity_guid(related),
    }
}

/// Builds the options with which a traced event is written.
pub fn build_traced_options(activity: Option<&ActivityId>, related: Option<&ActivityId>) -> (options:
    EventOptions)
    ensures
        options == traced_options(activity, related),
{
    EventOptions {
        level: None,
        activity_id: match activity {
            Some(id) => Some(id.0.clone()),
            None => None,
        },
        related_activity_id: match related {
            Some(id) => Some(id.0.clone()),
            None => None,
        },
    }
}

/// Reports the events and spans of a tracing framework through a backend.
pub struct TracelogSubscriber<P: Provider> {
    provider: P,
    keyword_mask: u64,
    global_fields: EventData,
    trace_keyword: u64,
    skip_log_fields: bool,
}

impl<P: Provider> TracelogSubscriber<P> {
    /// The keywords that pass the subscriber.
    pub closed spec fn spec_keyword_mask(&self) -> u64 {
        self.keyword_mask
    }

    /// The keyword of events at the lowest level.
    pub closed spec fn spec_trace_keyword(&self) -> u64 {
        self.trace_keyword
    }

    /// The fields that every event carries.
    pub closed spec fn spec_global_fields(&self) -> EventDataSpec {
        self.global_fields@
    }

    /// Whether the fields that carry what a log record was made from are
    /// left out of events.
    pub closed spec fn spec_skip_log_fields(&self) -> bool {
        self.skip_log_fields
    }

    /// The backend through which the subscriber reports.
    pub closed spec fn backend(&self) -> P {
        self.provider
    }

    /// The descriptor with which the backend is asked about a traced event,
    /// and with which the event is written: the event level of the level,
    /// the operation code, and of the keyword of the level what passes the
    /// subscriber.
    pub open spec fn descriptor_for(&self, opcode: u8, level: TraceLevel) -> EventDescriptor {
        EventDescriptor {
            id: 0,
            version: 0,
            channel: TRACELOGGING_CHANNEL,
            level: trace_level_of(level),
            opcode,
            task: 0,
            keyword: trace_keyword_of(level, self.spec_trace_keyword()) & self.spec_keyword_mask(),
        }
    }

    /// The recorded fields of an event before any field is recorded.
    pub open spec fn no_fields(&self) -> EventDataSpec {
        EventDataSpec {
            metadata: Seq::<u8>::empty(),
            data: Seq::<u8>::empty(),
            skip_log_fields: self.spec_skip_log_fields(),
        }
    }

    /// What the backend is handed of a traced event: the metadata of the
    /// event, which names the fields that every event carries before those
    /// that were recorded; the length of the target and the target, where
    /// the event carries its target; and the values of the fields, in the
    /// order in which the metadata names them.
    pub open spec fn event_record(
        &self,
        write_target: bool,
        target: Seq<char>,
        name: Seq<u8>,
        recorded: EventDataSpec,
    ) -> Seq<(u32, Seq<u8>)> {
        traced_record(
            traced_metadata(
                write_target,
                name,
                self.spec_global_fields().metadata,
                recorded.metadata,
            ),
            traced_slots(
                write_target,
                encode_utf8(target),
                self.spec_global_fields().data + recorded.data,
            ),
        )
    }

    /// The fields of the event that ends a span: the values that were
    /// recorded for the span after it had started, in their order.
    pub open spec fn closing_fields(&self, values: Option<&DeferredValues>) -> EventDataSpec {
        match values {
            Some(deferred) => with_all_deferred(self.no_fields(), deferred.values@),
            None => self.no_fields(),
        }
    }

    /// Creates a new subscriber that reports through the given backend. All
    /// keywords pass, no field is carried by every event, and events at the
    /// lowest level have no keyword.
    pub fn new(provider: P) -> (subscriber: Self)
        ensures
            subscriber.backend() == provider,
            !subscriber.spec_skip_log_fields(),
            subscriber.spec_keyword_mask() == u64::MAX,
            subscriber.spec_trace_keyword() == 0,
            subscriber.spec_global_fields() == (EventDataSpec {
                metadata: Seq::<u8>::empty(),
                data: Seq::<u8>::empty(),
                skip_log_fields: false,
            }),
    {
        TracelogSubscriber {
            provider,
            keyword_mask: u64::MAX,
            global_fields: EventData::new(false),
            trace_keyword: 0,
            skip_log_fields: false,
        }
    }

    /// Controls whether the fields that carry what a log record was made
    /// from are left out of events. By default they are not.
    pub fn set_skip_log_fields(&mut self, skip: bool)
        ensures
            final(self).spec_skip_log_fields() == skip,
            final(self).backend() == old(self).backend(),
            final(self).spec_keyword_mask() == old(self).spec_keyword_mask(),
            final(self).spec_trace_keyword() == old(self).spec_trace_keyword(),
            final(self).spec_global_fields() == old(self).spec_global_fields(),
    {
        self.skip_log_fields = skip;
    }

    /// If some events are by default marked with telemetry keywords, this
    /// allows an opt out.
    pub fn enable_telemetry_events(&mut self, enabled: bool)
        ensures
            final(self).backend() == old(self).backend(),
            final(self).spec_skip_log_fields() == old(self).spec_skip_log_fields(),
            final(self).spec_keyword_mask() == if enabled {
                u64::MAX
            } else {
                NO_TELEMETRY_MASK
            },
            final(self).spec_trace_keyword() == old(self).spec_trace_keyword(),
            final(self).spec_global_fields() == old(self).spec_global_fields(),
    {
        self.keyword_mask = if enabled {
            u64::MAX
        } else {
            assert(!(0x0000_8000_0000_0000u64 | 0x0000_4000_0000_0000u64 | 0x0000_2000_0000_0000u64)
                == 0xffff_1fff_ffff_ffffu64) by (bit_vector);
            !(MICROSOFT_KEYWORD_CRITICAL_DATA | MICROSOFT_KEYWORD_MEASURES
                | MICROSOFT_KEYWORD_TELEMETRY)
        };
    }

    /// The keywords of a set that pass the subscriber.
    pub fn filter_keyword(&self, keyword: u64) -> (passing: u64)
        ensures
            passing == keyword & self.spec_keyword_mask(),
    {
        keyword & self.keyword_mask
    }

    /// Global fields are automatically included in all events emitted by
    /// this subscriber. This replaces them by the given names and values.
    pub fn set_global_fields(&mut self, fields: &[(&str, &str)])
        ensures
            final(self).backend() == old(self).backend(),
            final(self).spec_skip_log_fields() == old(self).spec_skip_log_fields(),
            final(self).spec_global_fields() == global_fields_of(fields@),
            final(self).spec_keyword_mask() == old(self).spec_keyword_mask(),
            final(self).spec_trace_keyword() == old(self).spec_trace_keyword(),
    {
        let mut global = EventData::new(false);
        let mut i: usize = 0;
        proof {
            assert(fields@.subrange(0, 0) =~= Seq::<(&str, &str)>::empty());
        }
        while i < fields.len()
            invariant
                i <= fields@.len(),
                global@ == global_fields_of(fields@.subrange(0, i as int)),
            decreases fields@.len() - i,
        {
            proof {
                let longer = fields@.subrange(0, i as int + 1);
                assert(longer.drop_last() =~= fields@.subrange(0, i as int));
                assert(longer.last() == fields@[i as int]);
            }
            let (name, value) = fields[i];
            global.record_global(name, value);
            i = i + 1;
        }
        proof {
            assert(fields@.subrange(0, fields@.len() as int) =~= fields@);
        }
        self.global_fields = global;
    }

    /// Sets the keyword to use for events logged at the lowest level.
    ///
    /// There is one event level below informational, so the two lowest
    /// levels are reported at the same event level. This method allows
    /// distinguishing between the two by assigning a specific keyword used
    /// only for events at the lowest level.
    ///
    /// By default, this is set to `0`, meaning no keyword is applied.
    pub fn set_trace_keyword(&mut self, keyword: u64)
        ensures
            final(self).backend() == old(self).backend(),
            final(self).spec_skip_log_fields() == old(self).spec_skip_log_fields(),
            final(self).spec_trace_keyword() == keyword,
            final(self).spec_keyword_mask() == old(self).spec_keyword_mask(),
            final(self).spec_global_fields() == old(self).spec_global_fields(),
    {
        self.trace_keyword = keyword;
    }

    /// The descriptor of a traced event of a level.
    pub fn event_descriptor(&self, opcode: u8, level: TraceLevel) -> (d: EventDescriptor)
        ensures
            d == self.descriptor_for(opcode, level),
    {
        let mut keyword: u64 = 0;
        let etw_level = match level {
            TraceLevel::Error => Level::error(),
            TraceLevel::Warn => Level::warn(),
            TraceLevel::Info => Level::info(),
            TraceLevel::Debug => Level::verbose(),
            TraceLevel::Trace => {
                keyword = self.trace_keyword;
                Level::verbose()
            },
        };
        EventDescriptor {
            id: 0,
            version: 0,
            // this value tells older decoders that the event describes itself
            channel: TRACELOGGING_CHANNEL,
            level: etw_level,
            opcode,
            task: 0,
            keyword: self.filter_keyword(keyword),
        }
    }

    /// Checks whether traced events of a level are enabled: the answer is
    /// the one that the backend gives when it is asked with the descriptor of
    /// such an event.
    pub fn is_enabled(&self, opcode: u8, level: TraceLevel) -> (enabled: bool)
        ensures
            self.backend().answers_event_enabled(self.descriptor_for(opcode, level), enabled),
    {
        let descriptor = self.event_descriptor(opcode, level);
        self.provider.is_event_enabled(&descriptor)
    }

    /// Builds everything that a traced event hands to the backend: its
    /// metadata; where the event carries its target, the length of the
    /// target and the target; and the values of its fields, those that every
    /// event carries before those that were recorded.
    pub fn build_event(&self, write_target: bool, target: &str, name: &[u8], recorded: &EventData) -> (built:
        TracedEvent)
        ensures
            built.metadata@ == traced_metadata(
                write_target,
                name@,
                self.spec_global_fields().metadata,
                recorded@.metadata,
            ),
            built.slot_bytes() == traced_slots(
                write_target,
                encode_utf8(target@),
                self.spec_global_fields().data + recorded@.data,
            ),
    {
        let metadata = build_traced_metadata(
            write_target,
            name,
            self.global_fields.metadata.as_slice(),
            recorded.metadata.as_slice(),
        );
        let mut slots: Vec<Vec<u8>> = Vec::new();
        if write_target {
            let target_bytes = target.as_bytes();
            let target_len: u16 = (target_bytes.len() as u64 % 0x1_0000) as u16;
            let mut target_len_slot: Vec<u8> = Vec::new();
            put_u16_le(&mut target_len_slot, target_len);
            let mut target_slot: Vec<u8> = Vec::new();
            put_slice(&mut target_slot, target_bytes);
            slots.push(target_len_slot);
            slots.push(target_slot);
        }
        let mut data: Vec<u8> = Vec::new();
        put_slice(&mut data, self.global_fields.data.as_slice());
        put_slice(&mut data, recorded.data.as_slice());
        slots.push(data);
        let built = TracedEvent { metadata, slots };
        proof {
            assert(built.slot_bytes() =~= traced_slots(
                write_target,
                encode_utf8(target@),
                self.spec_global_fields().data + recorded@.data,
            ));
        }
        built
    }

    /// Reports one traced event whose name and fields are at hand, and says
    /// whether it was handed to the backend. The backend is asked first
    /// whether events of the level are enabled; where they are not, nothing
    /// is built.
    pub fn write_recorded(
        &self,
        opcode: u8,
        options: &EventOptions,
        write_target: bool,
        level: TraceLevel,
        target: &str,
        name: &[u8],
        recorded: &EventData,
    ) -> (written: bool)
        ensures
            self.backend().answers_event_enabled(self.descriptor_for(opcode, level), written),
            written ==> self.backend().takes(
                Some(options),
                self.descriptor_for(opcode, level),
                self.event_record(write_target, target@, name@, recorded@),
            ),
    {
        let descriptor = self.event_descriptor(opcode, level);
        if !self.provider.is_event_enabled(&descriptor) {
            return false;
        }
        let built = self.build_event(write_target, target, name, recorded);
        let descriptors = built.descriptors();
        self.provider.write(Some(options), &descriptor, descriptors.as_slice());
        true
    }

    /// Reports one traced event, and says whether it was handed to the
    /// backend. The backend is asked first whether events of the level are
    /// enabled. Where they are not, nothing else happens: the name is not
    /// written and the fields are not recorded. Where they are, the first
    /// step writes the name of the event, the second records its fields, and
    /// what `build_event` makes of them is handed to the backend.
    pub fn write_event<N: FnOnce(&mut Vec<u8>), R: FnOnce(&mut EventData)>(
        &self,
        opcode: u8,
        options: &EventOptions,
        write_target: bool,
        level: TraceLevel,
        target: &str,
        write_name: N,
        record: R,
    ) -> (written: bool)
        requires
            forall|name: &mut Vec<u8>| call_requires(write_name, (name,)),
            forall|fields: &mut EventData| call_requires(record, (fields,)),
        ensures
            self.backend().answers_event_enabled(self.descriptor_for(opcode, level), written),
            written ==> exists|name: &mut Vec<u8>, fields: &mut EventData|
                #![trigger call_ensures(write_name, (name,), ()), call_ensures(record, (fields,), ())]
                {
                    &&& call_ensures(write_name, (name,), ())
                    &&& name@ == Seq::<u8>::empty()
                    &&& call_ensures(record, (fields,), ())
                    &&& fields@ == self.no_fields()
                    &&& self.backend().takes(
                        Some(options),
                        self.descriptor_for(opcode, level),
                        self.event_record(write_target, target@, final(name)@, final(fields)@),
                    )
                },
    {
        let descriptor = self.event_descriptor(opcode, level);
        if !self.provider.is_event_enabled(&descriptor) {
            return false;
        }
        let mut name: Vec<u8> = Vec::new();
        write_name(&mut name);
        let mut recorded = EventData::new(self.skip_log_fields);
        record(&mut recorded);
        let built = self.build_event(write_target, target, name.as_slice(), &recorded);
        let descriptors = built.descriptors();
        self.provider.write(Some(options), &descriptor, descriptors.as_slice());
        true
    }

    /// Reports the start of a span: an event with the operation code of a
    /// start, under the name of the span, with the target of the span and the
    /// fields that the span starts with. The event carries the identifier of
    /// the span's activity and, where the span has a parent, that of the
    /// parent's.
    pub fn on_new_span<R: FnOnce(&mut EventData)>(
        &self,
        activity_id: &ActivityId,
        parent: Option<&ActivityId>,
        level: TraceLevel,
        target: &str,
        name: &str,
        record: R,
    ) -> (written: bool)
        requires
            forall|fields: &mut EventData| call_requires(record, (fields,)),
        ensures
            self.backend().answers_event_enabled(
                self.descriptor_for(WINEVENT_OPCODE_START, level),
                written,
            ),
            written ==> exists|fields: &mut EventData|
                {
                    &&& #[trigger] call_ensures(record, (fields,), ())
                    &&& fields@ == self.no_fields()
                    &&& self.backend().takes(
                        Some(&traced_options(Some(activity_id), parent)),
                        self.descriptor_for(WINEVENT_OPCODE_START, level),
                        self.event_record(true, target@, encode_utf8(name@), final(fields)@),
                    )
                },
    {
        let descriptor = self.event_descriptor(WINEVENT_OPCODE_START, level);
        if !self.provider.is_event_enabled(&descriptor) {
            return false;
        }
        let options = build_traced_options(Some(activity_id), parent);
        let mut recorded = EventData::new(self.skip_log_fields);
        record(&mut recorded);
        let built = self.build_event(true, target, name.as_bytes(), &recorded);
        let descriptors = built.descriptors();
        self.provider.write(Some(&options), &descriptor, descriptors.as_slice());
        true
    }

    /// Reports an event that stands alone or within a span: an event with
    /// the operation code of information, under the name that the first step
    /// writes, with its target and the fields that the second step records.
    /// Where the event stands within a span, it carries the identifier of the
    /// span's activity.
    pub fn on_event<N: FnOnce(&mut Vec<u8>), R: FnOnce(&mut EventData)>(
        &self,
        activity_id: Option<&ActivityId>,
        level: TraceLevel,
        target: &str,
        write_name: N,
        record: R,
    ) -> (written: bool)
        requires
            forall|name: &mut Vec<u8>| call_requires(write_name, (name,)),
            forall|fields: &mut EventData| call_requires(record, (fields,)),
        ensures
            self.backend().answers_event_enabled(
                self.descriptor_for(WINEVENT_OPCODE_INFO, level),
                written,
            ),
            written ==> exists|name: &mut Vec<u8>, fields: &mut EventData|
                #![trigger call_ensures(write_name, (name,), ()), call_ensures(record, (fields,), ())]
                {
                    &&& call_ensures(write_name, (name,), ())
                    &&& name@ == Seq::<u8>::empty()
                    &&& call_ensures(record, (fields,), ())
                    &&& fields@ == self.no_fields()
                    &&& self.backend().takes(
                        Some(&traced_options(activity_id, None)),
                        self.descriptor_for(WINEVENT_OPCODE_INFO, level),
                        self.event_record(true, target@, final(name)@, final(fields)@),
                    )
                },
    {
        let options = build_traced_options(activity_id, None);
        self.write_event(WINEVENT_OPCODE_INFO, &options, true, level, target, write_name, record)
    }

    /// Reports the end of a span: an event with the operation code of a
    /// stop, under the name of the span, without a target, with the values
    /// that were recorded for the span after it had started.
    pub fn on_close(
        &self,
        activity_id: &ActivityId,
        level: TraceLevel,
        target: &str,
        name: &str,
        values: Option<&DeferredValues>,
    ) -> (written: bool)
        ensures
            self.backend().answers_event_enabled(
                self.descriptor_for(WINEVENT_OPCODE_STOP, level),
                written,
            ),
            written ==> self.backend().takes(
                Some(&traced_options(Some(activity_id), None)),
                self.descriptor_for(WINEVENT_OPCODE_STOP, level),
                self.event_record(false, target@, encode_utf8(name@), self.closing_fields(values)),
            ),
    {
        let descriptor = self.event_descriptor(WINEVENT_OPCODE_STOP, level);
        if !self.provider.is_event_enabled(&descriptor) {
            return false;
        }
        let options = build_traced_options(Some(activity_id), None);
        let mut recorded = EventData::new(self.skip_log_fields);
        match values {
            Some(deferred) => {
                deferred.record(&mut recorded);
            },
            None => {},
        }
        let built = self.build_event(false, target, name.as_bytes(), &recorded);
        let descriptors = built.descriptors();
        self.provider.write(Some(&options), &descriptor, descriptors.as_slice());
        true
    }
}

/// The fields that every event carries, as a list of names and values gives them.
pub open spec fn global_fields_of(fields: Seq<(&str, &str)>) -> EventDataSpec
    decreases fields.len(),
{
    if fields.len() == 0 {
        EventDataSpec {
            metadata: Seq::<u8>::empty(),
            data: Seq::<u8>::empty(),
            skip_log_fields: false,
        }
    } else {
        with_text(
            global_fields_of(fields.drop_last()),
            fields.last().0@,
            encode_utf8(fields.last().1@),
        )
    }
}

} // verus!
