//! A logger that reports log records as events of one provider.

use crate::decoder::{
    all_travel_whole, decode_event, field_names_end, no_zero, parse_event_metadata, round_trip,
    tags_of,
};
use crate::emitter::{event_metadata, fields_metadata_len};
use crate::event::{ParamValue, ParamValueSpec};
use crate::guid::GUID;
use crate::metadata::{Level, LEVEL_ERROR, LEVEL_INFO, LEVEL_VERBOSE, LEVEL_WARN};
use crate::model::{EventModel, EventSpec, ParamModel, ParamSpec, ProviderModel, ProviderSpec};
use crate::provider::{Error, EventDescriptor, EventOptions, NullProvider, Provider};
use crate::surface::{blobs_fit, descriptor_of, event_record, EventProvider, WriteOutcome};
use crate::text::copy_str;
use crate::types::put_array;
use crate::well_known_types::WellKnownType;
use core::sync::atomic::AtomicBool;
use core::sync::atomic::Ordering;
use vstd::prelude::*;
use vstd::string::StringSliceAdditionalSpecFns;
use vstd::utf8::{encode_utf8, is_ascii_chars, is_ascii_chars_encode_utf8};

verus! {

/// The level of the most detailed log records: beyond the predefined levels.
pub const LEVEL_TRACE: u8 = 6;

/// The levels of log records.
#[derive(Copy, Clone, PartialEq, Eq, Structural, Hash, Debug)]
pub enum LogLevel {
    /// Serious errors.
    Error,
    /// Hazardous situations.
    Warn,
    /// Useful information.
    Info,
    /// Lower priority information.
    Debug,
    /// Very low priority, often extremely verbose, information.
    Trace,
}

/// The event level at which log records of a level are reported.
pub open spec fn etw_level_of(level: LogLevel) -> Level {
    match level {
        LogLevel::Error => Level(LEVEL_ERROR),
        LogLevel::Warn => Level(LEVEL_WARN),
        LogLevel::Info => Level(LEVEL_INFO),
        LogLevel::Debug => Level(LEVEL_VERBOSE),
        LogLevel::Trace => Level(LEVEL_TRACE),
    }
}

/// The event level at which log records of a level are reported.
pub fn level_to_etw(level: LogLevel) -> (etw: Level)
    ensures
        etw == etw_level_of(level),
{
    match level {
        LogLevel::Error => Level::error(),
        LogLevel::Warn => Level::warn(),
        LogLevel::Info => Level::info(),
        LogLevel::Debug => Level::verbose(),
        LogLevel::Trace => Level(LEVEL_TRACE),
    }
}

/// The identifier of the provider of log records.
pub open spec fn log_provider_guid() -> GUID {
    GUID {
        data1: 0x7f00_6a22,
        data2: 0x73fb,
        data3: 0x4c17,
        data4: [0xb1, 0xeb, 0x0a, 0x30, 0x70, 0xf9, 0xf1, 0x87],
    }
}

/// A field of the event of log records: a string, or an unsigned number of 32 bits.
pub open spec fn log_field(name: Seq<char>, code: WellKnownType) -> ParamSpec {
    ParamSpec { name, code, is_slice: false, output_hex: false }
}

/// The provider of log records: one event, `log`, with the module path, the
/// file, the line and the message of a record.
pub open spec fn log_provider() -> ProviderSpec {
    ProviderSpec {
        name: "RustLogProvider"@,
        guid: log_provider_guid(),
        provider_group_guid: None,
        static_mode: false,
        events: seq![
            EventSpec {
                name: "log"@,
                id: 0,
                level: Level(LEVEL_VERBOSE),
                opcode: 0,
                task: 0,
                keyword: 0,
                doc: Seq::<char>::empty(),
                params: seq![
                    log_field("module_path"@, WellKnownType::RefStr),
                    log_field("file"@, WellKnownType::RefStr),
                    log_field("line"@, WellKnownType::U32),
                    log_field("message"@, WellKnownType::RefStr),
                ],
            },
        ],
    }
}

/// The descriptor with which the backend is asked about a log record of a
/// level, and with which the record is written: that of the event of log
/// records, at the event level of the level.
pub open spec fn log_descriptor(level: LogLevel) -> EventDescriptor {
    descriptor_of(log_provider().events[0], Some(etw_level_of(level)))
}

/// Builds a field of the event of log records.
fn build_log_field(name: &str, code: WellKnownType) -> (field: ParamModel)
    ensures
        field@ == log_field(name@, code),
{
    ParamModel { name: copy_str(name), code, is_slice: false, output_hex: false }
}

/// Builds the provider of log records.
pub fn rust_log_provider() -> (model: ProviderModel)
    ensures
        model@ == log_provider(),
        blobs_fit(model@),
{
    let mut params: Vec<ParamModel> = Vec::new();
    params.push(build_log_field("module_path", WellKnownType::RefStr));
    params.push(build_log_field("file", WellKnownType::RefStr));
    params.push(build_log_field("line", WellKnownType::U32));
    params.push(build_log_field("message", WellKnownType::RefStr));
    let event = EventModel {
        name: copy_str("log"),
        id: 0,
        level: Level::verbose(),
        opcode: 0,
        task: 0,
        keyword: 0,
        doc: String::new(),
        params,
    };
    let mut events: Vec<EventModel> = Vec::new();
    events.push(event);
    let model = ProviderModel {
        name: copy_str("RustLogProvider"),
        guid: GUID {
            data1: 0x7f00_6a22,
            data2: 0x73fb,
            data3: 0x4c17,
            data4: [0xb1, 0xeb, 0x0a, 0x30, 0x70, 0xf9, 0xf1, 0x87],
        },
        provider_group_guid: None,
        static_mode: false,
        events,
    };
    proof {
        assert(model@.events =~= log_provider().events) by {
            assert(model@.events[0].params =~= log_provider().events[0].params);
        }
        log_provider_fits();
    }
    model
}

/// The blobs of the provider of log records fit the length that a blob can have.
pub proof fn log_provider_fits()
    ensures
        blobs_fit(log_provider()),
{
    reveal_strlit("RustLogProvider");
    reveal_strlit("log");
    reveal_strlit("module_path");
    reveal_strlit("file");
    reveal_strlit("line");
    reveal_strlit("message");
    vstd::utf8::is_ascii_chars_encode_utf8("RustLogProvider"@);
    vstd::utf8::is_ascii_chars_encode_utf8("log"@);
    vstd::utf8::is_ascii_chars_encode_utf8("module_path"@);
    vstd::utf8::is_ascii_chars_encode_utf8("file"@);
    vstd::utf8::is_ascii_chars_encode_utf8("line"@);
    vstd::utf8::is_ascii_chars_encode_utf8("message"@);
    let event = log_provider().events[0];
    let fields = event.params;
    reveal_with_fuel(fields_metadata_len, 5);
    assert(fields.drop_last().drop_last().drop_last().drop_last().len() == 0);
    assert(fields_metadata_len(fields) <= 100);
}

/// The values of the fields of the event of a log record. The module path
/// is empty where the logger leaves module paths out; the file is empty
/// and the line zero where it leaves file paths out.
pub open spec fn log_values(
    with_module_path: bool,
    with_file_path: bool,
    module: Option<Seq<u8>>,
    file: Option<Seq<u8>>,
    line: Option<u32>,
    message: Seq<u8>,
) -> Seq<ParamValueSpec> {
    seq![
        ParamValueSpec::Bytes(
            if with_module_path && module is Some {
                module->0
            } else {
                Seq::<u8>::empty()
            },
        ),
        ParamValueSpec::Bytes(
            if with_file_path && file is Some {
                file->0
            } else {
                Seq::<u8>::empty()
            },
        ),
        ParamValueSpec::Int(
            if with_file_path && line is Some {
                line->0 as u64
            } else {
                0
            },
        ),
        ParamValueSpec::Bytes(message),
    ]
}

/// The bytes of a text, where there is one.
pub open spec fn text_bytes(text: Option<&str>) -> Option<Seq<u8>> {
    match text {
        Some(t) => Some(t.spec_bytes()),
        None => None,
    }
}

/// A copy of the bytes of a text.
fn bytes_of(text: &str) -> (bytes: Vec<u8>)
    ensures
        bytes@ == text.spec_bytes(),
{
    let mut bytes: Vec<u8> = Vec::new();
    put_array(&mut bytes, text.as_bytes());
    assert(bytes@ =~= text.spec_bytes());
    bytes
}

/// Builds the values of the fields of the event of a log record.
pub fn log_fields(
    with_module_path: bool,
    with_file_path: bool,
    module: Option<&str>,
    file: Option<&str>,
    line: Option<u32>,
    message: &str,
) -> (values: Vec<ParamValue>)
    ensures
        crate::event::values_view(values@) == log_values(
            with_module_path,
            with_file_path,
            text_bytes(module),
            text_bytes(file),
            line,
            message.spec_bytes(),
        ),
{
    let module_bytes: Vec<u8> = match module {
        Some(path) => if with_module_path {
            bytes_of(path)
        } else {
            Vec::new()
        },
        None => Vec::new(),
    };
    let file_bytes: Vec<u8> = match file {
        Some(path) => if with_file_path {
            bytes_of(path)
        } else {
            Vec::new()
        },
        None => Vec::new(),
    };
    let file_line: u32 = match line {
        Some(n) => if with_file_path {
            n
        } else {
            0
        },
        None => 0,
    };
    let mut values: Vec<ParamValue> = Vec::new();
    values.push(ParamValue::Bytes(module_bytes));
    values.push(ParamValue::Bytes(file_bytes));
    values.push(ParamValue::Int(file_line as u64));
    values.push(ParamValue::Bytes(bytes_of(message)));
    proof {
        assert(crate::event::values_view(values@) =~= log_values(
            with_module_path,
            with_file_path,
            text_bytes(module),
            text_bytes(file),
            line,
            message.spec_bytes(),
        ));
    }
    values
}

/// The options with which the event of a log record is written: the event
/// level of the record's level in place of the event's own, and no activity.
pub open spec fn log_options(level: LogLevel) -> EventOptions {
    EventOptions { level: Some(etw_level_of(level)), activity_id: None, related_activity_id: None }
}

/// Builds what a log record hands to the provider of log records: the
/// options with which its event is written, and the values of its fields.
pub fn log_event(
    with_module_path: bool,
    with_file_path: bool,
    level: LogLevel,
    module: Option<&str>,
    file: Option<&str>,
    line: Option<u32>,
    message: &str,
) -> (built: (EventOptions, Vec<ParamValue>))
    ensures
        built.0 == log_options(level),
        crate::event::values_view(built.1@) == log_values(
            with_module_path,
            with_file_path,
            text_bytes(module),
            text_bytes(file),
            line,
            message.spec_bytes(),
        ),
{
    let values = log_fields(with_module_path, with_file_path, module, file, line, message);
    let options = EventOptions {
        level: Some(level_to_etw(level)),
        activity_id: None,
        related_activity_id: None,
    };
    (options, values)
}

/// Reports log records as events of the provider of log records.
pub struct TraceLogger<P: Provider> {
    provider: EventProvider<P>,
    log_module_path: AtomicBool,
    log_file_path: AtomicBool,
}

impl TraceLogger<NullProvider> {
    /// Makes a logger that has no backend: it reports nothing.
    pub fn new() -> (r: Result<Self, Error>)
        ensures
            r is Ok,
            !r->Ok_0.has_backend(),
    {
        TraceLogger::with_backend(Err(Error::NotSupported))
    }
}

impl<P: Provider> TraceLogger<P> {
    /// The backend of the logger, if it has one.
    pub closed spec fn backend(&self) -> Option<P> {
        self.provider.backend()
    }

    /// Whether the logger has a backend.
    pub open spec fn has_backend(&self) -> bool {
        self.backend() is Some
    }

    /// The provider of the logger is the provider of log records.
    #[verifier::type_invariant]
    closed spec fn well_formed(&self) -> bool {
        self.provider.spec_model() == log_provider()
    }

    /// Makes a logger from the outcome of registering the provider of log
    /// records with a backend. Where the registration has failed the logger
    /// reports nothing. Module paths and file paths are included.
    pub fn with_backend(registered: Result<P, Error>) -> (r: Result<Self, Error>)
        ensures
            r is Ok,
            r->Ok_0.backend() == match registered {
                Ok(backend) => Some(backend),
                Err(_) => None,
            },
    {
        let model = rust_log_provider();
        match EventProvider::from_registration(model, registered) {
            Some(provider) => Ok(
                TraceLogger {
                    provider,
                    log_module_path: AtomicBool::new(true),
                    log_file_path: AtomicBool::new(true),
                },
            ),
            None => Err(Error::NotSupported),
        }
    }

    /// The provider of the logger.
    pub fn provider(&self) -> (provider: &EventProvider<P>)
        ensures
            provider.spec_model() == log_provider(),
            provider.backend() == self.backend(),
    {
        proof {
            use_type_invariant(self);
        }
        &self.provider
    }

    /// Controls whether module paths are included in event records.
    /// The default is `true` (module paths are included).
    /// This is provided to give control over privacy and to control the size of event records.
    pub fn set_log_module_path(&self, value: bool) {
        self.log_module_path.store(value, Ordering::Release);
    }

    /// Controls whether source file names and line numbers are included in event
    /// records. The default is `true` (source file names and line numbers are included).
    /// This is provided to give control over privacy and to control the size of event records.
    pub fn set_log_file_path(&self, value: bool) {
        self.log_file_path.store(value, Ordering::Release);
    }

    /// Returns `true` if this logger will include module paths in event records.
    pub fn log_module_path(&self) -> bool {
        self.log_module_path.load(Ordering::Acquire)
    }

    /// Returns `true` if this logger will include source file names and line numbers in event
    /// records.
    pub fn log_file_path(&self) -> bool {
        self.log_file_path.load(Ordering::Acquire)
    }

    /// Checks whether records of a level are reported: the answer is the
    /// one that the backend gives when it is asked about the event of log
    /// records at the event level of the level. A logger without a backend
    /// reports nothing.
    pub fn enabled(&self, level: LogLevel) -> (enabled: bool)
        ensures
            self.backend().answers_event_enabled(log_descriptor(level), enabled),
            !self.has_backend() ==> !enabled,
    {
        proof {
            use_type_invariant(self);
        }
        self.provider.is_event_enabled(0, Some(level_to_etw(level)))
    }

    /// Reports one log record, at the event level of its level: what
    /// `log_event` builds is written as the event of log records. Where
    /// the record is written, the backend takes the four fields of the
    /// record in the order in which the event declares them, behind the two
    /// blobs, with the level of the record and no activity. The module path
    /// and the file path are included as the logger is set at that moment.
    pub fn log(
        &self,
        level: LogLevel,
        module: Option<&str>,
        file: Option<&str>,
        line: Option<u32>,
        message: &str,
    ) -> (outcome: WriteOutcome)
        ensures
            self.backend().answers_event_enabled(
                log_descriptor(level),
                outcome == WriteOutcome::Written,
            ),
            !self.has_backend() ==> outcome == WriteOutcome::Disabled,
            outcome != WriteOutcome::Rejected,
            outcome == WriteOutcome::Written ==> exists|with_module_path: bool, with_file_path: bool|
                self.backend().takes(
                    Some(&log_options(level)),
                    log_descriptor(level),
                    event_record(
                        log_provider(),
                        0,
                        crate::event::event_slots(
                            log_provider().events[0].params,
                            #[trigger] log_values(
                                with_module_path,
                                with_file_path,
                                text_bytes(module),
                                text_bytes(file),
                                line,
                                message.spec_bytes(),
                            ),
                            usize::BITS as int,
                        )->0,
                    ),
                ),
    {
        proof {
            use_type_invariant(self);
        }
        let with_module_path = self.log_module_path();
        let with_file_path = self.log_file_path();
        let (options, values) = log_event(
            with_module_path,
            with_file_path,
            level,
            module,
            file,
            line,
            message,
        );
        proof {
            log_values_travel(
                with_module_path,
                with_file_path,
                text_bytes(module),
                text_bytes(file),
                line,
                message.spec_bytes(),
            );
        }
        self.provider.write_event(0, Some(&options), &values)
    }

    /// Does nothing: no record is held back.
    pub fn flush(&self) {
    }
}

/// The values of a log record are ones that the fields of the event of log
/// records can have.
pub proof fn log_values_travel(
    with_module_path: bool,
    with_file_path: bool,
    module: Option<Seq<u8>>,
    file: Option<Seq<u8>>,
    line: Option<u32>,
    message: Seq<u8>,
)
    ensures
        crate::event::event_slots(
            log_provider().events[0].params,
            log_values(with_module_path, with_file_path, module, file, line, message),
            usize::BITS as int,
        ) is Some,
{
    let fields = log_provider().events[0].params;
    let values = log_values(with_module_path, with_file_path, module, file, line, message);
    let bits = usize::BITS as int;
    crate::event::byte_limits();
    reveal_with_fuel(crate::event::event_slots, 5);
    let f1 = fields.drop_first();
    let v1 = values.drop_first();
    let f2 = f1.drop_first();
    let v2 = v1.drop_first();
    let f3 = f2.drop_first();
    let v3 = v2.drop_first();
    assert(f3.drop_first().len() == 0);
    assert(v3.drop_first().len() == 0);
    assert(crate::event::event_slots(f3, v3, bits) is Some);
    assert(crate::event::event_slots(f2, v2, bits) is Some);
    assert(crate::event::event_slots(f1, v1, bits) is Some);
}

/// The bytes of a text of plain characters, none of them the zero
/// character, hold no zero byte.
proof fn plain_text_has_no_zero(text: Seq<char>)
    requires
        is_ascii_chars(text),
        forall|i: int| 0 <= i < text.len() ==> #[trigger] text[i] != '\0',
    ensures
        no_zero(encode_utf8(text)),
{
    is_ascii_chars_encode_utf8(text);
    assert forall|i: int| 0 <= i < encode_utf8(text).len() implies #[trigger] encode_utf8(text)[i]
        != 0 by {
        let c = text[i];
        assert(c != '\0');
        assert(c as u8 == encode_utf8(text)[i]);
        assert('\0' <= c <= '\u{7f}');
        assert(c as u32 != 0);
    }
}

/// The fields of a log record go out in the order in which the event of log
/// records declares them. A decoder that holds the blob of the event finds
/// four fields in it, named `module_path`, `file`, `line` and `message`, in
/// this order; and from the slots of a record it reads the values of the
/// record, each under the field that it belongs to.
///
/// This holds of texts that travel whole. A text of more than 65535 bytes
/// is cut to 65535 bytes on its way, so it is not read back.
pub proof fn log_record_is_read_back(
    with_module_path: bool,
    with_file_path: bool,
    module: Option<Seq<u8>>,
    file: Option<Seq<u8>>,
    line: Option<u32>,
    message: Seq<u8>,
)
    requires
        all_travel_whole(log_values(with_module_path, with_file_path, module, file, line, message)),
    ensures
        ({
            let event = log_provider().events[0];
            let values = log_values(with_module_path, with_file_path, module, file, line, message);
            let bits = usize::BITS as int;
            &&& crate::event::event_slots(event.params, values, bits) is Some
            &&& parse_event_metadata(event_metadata(event, bits)) matches Some(found)
            &&& found.1.len() == 4
            &&& found.1[0].name == encode_utf8("module_path"@)
            &&& found.1[1].name == encode_utf8("file"@)
            &&& found.1[2].name == encode_utf8("line"@)
            &&& found.1[3].name == encode_utf8("message"@)
            &&& decode_event(
                tags_of(found.1),
                crate::event::event_slots(event.params, values, bits)->0,
            ) == Some(values)
        }),
{
    let event = log_provider().events[0];
    let values = log_values(with_module_path, with_file_path, module, file, line, message);
    let bits = usize::BITS as int;
    reveal_strlit("log");
    reveal_strlit("module_path");
    reveal_strlit("file");
    reveal_strlit("line");
    reveal_strlit("message");
    plain_text_has_no_zero("log"@);
    plain_text_has_no_zero("module_path"@);
    plain_text_has_no_zero("file"@);
    plain_text_has_no_zero("line"@);
    plain_text_has_no_zero("message"@);
    assert(field_names_end(event.params));
    log_provider_fits();
    log_values_travel(with_module_path, with_file_path, module, file, line, message);
    round_trip(event, values, bits);
    crate::decoder::parse_finds_the_event(event, bits);
}

} // verus!
