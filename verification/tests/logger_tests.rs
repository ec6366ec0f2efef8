use std::cell::RefCell;
use win_etw::data_descriptor::EventDataDescriptor;
use win_etw::decoder::{read_event, read_event_metadata};
use win_etw::logger::{level_to_etw, log_event, log_fields, rust_log_provider, LogLevel, TraceLogger};
use win_etw::event::ParamValue;
use win_etw::metadata::Level;
use win_etw::provider::{Error, EventDescriptor, EventOptions, Provider};
use win_etw::surface::WriteOutcome;
use win_etw::well_known_types::WellKnownType;
use win_etw::GUID;

struct Recorder {
    max_level: u8,
    writes: RefCell<Vec<(Option<Level>, Vec<Vec<u8>>)>>,
}

impl Provider for &Recorder {
    fn write(
        &self,
        options: Option<&EventOptions>,
        _descriptor: &EventDescriptor,
        data: &[EventDataDescriptor<'_>],
    ) {
        self.writes.borrow_mut().push((
            options.and_then(|o| o.level),
            data.iter().map(|d| d.data().to_vec()).collect(),
        ));
    }

    fn is_enabled(&self, level: u8, _keyword: u64) -> bool {
        level <= self.max_level
    }

    fn is_event_enabled(&self, event_descriptor: &EventDescriptor) -> bool {
        event_descriptor.level.0 <= self.max_level
    }
}

#[test]
fn levels_of_log_records() {
    assert_eq!(level_to_etw(LogLevel::Error), Level::error());
    assert_eq!(level_to_etw(LogLevel::Warn), Level::warn());
    assert_eq!(level_to_etw(LogLevel::Info), Level::info());
    assert_eq!(level_to_etw(LogLevel::Debug), Level::verbose());
    assert_eq!(level_to_etw(LogLevel::Trace), Level(6));
}

#[test]
fn the_provider_of_log_records() {
    let model = rust_log_provider();
    assert_eq!(model.name, "RustLogProvider");
    assert_eq!(model.guid, GUID::from("7f006a22-73fb-4c17-b1eb-0a3070f9f187"));
    assert_eq!(model.events.len(), 1);
    let event = &model.events[0];
    assert_eq!(event.name, "log");
    assert_eq!(event.level, Level::verbose());
    let fields: Vec<(&str, WellKnownType)> =
        event.params.iter().map(|p| (p.name.as_str(), p.code)).collect();
    assert_eq!(
        fields,
        vec![
            ("module_path", WellKnownType::RefStr),
            ("file", WellKnownType::RefStr),
            ("line", WellKnownType::U32),
            ("message", WellKnownType::RefStr),
        ]
    );
}

#[test]
fn a_new_logger_includes_paths() {
    let logger = TraceLogger::new().unwrap();
    assert!(logger.log_module_path());
    assert!(logger.log_file_path());
    logger.set_log_module_path(false);
    assert!(!logger.log_module_path());
    assert!(logger.log_file_path());
    logger.set_log_file_path(false);
    assert!(!logger.log_file_path());
    logger.set_log_module_path(true);
    assert!(logger.log_module_path());
    logger.flush();
}

#[test]
fn a_logger_without_a_backend_reports_nothing() {
    let logger = TraceLogger::new().unwrap();
    assert!(!logger.enabled(LogLevel::Error));
    assert_eq!(
        logger.log(LogLevel::Error, Some("m"), Some("f.rs"), Some(1), "message"),
        WriteOutcome::Disabled
    );
    let failed: TraceLogger<&Recorder> =
        TraceLogger::with_backend(Err(Error::NotSupported)).unwrap();
    assert!(!failed.enabled(LogLevel::Error));
}

fn field_bytes(value: &ParamValue) -> Vec<u8> {
    match value {
        ParamValue::Bytes(bytes) => bytes.clone(),
        ParamValue::Int(bits) => bits.to_le_bytes().to_vec(),
        _ => panic!("a log record has strings and a number"),
    }
}

#[test]
fn the_fields_of_a_log_record() {
    let all = log_fields(true, true, Some("crate::m"), Some("src/m.rs"), Some(42), "hello");
    let seen: Vec<Vec<u8>> = all.iter().map(field_bytes).collect();
    assert_eq!(
        seen,
        vec![
            b"crate::m".to_vec(),
            b"src/m.rs".to_vec(),
            42u64.to_le_bytes().to_vec(),
            b"hello".to_vec()
        ]
    );
    let no_module = log_fields(false, true, Some("crate::m"), Some("src/m.rs"), Some(42), "hello");
    assert_eq!(field_bytes(&no_module[0]), Vec::<u8>::new());
    assert_eq!(field_bytes(&no_module[1]), b"src/m.rs".to_vec());
    let no_file = log_fields(true, false, Some("crate::m"), Some("src/m.rs"), Some(42), "hello");
    assert_eq!(field_bytes(&no_file[0]), b"crate::m".to_vec());
    assert_eq!(field_bytes(&no_file[1]), Vec::<u8>::new());
    assert_eq!(field_bytes(&no_file[2]), 0u64.to_le_bytes().to_vec());
    let unknown = log_fields(true, true, None, None, None, "");
    let seen: Vec<Vec<u8>> = unknown.iter().map(field_bytes).collect();
    assert_eq!(seen, vec![vec![], vec![], 0u64.to_le_bytes().to_vec(), vec![]]);
}

#[test]
fn a_logger_reports_records_at_their_level() {
    let recorder = Recorder { max_level: Level::info().0, writes: RefCell::new(Vec::new()) };
    let logger = TraceLogger::with_backend(Ok(&recorder)).unwrap();
    assert!(logger.enabled(LogLevel::Error));
    assert!(logger.enabled(LogLevel::Info));
    assert!(!logger.enabled(LogLevel::Debug));
    assert!(!logger.enabled(LogLevel::Trace));
    assert_eq!(
        logger.log(LogLevel::Debug, Some("m"), Some("f.rs"), Some(3), "quiet"),
        WriteOutcome::Disabled
    );
    assert_eq!(recorder.writes.borrow().len(), 0);
    assert_eq!(
        logger.log(LogLevel::Warn, Some("m"), Some("f.rs"), Some(3), "loud"),
        WriteOutcome::Written
    );
    logger.set_log_file_path(false);
    assert_eq!(
        logger.log(LogLevel::Error, Some("m"), Some("f.rs"), Some(3), "louder"),
        WriteOutcome::Written
    );
    let writes = recorder.writes.borrow();
    assert_eq!(writes.len(), 2);
    assert_eq!(writes[0].0, Some(Level::warn()));
    assert_eq!(writes[0].1[0], logger.provider().provider_metadata());
    assert_eq!(writes[0].1[1], logger.provider().event_metadata(0).unwrap());
    assert_eq!(
        writes[0].1[2..],
        [
            vec![1, 0],
            b"m".to_vec(),
            vec![4, 0],
            b"f.rs".to_vec(),
            vec![3, 0, 0, 0],
            vec![4, 0],
            b"loud".to_vec()
        ]
    );
    assert_eq!(writes[1].0, Some(Level::error()));
    assert_eq!(
        writes[1].1[2..],
        [
            vec![1, 0],
            b"m".to_vec(),
            vec![0, 0],
            vec![],
            vec![0, 0, 0, 0],
            vec![6, 0],
            b"louder".to_vec()
        ]
    );
}

#[test]
fn a_log_record_is_built_with_its_level_and_no_activity() {
    let (options, values) =
        log_event(false, false, LogLevel::Warn, Some("crate::m"), Some("src/m.rs"), Some(42), "hi");
    assert_eq!(options.level, Some(Level::warn()));
    assert_eq!(options.activity_id, None);
    assert_eq!(options.related_activity_id, None);
    let seen: Vec<Vec<u8>> = values.iter().map(field_bytes).collect();
    assert_eq!(seen, vec![vec![], vec![], 0u64.to_le_bytes().to_vec(), b"hi".to_vec()]);

    let (options, values) =
        log_event(true, true, LogLevel::Trace, Some("crate::m"), Some("src/m.rs"), Some(42), "hi");
    assert_eq!(options.level, Some(level_to_etw(LogLevel::Trace)));
    let seen: Vec<Vec<u8>> = values.iter().map(field_bytes).collect();
    assert_eq!(
        seen,
        vec![
            b"crate::m".to_vec(),
            b"src/m.rs".to_vec(),
            42u64.to_le_bytes().to_vec(),
            b"hi".to_vec()
        ]
    );
}

#[test]
fn a_log_record_is_read_back_in_the_declared_order() {
    let recorder = Recorder { max_level: Level::verbose().0, writes: RefCell::new(Vec::new()) };
    let logger = TraceLogger::with_backend(Ok(&recorder)).unwrap();
    assert_eq!(
        logger.log(LogLevel::Info, Some("crate::m"), Some("src/m.rs"), Some(42), "hello"),
        WriteOutcome::Written
    );
    let writes = recorder.writes.borrow();
    let (name, fields) = read_event_metadata(&writes[0].1[1]).unwrap();
    assert_eq!(name, b"log");
    let names: Vec<&[u8]> = fields.iter().map(|f| f.name.as_slice()).collect();
    assert_eq!(names, vec![&b"module_path"[..], &b"file"[..], &b"line"[..], &b"message"[..]]);
    let tags: Vec<u8> = fields.iter().map(|f| f.in_tag).collect();
    let slots: Vec<Vec<u8>> = writes[0].1[2..].to_vec();
    let read = read_event(&tags, &slots).unwrap();
    let seen: Vec<Vec<u8>> = read.iter().map(field_bytes).collect();
    assert_eq!(
        seen,
        vec![
            b"crate::m".to_vec(),
            b"src/m.rs".to_vec(),
            42u64.to_le_bytes().to_vec(),
            b"hello".to_vec()
        ]
    );
}
