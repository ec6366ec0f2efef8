//! The interface between events and the backend that transmits them.

use crate::data_descriptor::{described, EventDataDescriptor};
use crate::guid::GUID;
use crate::metadata::Level;
use vstd::prelude::*;

verus! {

/// Errors returned by the functions of this library.
#[derive(Clone, PartialEq, Eq, Structural, Debug)]
#[non_exhaustive]
pub enum Error {
    /// An error code of the operating system.
    WindowsError(u32),
    /// The operation is not supported on this platform.
    ///
    /// Most operations defined in this crate do nothing where no tracing
    /// backend is present. Those operations that return information, such as
    /// the `new_activity_id()` function, use this error value.
    NotSupported,
}

/// Allows an application to override the parameters for an event. The first
/// parameter of each event call is `options: Option<&EventOptions>`.
#[derive(Clone, Debug)]
pub struct EventOptions {
    /// Overrides the level of the event, if present. Each event has a default,
    /// which its declaration can give. If the event declaration does not
    /// specify a level, then the level will be verbose.
    pub level: Option<Level>,
    /// Specifies the activity ID of this event.
    pub activity_id: Option<GUID>,
    /// Specifies a related activity ID for this event. This enables an
    /// application to indicate that two sets of events are related, by
    /// associating the activity IDs of the two sets.
    pub related_activity_id: Option<GUID>,
}

impl Default for EventOptions {
    fn default() -> (options: EventOptions)
        ensures
            options.level is None,
            options.activity_id is None,
            options.related_activity_id is None,
    {
        EventOptions { level: None, activity_id: None, related_activity_id: None }
    }
}

/// Describes parameters for an event. This is an implementation detail, and
/// should not be directly used by applications.
#[derive(Clone, Copy, Debug)]
#[allow(missing_docs)]
pub struct EventDescriptor {
    pub id: u16,
    pub version: u8,
    pub channel: u8,
    pub level: Level,
    pub opcode: u8,
    pub task: u16,
    pub keyword: u64,
}

/// The level at which an event is reported: the override where the options
/// give one, the event's own level otherwise.
pub open spec fn effective_level(own: Level, options: Option<EventOptions>) -> Level {
    match options {
        Some(o) => match o.level {
            Some(level) => level,
            None => own,
        },
        None => own,
    }
}

impl EventDescriptor {
    /// The descriptor with its level replaced by the override of the options,
    /// where they give one.
    pub fn with_options(self, options: Option<&EventOptions>) -> (d: EventDescriptor)
        ensures
            d.level == effective_level(
                self.level,
                match options {
                    Some(o) => Some(*o),
                    None => None,
                },
            ),
            d.id == self.id,
            d.version == self.version,
            d.channel == self.channel,
            d.opcode == self.opcode,
            d.task == self.task,
            d.keyword == self.keyword,
    {
        let mut d = self;
        if let Some(o) = options {
            if let Some(level) = o.level {
                d.level = level;
            }
        }
        d
    }
}

/// The control code that tells a provider that a session has disabled it.
pub const EVENT_CONTROL_CODE_DISABLE_PROVIDER: u32 = 0;

/// The control code that tells a provider that a session has enabled it.
pub const EVENT_CONTROL_CODE_ENABLE_PROVIDER: u32 = 1;

/// The control code that asks a provider to log its state.
pub const EVENT_CONTROL_CODE_CAPTURE_STATE: u32 = 2;

/// The highest level that is enabled after a notification of the tracing
/// system, where the notification changes it: enabling and disabling a
/// provider set the level that comes with the notification; a request to
/// log state and a code that is not known change nothing.
pub open spec fn level_after_notification(control_code: u32, level: u8) -> Option<u8> {
    if control_code == EVENT_CONTROL_CODE_ENABLE_PROVIDER || control_code
        == EVENT_CONTROL_CODE_DISABLE_PROVIDER {
        Some(level)
    } else {
        None
    }
}

/// Decides what a notification of the tracing system does to the highest
/// level that is enabled.
pub fn enable_callback(control_code: u32, level: u8) -> (change: Option<u8>)
    ensures
        change == level_after_notification(control_code, level),
{
    if control_code == EVENT_CONTROL_CODE_ENABLE_PROVIDER {
        Some(level)
    } else if control_code == EVENT_CONTROL_CODE_DISABLE_PROVIDER {
        Some(level)
    } else {
        // A request to log state is not passed on to applications, and a code
        // that is not recognized is ignored.
        None
    }
}

/// Generates a new activity ID.
///
/// Only a tracing backend can make one. This library does not hold one, so it
/// always returns `Err`.
pub fn new_activity_id() -> (r: Result<GUID, Error>)
    ensures
        r == Err::<GUID, Error>(Error::NotSupported),
{
    Err(Error::NotSupported)
}

/// What a request to a tracing backend returns when the backend has answered
/// it with a status: success where the status is zero, else the status as an
/// error code of the operating system.
pub fn status_result(status: u32) -> (r: Result<(), Error>)
    ensures
        r == if status == 0 {
            Ok::<(), Error>(())
        } else {
            Err::<(), Error>(Error::WindowsError(status))
        },
{
    if status == 0 {
        Ok(())
    } else {
        Err(Error::WindowsError(status))
    }
}

/// What a request for an activity identifier returns when a tracing backend
/// has answered it: the identifier where the status of the answer is zero,
/// else the status as an error code of the operating system.
pub fn activity_result(status: u32, id: GUID) -> (r: Result<GUID, Error>)
    ensures
        r == if status == 0 {
            Ok::<GUID, Error>(id)
        } else {
            Err::<GUID, Error>(Error::WindowsError(status))
        },
{
    if status == 0 {
        Ok(id)
    } else {
        Err(Error::WindowsError(status))
    }
}

/// Runs a function within an activity scope. Only a tracing backend can make
/// an activity; this library holds none, so the function runs in the scope
/// that the calling thread is in, and what it returns is returned.
pub fn with_activity<F: FnOnce() -> R, R>(f: F) -> (r: R)
    requires
        call_requires(f, ()),
    ensures
        call_ensures(f, (), r),
{
    f()
}

/// Describes the functions needed for an event provider backend. This is an
/// implementation detail, and should not be used directly by applications.
///
/// A backend says of itself which answers it may give: a backend whose
/// answer depends on a tracing session may give either, a backend that
/// discards all events gives one only. It also says which events it takes:
/// `write` returns only where the backend has taken what it was handed.
pub trait Provider {
    /// Whether the backend takes an event that is handed to it with the
    /// given options and descriptor, and with data of the given kinds and
    /// bytes. A backend that says nothing of itself takes every event.
    open spec fn takes(
        &self,
        options: Option<&EventOptions>,
        descriptor: EventDescriptor,
        data: Seq<(u32, Seq<u8>)>,
    ) -> bool {
        true
    }

    /// Whether the backend may give the answer `enabled` when it is asked
    /// whether the provider is enabled at a level and for keywords. A
    /// backend that says nothing of itself may give either answer.
    open spec fn answers_enabled(&self, level: u8, keyword: u64, enabled: bool) -> bool {
        true
    }

    /// Whether the backend may give the answer `enabled` when it is asked
    /// whether an event is enabled. A backend that says nothing of itself
    /// may give either answer.
    open spec fn answers_event_enabled(
        &self,
        event_descriptor: EventDescriptor,
        enabled: bool,
    ) -> bool {
        true
    }

    /// Writes one event.
    fn write(
        &self,
        options: Option<&EventOptions>,
        descriptor: &EventDescriptor,
        data: &[EventDataDescriptor<'_>],
    )
        ensures
            self.takes(options, *descriptor, described(data@)),
    ;

    /// Checks whether the event provider is enabled.
    fn is_enabled(&self, level: u8, keyword: u64) -> (enabled: bool)
        ensures
            self.answers_enabled(level, keyword, enabled),
    ;

    /// Checks whether a specific event is enabled.
    fn is_event_enabled(&self, event_descriptor: &EventDescriptor) -> (enabled: bool)
        ensures
            self.answers_event_enabled(*event_descriptor, enabled),
    ;
}

/// Implements `Provider` by discarding all events.
#[derive(Clone, Copy, Debug)]
pub struct NullProvider;

impl Provider for NullProvider {
    /// Nothing is enabled.
    open spec fn answers_enabled(&self, level: u8, keyword: u64, enabled: bool) -> bool {
        !enabled
    }

    /// No event is enabled.
    open spec fn answers_event_enabled(
        &self,
        event_descriptor: EventDescriptor,
        enabled: bool,
    ) -> bool {
        !enabled
    }

    fn write(
        &self,
        _options: Option<&EventOptions>,
        _descriptor: &EventDescriptor,
        _data: &[EventDataDescriptor<'_>],
    ) {
    }

    fn is_enabled(&self, _level: u8, _keyword: u64) -> (enabled: bool) {
        false
    }

    fn is_event_enabled(&self, _event_descriptor: &EventDescriptor) -> (enabled: bool) {
        false
    }
}

impl<T: Provider> Provider for Option<T> {
    /// A backend that is present takes what it takes for itself; one that
    /// is absent takes every event, and drops it.
    open spec fn takes(
        &self,
        options: Option<&EventOptions>,
        descriptor: EventDescriptor,
        data: Seq<(u32, Seq<u8>)>,
    ) -> bool {
        match self {
            Some(p) => p.takes(options, descriptor, data),
            None => true,
        }
    }

    /// A backend that is present answers for itself; one that is absent
    /// answers that nothing is enabled.
    open spec fn answers_enabled(&self, level: u8, keyword: u64, enabled: bool) -> bool {
        match self {
            Some(p) => p.answers_enabled(level, keyword, enabled),
            None => !enabled,
        }
    }

    /// A backend that is present answers for itself; one that is absent
    /// answers that no event is enabled.
    open spec fn answers_event_enabled(
        &self,
        event_descriptor: EventDescriptor,
        enabled: bool,
    ) -> bool {
        match self {
            Some(p) => p.answers_event_enabled(event_descriptor, enabled),
            None => !enabled,
        }
    }

    fn write(
        &self,
        options: Option<&EventOptions>,
        descriptor: &EventDescriptor,
        data: &[EventDataDescriptor<'_>],
    ) {
        match self {
            Some(p) => p.write(options, descriptor, data),
            None => {},
        }
    }

    fn is_enabled(&self, level: u8, keyword: u64) -> (enabled: bool) {
        match self {
            Some(p) => p.is_enabled(level, keyword),
            None => false,
        }
    }

    fn is_event_enabled(&self, event_descriptor: &EventDescriptor) -> (enabled: bool) {
        match self {
            Some(p) => p.is_event_enabled(event_descriptor),
            None => false,
        }
    }
}

} // verus!
