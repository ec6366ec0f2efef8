//! Declaring event providers, describing their events in the self-describing
//! binary metadata format, and serialising event parameters for a tracing
//! backend.
//!
//! A provider is declared as a named group of events, each with typed
//! parameters. `analyzer::analyze` checks a declaration and reports every
//! fault it has; `emitter` builds the metadata blobs of a validated provider;
//! `event` serialises the values of an event's fields; `surface` puts the
//! three together in front of a backend that transmits the events.

pub mod analyzer;
pub mod data_descriptor;
pub mod declaration;
pub mod decoder;
pub mod emitter;
pub mod encoding;
pub mod errors;
pub mod event;
pub mod event_attributes;
pub mod guid;
pub mod logger;
pub mod metadata;
pub mod model;
pub mod provider;
pub mod provider_attributes;
pub mod subscriber;
pub mod surface;
pub mod text;
pub mod types;
pub mod well_known_types;

pub use data_descriptor::EventDataDescriptor;
pub use guid::GUID;
pub use logger::TraceLogger;
pub use metadata::{InFlag, Level, OutFlag, TraceLoggingMetadata};
pub use provider::{
    new_activity_id, Error, EventDescriptor, EventOptions, NullProvider, Provider,
};
pub use subscriber::TracelogSubscriber;
pub use types::{OutOfRangeError, SocketAddrV4, SocketAddrV6, FILETIME};
