//! Definitions of the metadata that describes the schema of events.
//!
//! The values here are fixed by the tracing subsystem's self-describing event
//! format: a decoder reads the same numbers back out of the metadata blobs.

use vstd::prelude::*;

verus! {

/// The value stored in `TraceLoggingMetadata::signature`.
/// In little-endian ASCII, this is "ETW0".
pub const METADATA_SIGNATURE: u32 = 0x3057_5445;

/// The value stored in `TraceLoggingMetadata::magic`.
pub const METADATA_MAGIC: u64 = 0xBB8A_052B_8804_0E86;

/// The version of the metadata emitted. Currently, there is only one version.
pub const METADATA_VERSION: u8 = 0;

/// The number of bytes that a `TraceLoggingMetadata` header occupies.
pub const METADATA_HEADER_SIZE: u16 = 16;

/// The bit flag which says that pointers are 64 bits wide.
pub open spec fn pointer_width_flag(bits: int) -> u8 {
    if bits == 64 {
        1
    } else {
        0
    }
}

/// The bit flag which indicates the size of pointers on the target architecture.
pub fn metadata_flags_pointer_width() -> (flags: u8)
    ensures
        flags == pointer_width_flag(usize::BITS as int),
{
    if usize::BITS == 64 {
        1
    } else {
        0
    }
}

/// This structure describes the start of the metadata section of a module.
#[derive(Copy, Clone, Debug)]
pub struct TraceLoggingMetadata {
    signature: u32,
    size: u16,
    version: u8,
    flags: u8,
    magic: u64,
}

impl TraceLoggingMetadata {
    /// The signature field.
    pub closed spec fn spec_signature(&self) -> u32 {
        self.signature
    }

    /// The size field.
    pub closed spec fn spec_size(&self) -> u16 {
        self.size
    }

    /// The version field.
    pub closed spec fn spec_version(&self) -> u8 {
        self.version
    }

    /// The flags field.
    pub closed spec fn spec_flags(&self) -> u8 {
        self.flags
    }

    /// The magic field.
    pub closed spec fn spec_magic(&self) -> u64 {
        self.magic
    }

    /// The header that this implementation places at the start of the metadata section.
    pub fn new() -> (header: Self)
        ensures
            header.spec_signature() == METADATA_SIGNATURE,
            header.spec_size() == METADATA_HEADER_SIZE,
            header.spec_version() == METADATA_VERSION,
            header.spec_flags() == pointer_width_flag(usize::BITS as int),
            header.spec_magic() == METADATA_MAGIC,
    {
        TraceLoggingMetadata {
            signature: METADATA_SIGNATURE,
            size: METADATA_HEADER_SIZE,
            version: METADATA_VERSION,
            flags: metadata_flags_pointer_width(),
            magic: METADATA_MAGIC,
        }
    }

    /// The signature, "ETW0" in little-endian ASCII.
    pub fn signature(&self) -> (r: u32)
        ensures
            r == self.spec_signature(),
    {
        self.signature
    }

    /// The size of the header in bytes.
    pub fn size(&self) -> (r: u16)
        ensures
            r == self.spec_size(),
    {
        self.size
    }

    /// The version of the metadata format.
    pub fn version(&self) -> (r: u8)
        ensures
            r == self.spec_version(),
    {
        self.version
    }

    /// The pointer-width flag.
    pub fn flags(&self) -> (r: u8)
        ensures
            r == self.spec_flags(),
    {
        self.flags
    }

    /// The magic number.
    pub fn magic(&self) -> (r: u64)
        ensures
            r == self.spec_magic(),
    {
        self.magic
    }
}

/// Predefined event tracing levels. Any other value is a custom level.
#[derive(Copy, Clone, PartialEq, Eq, Structural, PartialOrd, Ord, Hash, Debug)]
pub struct Level(pub u8);

/// Tracing is not on.
pub const LEVEL_NONE: u8 = 0;

/// Abnormal exit or termination.
pub const LEVEL_CRITICAL: u8 = 1;

/// Severe errors that need logging.
pub const LEVEL_ERROR: u8 = 2;

/// Warnings such as allocation failure.
pub const LEVEL_WARN: u8 = 3;

/// Includes non-error cases (e.g., entry and exit).
pub const LEVEL_INFO: u8 = 4;

/// Detailed traces from intermediate steps.
pub const LEVEL_VERBOSE: u8 = 5;

impl Level {
    /// Tracing is not on.
    pub fn none() -> (level: Level)
        ensures
            level == Level(LEVEL_NONE),
    {
        Level(LEVEL_NONE)
    }

    /// Abnormal exit or termination.
    pub fn critical() -> (level: Level)
        ensures
            level == Level(LEVEL_CRITICAL),
    {
        Level(LEVEL_CRITICAL)
    }

    /// Deprecated name for abnormal exit or termination.
    pub fn fatal() -> (level: Level)
        ensures
            level == Level(LEVEL_CRITICAL),
    {
        Level(LEVEL_CRITICAL)
    }

    /// Severe errors that need logging.
    pub fn error() -> (level: Level)
        ensures
            level == Level(LEVEL_ERROR),
    {
        Level(LEVEL_ERROR)
    }

    /// Warnings such as allocation failure.
    pub fn warn() -> (level: Level)
        ensures
            level == Level(LEVEL_WARN),
    {
        Level(LEVEL_WARN)
    }

    /// Includes non-error cases (e.g., entry and exit).
    pub fn info() -> (level: Level)
        ensures
            level == Level(LEVEL_INFO),
    {
        Level(LEVEL_INFO)
    }

    /// Detailed traces from intermediate steps.
    pub fn verbose() -> (level: Level)
        ensures
            level == Level(LEVEL_VERBOSE),
    {
        Level(LEVEL_VERBOSE)
    }

    /// Whether an event at this level passes a session that asks for events up
    /// to `max_level`.
    pub open spec fn passes(self, max_level: u8) -> bool {
        self.0 <= max_level
    }

    /// Checks whether an event at this level passes a session that asks for
    /// events up to `max_level`.
    pub fn is_within(self, max_level: u8) -> (r: bool)
        ensures
            r == self.passes(max_level),
    {
        self.0 <= max_level
    }
}

/// Defines the input type of a field: a type code in the low five bits, and
/// flags in the high three.
#[derive(Copy, Clone, PartialEq, Eq, Structural, Hash, Debug)]
pub struct InFlag(pub u8);

impl InFlag {
    /// No value at all.
    pub const NULL: u8 = 0;

    /// A wide string (UTF-16), terminated by a zero unit.
    pub const UNICODE_STRING: u8 = 1;

    /// A byte string, terminated by a zero byte.
    /// The character set can be specified as UTF-8 by using `OutFlag::UTF8`.
    pub const ANSI_STRING: u8 = 2;

    /// `i8`
    pub const INT8: u8 = 3;

    /// `u8`
    pub const UINT8: u8 = 4;

    /// `i16`, stored in little-endian form.
    pub const INT16: u8 = 5;

    /// `u16`, stored in little-endian form.
    pub const UINT16: u8 = 6;

    /// `i32`, stored in little-endian form.
    pub const INT32: u8 = 7;

    /// `u32`, stored in little-endian form.
    pub const UINT32: u8 = 8;

    /// `i64`, stored in little-endian form.
    pub const INT64: u8 = 9;

    /// `u64`, stored in little-endian form.
    pub const UINT64: u8 = 10;

    /// `f32`, stored in little-endian form.
    pub const FLOAT: u8 = 11;

    /// `f64`, stored in little-endian form.
    pub const DOUBLE: u8 = 12;

    /// A 32-bit boolean, stored in little-endian form.
    pub const BOOL32: u8 = 13;

    /// An array of bytes.
    pub const BINARY: u8 = 14;

    /// A `GUID`, stored in canonical byte-oriented representation.
    pub const GUID: u8 = 15;

    /// A `FILETIME` value: a `u64`, stored in little-endian form, counting
    /// 100ns intervals from the `FILETIME` epoch.
    pub const FILETIME: u8 = 17;

    /// A `SYSTEMTIME` value, with fields encoded in little-endian form.
    pub const SYSTEMTIME: u8 = 18;

    /// A security identifier.
    pub const SID: u8 = 19;

    /// An `i32` value, encoded in little-endian form, displayed in hexadecimal.
    pub const HEXINT32: u8 = 20;

    /// An `i64` value, encoded in little-endian form, displayed in hexadecimal.
    pub const HEXINT64: u8 = 21;

    /// A counted wide string (UTF-16). This type uses two data slots. The
    /// first is a `u16` value, giving the length of the string data. The
    /// second holds the character data.
    pub const COUNTED_UNICODE_STRING: u8 = 22;

    /// A counted byte string. The character set can be specified as UTF-8 by
    /// using `OutFlag::UTF8`. This type uses two data slots. The first is a
    /// `u16` value, giving the length of the string data. The second holds the
    /// character data.
    pub const COUNTED_ANSI_STRING: u8 = 23;

    /// A flag which indicates that this field is an array of constant length.
    /// If this flag is present, then the metadata contains an additional `u16`
    /// field, which is the constant length.
    pub const CCOUNT_FLAG: u8 = 0x20;

    /// A flag which indicates that this field has a dynamic length. The field
    /// uses two data slots. The first is a `u16` field specifying the length of
    /// the array. The second holds the array data.
    pub const VCOUNT_FLAG: u8 = 0x40;

    /// A flag which indicates that this field metadata also includes an
    /// `OutFlag`. The `OutFlag` byte immediately follows the `InFlag` byte.
    pub const CHAIN_FLAG: u8 = 0x80;

    /// A flag which indicates that the field uses a custom serializer.
    pub const CUSTOM_FLAG: u8 = 0x60;

    /// A mask of the field type flags.
    pub const TYPE_MASK: u8 = 0x1f;

    /// A mask of the field length flags (`VCOUNT_FLAG`, `CCOUNT_FLAG`, `CUSTOM_FLAG`).
    pub const COUNT_MASK: u8 = 0x60;

    /// A mask over all of the flags (all bits excluding the type bits).
    pub const FLAG_MASK: u8 = 0xe0;

    /// The type code for a pointer-sized unsigned word, given the width of a pointer.
    pub open spec fn usize_code(bits: int) -> u8 {
        if bits == 64 {
            Self::UINT64
        } else {
            Self::UINT32
        }
    }

    /// The type code for a pointer-sized signed word, given the width of a pointer.
    pub open spec fn isize_code(bits: int) -> u8 {
        if bits == 64 {
            Self::INT64
        } else {
            Self::INT32
        }
    }

    /// The architecture-dependent `InFlag` for `usize`.
    pub fn usize_flag() -> (flag: InFlag)
        ensures
            flag.0 == Self::usize_code(usize::BITS as int),
    {
        if usize::BITS == 64 {
            InFlag(Self::UINT64)
        } else {
            InFlag(Self::UINT32)
        }
    }

    /// The architecture-dependent `InFlag` for `isize`.
    pub fn isize_flag() -> (flag: InFlag)
        ensures
            flag.0 == Self::isize_code(usize::BITS as int),
    {
        if usize::BITS == 64 {
            InFlag(Self::INT64)
        } else {
            InFlag(Self::INT32)
        }
    }

    /// The raw value of the flags.
    pub fn bits(self) -> (bits: u8)
        ensures
            bits == self.0,
    {
        self.0
    }

    /// The union of two sets of flags.
    pub fn union(self, other: InFlag) -> (both: InFlag)
        ensures
            both.0 == self.0 | other.0,
    {
        InFlag(self.0 | other.0)
    }

    /// Whether every bit of `other` is set in `self`.
    pub fn contains(self, other: InFlag) -> (r: bool)
        ensures
            r == (self.0 & other.0 == other.0),
    {
        self.0 & other.0 == other.0
    }
}

/// Specifies how a field should be interpreted or displayed.
#[derive(Copy, Clone, PartialEq, Eq, Structural, Hash, Debug)]
pub struct OutFlag(pub u8);

impl OutFlag {
    /// No display at all.
    pub const NULL: u8 = 0;

    /// No display at all.
    pub const NOPRINT: u8 = 1;

    /// Contains text.
    pub const STRING: u8 = 2;

    /// Is a boolean. This can only be used with `InFlag::INT8`.
    pub const BOOLEAN: u8 = 3;

    /// Display in hexadecimal. Can be used with any integer type.
    pub const HEX: u8 = 4;

    /// The field is a process ID.
    pub const PID: u8 = 5;

    /// The field is a thread ID.
    pub const TID: u8 = 6;

    /// The field is a TCP/IP or UDP/IP port, in big-endian encoding.
    pub const PORT: u8 = 7;

    /// The field is an IP v4 address, in big-endian encoding.
    pub const IPV4: u8 = 8;

    /// The field is an IP v6 address, in big-endian encoding.
    pub const IPV6: u8 = 9;

    /// The field is a socket address.
    pub const SOCKETADDRESS: u8 = 10;

    /// The field is text, and should be interpreted as XML.
    pub const XML: u8 = 11;

    /// The field is text, and should be interpreted as JSON.
    pub const JSON: u8 = 12;

    /// The field is a Win32 error code. The field type should be `InFlag::UINT32`.
    pub const WIN32ERROR: u8 = 13;

    /// The field is an `NTSTATUS` error code. The field type should be `InFlag::UINT32`.
    pub const NTSTATUS: u8 = 14;

    /// The field is an `HRESULT` error code. The field type should be `InFlag::INT32`.
    pub const HRESULT: u8 = 15;

    /// The field is a `FILETIME` value.
    pub const FILETIME: u8 = 16;

    /// Display field as signed.
    pub const SIGNED: u8 = 17;

    /// Display field as unsigned.
    pub const UNSIGNED: u8 = 18;

    /// For strings, indicates that the string encoding is UTF-8.
    pub const UTF8: u8 = 35;

    /// Used with `InFlag::BINARY`.
    pub const PKCS7_WITH_TYPE_INFO: u8 = 36;

    /// Indicates that the timezone for a time value is UTC.
    /// This can be used with `InFlag::FILETIME` or `InFlag::SYSTEMTIME`.
    pub const DATETIME_UTC: u8 = 38;

    /// The raw value of the flags.
    pub fn bits(self) -> (bits: u8)
        ensures
            bits == self.0,
    {
        self.0
    }
}

/// Events that carry this keyword are critical data.
pub const MICROSOFT_KEYWORD_CRITICAL_DATA: u64 = 0x0000_8000_0000_0000;

/// Events that carry this keyword are measures.
pub const MICROSOFT_KEYWORD_MEASURES: u64 = 0x0000_4000_0000_0000;

/// Events that carry this keyword are telemetry.
pub const MICROSOFT_KEYWORD_TELEMETRY: u64 = 0x0000_2000_0000_0000;

} // verus!
