//! The registry of the types that an event parameter can have, and how each
//! is encoded.

use crate::metadata::{InFlag, OutFlag};
use crate::text::str_eq;
use vstd::prelude::*;

verus! {

/// The shape in which a parameter's type is written.
#[derive(Copy, Clone, PartialEq, Eq, Structural, Hash, Debug)]
pub enum TypeShape {
    /// A type named by a plain identifier, as in `u32`.
    Value,
    /// A shared reference to a type named by a plain identifier, as in `&str`.
    Ref,
    /// A shared reference to a slice of a type named by a plain identifier, as in `&[u8]`.
    RefSlice,
    /// Anything else.
    Other,
}

/// The type of a parameter as its declaration writes it.
#[derive(Debug)]
pub struct DeclaredType {
    /// The shape of the type.
    pub shape: TypeShape,
    /// The identifier at the heart of the type; empty where the shape is `Other`.
    pub name: String,
}

/// The type of a parameter as a plain value.
pub struct DeclaredTypeView {
    /// The shape of the type.
    pub shape: TypeShape,
    /// The identifier at the heart of the type.
    pub name: Seq<char>,
}

impl View for DeclaredType {
    type V = DeclaredTypeView;

    open spec fn view(&self) -> DeclaredTypeView {
        DeclaredTypeView { shape: self.shape, name: self.name@ }
    }
}

impl Clone for DeclaredType {
    fn clone(&self) -> (copy: DeclaredType)
        ensures
            copy@ == self@,
    {
        DeclaredType { shape: self.shape, name: self.name.clone() }
    }
}

/// The types that an event parameter can have.
#[derive(Copy, Clone, PartialEq, Eq, Structural, Hash, Debug)]
pub enum WellKnownType {
    /// `bool`.
    Bool,
    /// `u8`.
    U8,
    /// `u16`.
    U16,
    /// `u32`.
    U32,
    /// `u64`.
    U64,
    /// `i8`.
    I8,
    /// `i16`.
    I16,
    /// `i32`.
    I32,
    /// `i64`.
    I64,
    /// A 32-bit floating-point number.
    Float,
    /// A 64-bit floating-point number.
    Double,
    /// `usize`.
    Usize,
    /// `isize`.
    Isize,
    /// `&str`.
    RefStr,
    /// A reference to a wide string that ends in a zero unit.
    U16CStr,
    /// A reference to a string of the operating system.
    OsStr,
    /// `&GUID`.
    Guid,
    /// A reference to an IPv4 socket address.
    SocketAddrV4,
    /// A reference to an IPv6 socket address.
    SocketAddrV6,
    /// A reference to a socket address of either family.
    SocketAddr,
    /// A point in time of the system clock.
    SystemTime,
    /// `FILETIME`.
    FileTime,
    /// An `HRESULT` error code.
    HResult,
    /// A Win32 error code.
    Win32Error,
    /// An `NTSTATUS` error code.
    NtStatus,
}

/// An encoding tag that is only known where the width of a pointer is.
#[derive(Copy, Clone, PartialEq, Eq, Structural, Hash, Debug)]
pub enum InTypeExpr {
    /// The tag of the unsigned integer that is as wide as a pointer.
    Usize,
    /// The tag of the signed integer that is as wide as a pointer.
    Isize,
}

/// What a well-known type may have besides its encoding tag.
#[derive(Copy, Clone, PartialEq, Eq, Structural, Debug)]
pub struct WellKnownTypeOptions {
    /// How a decoder displays the value by default.
    pub out_type: Option<OutFlag>,
    /// Where the encoding tag depends on the width of a pointer, which of the two it is.
    pub in_type_expr: Option<InTypeExpr>,
    /// The type in whose encoding the value travels, where that is another type.
    pub replacement_type: Option<WellKnownType>,
    /// Whether the value can be displayed in hexadecimal.
    pub can_output_hex: bool,
}

/// How a well-known type is encoded.
#[derive(Copy, Clone, PartialEq, Eq, Structural, Debug)]
pub struct WellKnownTypeInfo {
    /// The shape in which the type is written.
    pub shape: TypeShape,
    /// Which type it is.
    pub code: WellKnownType,
    /// The encoding tag of the type.
    pub in_type: InFlag,
    /// Whether a value of the type is handed over by reference.
    pub is_ref: bool,
    /// Indicates whether this type can be used in a slice, e.g. &[T].
    pub primitive: bool,
    /// What the type has besides.
    pub opts: WellKnownTypeOptions,
}

/// The options that a type has where nothing else is said of it.
pub open spec fn default_options() -> WellKnownTypeOptions {
    WellKnownTypeOptions {
        out_type: None,
        in_type_expr: None,
        replacement_type: None,
        can_output_hex: false,
    }
}

impl Default for WellKnownTypeOptions {
    fn default() -> (opts: WellKnownTypeOptions)
        ensures
            opts == default_options(),
    {
        WellKnownTypeOptions {
            out_type: None,
            in_type_expr: None,
            replacement_type: None,
            can_output_hex: false,
        }
    }
}

impl WellKnownType {
    /// The identifier by which a declaration names the type.
    pub open spec fn name(self) -> Seq<char> {
        match self {
            WellKnownType::Bool => "bool"@,
            WellKnownType::U8 => "u8"@,
            WellKnownType::U16 => "u16"@,
            WellKnownType::U32 => "u32"@,
            WellKnownType::U64 => "u64"@,
            WellKnownType::I8 => "i8"@,
            WellKnownType::I16 => "i16"@,
            WellKnownType::I32 => "i32"@,
            WellKnownType::I64 => "i64"@,
            WellKnownType::Float => "f32"@,
            WellKnownType::Double => "f64"@,
            WellKnownType::Usize => "usize"@,
            WellKnownType::Isize => "isize"@,
            WellKnownType::RefStr => "str"@,
            WellKnownType::U16CStr => "U16CStr"@,
            WellKnownType::OsStr => "OsStr"@,
            WellKnownType::Guid => "GUID"@,
            WellKnownType::SocketAddrV4 => "SocketAddrV4"@,
            WellKnownType::SocketAddrV6 => "SocketAddrV6"@,
            WellKnownType::SocketAddr => "SocketAddr"@,
            WellKnownType::SystemTime => "SystemTime"@,
            WellKnownType::FileTime => "FILETIME"@,
            WellKnownType::HResult => "HRESULT"@,
            WellKnownType::Win32Error => "WIN32ERROR"@,
            WellKnownType::NtStatus => "NTSTATUS"@,
        }
    }

    /// How the type is encoded.
    pub open spec fn info(self) -> WellKnownTypeInfo {
        match self {
            WellKnownType::Bool => WellKnownTypeInfo {
                shape: TypeShape::Value,
                code: WellKnownType::Bool,
                in_type: InFlag(InFlag::INT8),
                is_ref: false,
                primitive: true,
                opts: WellKnownTypeOptions {
                    out_type: Some(OutFlag(OutFlag::BOOLEAN)),
                    in_type_expr: None,
                    replacement_type: None,
                    can_output_hex: false,
                },
            },
            WellKnownType::U8 => WellKnownTypeInfo {
                shape: TypeShape::Value,
                code: WellKnownType::U8,
                in_type: InFlag(InFlag::UINT8),
                is_ref: false,
                primitive: true,
                opts: WellKnownTypeOptions {
                    out_type: None,
                    in_type_expr: None,
                    replacement_type: None,
                    can_output_hex: true,
                },
            },
            WellKnownType::U16 => WellKnownTypeInfo {
                shape: TypeShape::Value,
                code: WellKnownType::U16,
                in_type: InFlag(InFlag::UINT16),
                is_ref: false,
                primitive: true,
                opts: WellKnownTypeOptions {
                    out_type: None,
                    in_type_expr: None,
                    replacement_type: None,
                    can_output_hex: true,
                },
            },
            WellKnownType::U32 => WellKnownTypeInfo {
                shape: TypeShape::Value,
                code: WellKnownType::U32,
                in_type: InFlag(InFlag::UINT32),
                is_ref: false,
                primitive: true,
                opts: WellKnownTypeOptions {
                    out_type: None,
                    in_type_expr: None,
                    replacement_type: None,
                    can_output_hex: true,
                },
            },
            WellKnownType::U64 => WellKnownTypeInfo {
                shape: TypeShape::Value,
                code: WellKnownType::U64,
                in_type: InFlag(InFlag::UINT64),
                is_ref: false,
                primitive: true,
                opts: WellKnownTypeOptions {
                    out_type: None,
                    in_type_expr: None,
                    replacement_type: None,
                    can_output_hex: true,
                },
            },
            WellKnownType::I8 => WellKnownTypeInfo {
                shape: TypeShape::Value,
                code: WellKnownType::I8,
                in_type: InFlag(InFlag::INT8),
                is_ref: false,
                primitive: true,
                opts: WellKnownTypeOptions {
                    out_type: None,
                    in_type_expr: None,
                    replacement_type: None,
                    can_output_hex: true,
                },
            },
            WellKnownType::I16 => WellKnownTypeInfo {
                shape: TypeShape::Value,
                code: WellKnownType::I16,
                in_type: InFlag(InFlag::INT16),
                is_ref: false,
                primitive: true,
                opts: WellKnownTypeOptions {
                    out_type: None,
                    in_type_expr: None,
                    replacement_type: None,
                    can_output_hex: true,
                },
            },
            WellKnownType::I32 => WellKnownTypeInfo {
                shape: TypeShape::Value,
                code: WellKnownType::I32,
                in_type: InFlag(InFlag::INT32),
                is_ref: false,
                primitive: true,
                opts: WellKnownTypeOptions {
                    out_type: None,
                    in_type_expr: None,
                    replacement_type: None,
                    can_output_hex: true,
                },
            },
            WellKnownType::I64 => WellKnownTypeInfo {
                shape: TypeShape::Value,
                code: WellKnownType::I64,
                in_type: InFlag(InFlag::INT64),
                is_ref: false,
                primitive: true,
                opts: WellKnownTypeOptions {
                    out_type: None,
                    in_type_expr: None,
                    replacement_type: None,
                    can_output_hex: true,
                },
            },
            WellKnownType::Float => WellKnownTypeInfo {
                shape: TypeShape::Value,
                code: WellKnownType::Float,
                in_type: InFlag(InFlag::FLOAT),
                is_ref: false,
                primitive: true,
                opts: WellKnownTypeOptions {
                    out_type: None,
                    in_type_expr: None,
                    replacement_type: None,
                    can_output_hex: false,
                },
            },
            WellKnownType::Double => WellKnownTypeInfo {
                shape: TypeShape::Value,
                code: WellKnownType::Double,
                in_type: InFlag(InFlag::DOUBLE),
                is_ref: false,
                primitive: true,
                opts: WellKnownTypeOptions {
                    out_type: None,
                    in_type_expr: None,
                    replacement_type: None,
                    can_output_hex: false,
                },
            },
            WellKnownType::Usize => WellKnownTypeInfo {
                shape: TypeShape::Value,
                code: WellKnownType::Usize,
                in_type: InFlag(InFlag::NULL),
                is_ref: false,
                primitive: true,
                opts: WellKnownTypeOptions {
                    out_type: None,
                    in_type_expr: Some(InTypeExpr::Usize),
                    replacement_type: None,
                    can_output_hex: true,
                },
            },
            WellKnownType::Isize => WellKnownTypeInfo {
                shape: TypeShape::Value,
                code: WellKnownType::Isize,
                in_type: InFlag(InFlag::NULL),
                is_ref: false,
                primitive: true,
                opts: WellKnownTypeOptions {
                    out_type: None,
                    in_type_expr: Some(InTypeExpr::Isize),
                    replacement_type: None,
                    can_output_hex: true,
                },
            },
            WellKnownType::RefStr => WellKnownTypeInfo {
                shape: TypeShape::Ref,
                code: WellKnownType::RefStr,
                in_type: InFlag(InFlag::COUNTED_ANSI_STRING),
                is_ref: true,
                primitive: false,
                opts: WellKnownTypeOptions {
                    out_type: Some(OutFlag(OutFlag::UTF8)),
                    in_type_expr: None,
                    replacement_type: None,
                    can_output_hex: false,
                },
            },
            WellKnownType::U16CStr => WellKnownTypeInfo {
                shape: TypeShape::Ref,
                code: WellKnownType::U16CStr,
                in_type: InFlag(InFlag::COUNTED_UNICODE_STRING),
                is_ref: true,
                primitive: false,
                opts: WellKnownTypeOptions {
                    out_type: None,
                    in_type_expr: None,
                    replacement_type: None,
                    can_output_hex: false,
                },
            },
            WellKnownType::OsStr => WellKnownTypeInfo {
                shape: TypeShape::Ref,
                code: WellKnownType::OsStr,
                in_type: InFlag(InFlag::COUNTED_UNICODE_STRING),
                is_ref: true,
                primitive: false,
                opts: WellKnownTypeOptions {
                    out_type: None,
                    in_type_expr: None,
                    replacement_type: None,
                    can_output_hex: false,
                },
            },
            WellKnownType::Guid => WellKnownTypeInfo {
                shape: TypeShape::Ref,
                code: WellKnownType::Guid,
                in_type: InFlag(InFlag::GUID),
                is_ref: true,
                primitive: false,
                opts: WellKnownTypeOptions {
                    out_type: None,
                    in_type_expr: None,
                    replacement_type: None,
                    can_output_hex: false,
                },
            },
            WellKnownType::SocketAddrV4 => WellKnownTypeInfo {
                shape: TypeShape::Ref,
                code: WellKnownType::SocketAddrV4,
                in_type: InFlag(InFlag::BINARY),
                is_ref: false,
                primitive: false,
                opts: WellKnownTypeOptions {
                    out_type: Some(OutFlag(OutFlag::SOCKETADDRESS)),
                    in_type_expr: None,
                    replacement_type: None,
                    can_output_hex: false,
                },
            },
            WellKnownType::SocketAddrV6 => WellKnownTypeInfo {
                shape: TypeShape::Ref,
                code: WellKnownType::SocketAddrV6,
                in_type: InFlag(InFlag::BINARY),
                is_ref: false,
                primitive: false,
                opts: WellKnownTypeOptions {
                    out_type: Some(OutFlag(OutFlag::SOCKETADDRESS)),
                    in_type_expr: None,
                    replacement_type: None,
                    can_output_hex: false,
                },
            },
            WellKnownType::SocketAddr => WellKnownTypeInfo {
                shape: TypeShape::Ref,
                code: WellKnownType::SocketAddr,
                in_type: InFlag(InFlag::BINARY),
                is_ref: false,
                primitive: false,
                opts: WellKnownTypeOptions {
                    out_type: Some(OutFlag(OutFlag::SOCKETADDRESS)),
                    in_type_expr: None,
                    replacement_type: None,
                    can_output_hex: false,
                },
            },
            WellKnownType::SystemTime => WellKnownTypeInfo {
                shape: TypeShape::Value,
                code: WellKnownType::SystemTime,
                in_type: InFlag(InFlag::FILETIME),
                is_ref: false,
                primitive: false,
                opts: WellKnownTypeOptions {
                    out_type: None,
                    in_type_expr: None,
                    replacement_type: Some(WellKnownType::FileTime),
                    can_output_hex: false,
                },
            },
            WellKnownType::FileTime => WellKnownTypeInfo {
                shape: TypeShape::Value,
                code: WellKnownType::FileTime,
                in_type: InFlag(InFlag::FILETIME),
                is_ref: true,
                primitive: false,
                opts: WellKnownTypeOptions {
                    out_type: None,
                    in_type_expr: None,
                    replacement_type: None,
                    can_output_hex: false,
                },
            },
            WellKnownType::HResult => WellKnownTypeInfo {
                shape: TypeShape::Value,
                code: WellKnownType::HResult,
                in_type: InFlag(InFlag::INT32),
                is_ref: false,
                primitive: false,
                opts: WellKnownTypeOptions {
                    out_type: Some(OutFlag(OutFlag::HRESULT)),
                    in_type_expr: None,
                    replacement_type: Some(WellKnownType::I32),
                    can_output_hex: false,
                },
            },
            WellKnownType::Win32Error => WellKnownTypeInfo {
                shape: TypeShape::Value,
                code: WellKnownType::Win32Error,
                in_type: InFlag(InFlag::UINT32),
                is_ref: false,
                primitive: false,
                opts: WellKnownTypeOptions {
                    out_type: Some(OutFlag(OutFlag::WIN32ERROR)),
                    in_type_expr: None,
                    replacement_type: Some(WellKnownType::U32),
                    can_output_hex: false,
                },
            },
            WellKnownType::NtStatus => WellKnownTypeInfo {
                shape: TypeShape::Value,
                code: WellKnownType::NtStatus,
                in_type: InFlag(InFlag::UINT32),
                is_ref: false,
                primitive: false,
                opts: WellKnownTypeOptions {
                    out_type: Some(OutFlag(OutFlag::NTSTATUS)),
                    in_type_expr: None,
                    replacement_type: Some(WellKnownType::U32),
                    can_output_hex: false,
                },
            },
        }
    }

    /// How the type is encoded.
    pub fn get_info(self) -> (info: WellKnownTypeInfo)
        ensures
            info == self.info(),
    {
        match self {
            WellKnownType::Bool => WellKnownTypeInfo {
                shape: TypeShape::Value,
                code: WellKnownType::Bool,
                in_type: InFlag(InFlag::INT8),
                is_ref: false,
                primitive: true,
                opts: WellKnownTypeOptions {
                    out_type: Some(OutFlag(OutFlag::BOOLEAN)),
                    in_type_expr: None,
                    replacement_type: None,
                    can_output_hex: false,
                },
            },
            WellKnownType::U8 => WellKnownTypeInfo {
                shape: TypeShape::Value,
                code: WellKnownType::U8,
                in_type: InFlag(InFlag::UINT8),
                is_ref: false,
                primitive: true,
                opts: WellKnownTypeOptions {
                    out_type: None,
                    in_type_expr: None,
                    replacement_type: None,
                    can_output_hex: true,
                },
            },
            WellKnownType::U16 => WellKnownTypeInfo {
                shape: TypeShape::Value,
                code: WellKnownType::U16,
                in_type: InFlag(InFlag::UINT16),
                is_ref: false,
                primitive: true,
                opts: WellKnownTypeOptions {
                    out_type: None,
                    in_type_expr: None,
                    replacement_type: None,
                    can_output_hex: true,
                },
            },
            WellKnownType::U32 => WellKnownTypeInfo {
                shape: TypeShape::Value,
                code: WellKnownType::U32,
                in_type: InFlag(InFlag::UINT32),
                is_ref: false,
                primitive: true,
                opts: WellKnownTypeOptions {
                    out_type: None,
                    in_type_expr: None,
                    replacement_type: None,
                    can_output_hex: true,
                },
            },
            WellKnownType::U64 => WellKnownTypeInfo {
                shape: TypeShape::Value,
                code: WellKnownType::U64,
                in_type: InFlag(InFlag::UINT64),
                is_ref: false,
                primitive: true,
                opts: WellKnownTypeOptions {
                    out_type: None,
                    in_type_expr: None,
                    replacement_type: None,
                    can_output_hex: true,
                },
            },
            WellKnownType::I8 => WellKnownTypeInfo {
                shape: TypeShape::Value,
                code: WellKnownType::I8,
                in_type: InFlag(InFlag::INT8),
                is_ref: false,
                primitive: true,
                opts: WellKnownTypeOptions {
                    out_type: None,
                    in_type_expr: None,
                    replacement_type: None,
                    can_output_hex: true,
                },
            },
            WellKnownType::I16 => WellKnownTypeInfo {
                shape: TypeShape::Value,
                code: WellKnownType::I16,
                in_type: InFlag(InFlag::INT16),
                is_ref: false,
                primitive: true,
                opts: WellKnownTypeOptions {
                    out_type: None,
                    in_type_expr: None,
                    replacement_type: None,
                    can_output_hex: true,
                },
            },
            WellKnownType::I32 => WellKnownTypeInfo {
                shape: TypeShape::Value,
                code: WellKnownType::I32,
                in_type: InFlag(InFlag::INT32),
                is_ref: false,
                primitive: true,
                opts: WellKnownTypeOptions {
                    out_type: None,
                    in_type_expr: None,
                    replacement_type: None,
                    can_output_hex: true,
                },
            },
            WellKnownType::I64 => WellKnownTypeInfo {
                shape: TypeShape::Value,
                code: WellKnownType::I64,
                in_type: InFlag(InFlag::INT64),
                is_ref: false,
                primitive: true,
                opts: WellKnownTypeOptions {
                    out_type: None,
                    in_type_expr: None,
                    replacement_type: None,
                    can_output_hex: true,
                },
            },
            WellKnownType::Float => WellKnownTypeInfo {
                shape: TypeShape::Value,
                code: WellKnownType::Float,
                in_type: InFlag(InFlag::FLOAT),
                is_ref: false,
                primitive: true,
                opts: WellKnownTypeOptions {
                    out_type: None,
                    in_type_expr: None,
                    replacement_type: None,
                    can_output_hex: false,
                },
            },
            WellKnownType::Double => WellKnownTypeInfo {
                shape: TypeShape::Value,
                code: WellKnownType::Double,
                in_type: InFlag(InFlag::DOUBLE),
                is_ref: false,
                primitive: true,
                opts: WellKnownTypeOptions {
                    out_type: None,
                    in_type_expr: None,
                    replacement_type: None,
                    can_output_hex: false,
                },
            },
            WellKnownType::Usize => WellKnownTypeInfo {
                shape: TypeShape::Value,
                code: WellKnownType::Usize,
                in_type: InFlag(InFlag::NULL),
                is_ref: false,
                primitive: true,
                opts: WellKnownTypeOptions {
                    out_type: None,
                    in_type_expr: Some(InTypeExpr::Usize),
                    replacement_type: None,
                    can_output_hex: true,
                },
            },
            WellKnownType::Isize => WellKnownTypeInfo {
                shape: TypeShape::Value,
                code: WellKnownType::Isize,
                in_type: InFlag(InFlag::NULL),
                is_ref: false,
                primitive: true,
                opts: WellKnownTypeOptions {
                    out_type: None,
                    in_type_expr: Some(InTypeExpr::Isize),
                    replacement_type: None,
                    can_output_hex: true,
                },
            },
            WellKnownType::RefStr => WellKnownTypeInfo {
                shape: TypeShape::Ref,
                code: WellKnownType::RefStr,
                in_type: InFlag(InFlag::COUNTED_ANSI_STRING),
                is_ref: true,
                primitive: false,
                opts: WellKnownTypeOptions {
                    out_type: Some(OutFlag(OutFlag::UTF8)),
                    in_type_expr: None,
                    replacement_type: None,
                    can_output_hex: false,
                },
            },
            WellKnownType::U16CStr => WellKnownTypeInfo {
                shape: TypeShape::Ref,
                code: WellKnownType::U16CStr,
                in_type: InFlag(InFlag::COUNTED_UNICODE_STRING),
                is_ref: true,
                primitive: false,
                opts: WellKnownTypeOptions {
                    out_type: None,
                    in_type_expr: None,
                    replacement_type: None,
                    can_output_hex: false,
                },
            },
            WellKnownType::OsStr => WellKnownTypeInfo {
                shape: TypeShape::Ref,
                code: WellKnownType::OsStr,
                in_type: InFlag(InFlag::COUNTED_UNICODE_STRING),
                is_ref: true,
                primitive: false,
                opts: WellKnownTypeOptions {
                    out_type: None,
                    in_type_expr: None,
                    replacement_type: None,
                    can_output_hex: false,
                },
            },
            WellKnownType::Guid => WellKnownTypeInfo {
                shape: TypeShape::Ref,
                code: WellKnownType::Guid,
                in_type: InFlag(InFlag::GUID),
                is_ref: true,
                primitive: false,
                opts: WellKnownTypeOptions {
                    out_type: None,
                    in_type_expr: None,
                    replacement_type: None,
                    can_output_hex: false,
                },
            },
            WellKnownType::SocketAddrV4 => WellKnownTypeInfo {
                shape: TypeShape::Ref,
                code: WellKnownType::SocketAddrV4,
                in_type: InFlag(InFlag::BINARY),
                is_ref: false,
                primitive: false,
                opts: WellKnownTypeOptions {
                    out_type: Some(OutFlag(OutFlag::SOCKETADDRESS)),
                    in_type_expr: None,
                    replacement_type: None,
                    can_output_hex: false,
                },
            },
            WellKnownType::SocketAddrV6 => WellKnownTypeInfo {
                shape: TypeShape::Ref,
                code: WellKnownType::SocketAddrV6,
                in_type: InFlag(InFlag::BINARY),
                is_ref: false,
                primitive: false,
                opts: WellKnownTypeOptions {
                    out_type: Some(OutFlag(OutFlag::SOCKETADDRESS)),
                    in_type_expr: None,
                    replacement_type: None,
                    can_output_hex: false,
                },
            },
            WellKnownType::SocketAddr => WellKnownTypeInfo {
                shape: TypeShape::Ref,
                code: WellKnownType::SocketAddr,
                in_type: InFlag(InFlag::BINARY),
                is_ref: false,
                primitive: false,
                opts: WellKnownTypeOptions {
                    out_type: Some(OutFlag(OutFlag::SOCKETADDRESS)),
                    in_type_expr: None,
                    replacement_type: None,
                    can_output_hex: false,
                },
            },
            WellKnownType::SystemTime => WellKnownTypeInfo {
                shape: TypeShape::Value,
                code: WellKnownType::SystemTime,
                in_type: InFlag(InFlag::FILETIME),
                is_ref: false,
                primitive: false,
                opts: WellKnownTypeOptions {
                    out_type: None,
                    in_type_expr: None,
                    replacement_type: Some(WellKnownType::FileTime),
                    can_output_hex: false,
                },
            },
            WellKnownType::FileTime => WellKnownTypeInfo {
                shape: TypeShape::Value,
                code: WellKnownType::FileTime,
                in_type: InFlag(InFlag::FILETIME),
                is_ref: true,
                primitive: false,
                opts: WellKnownTypeOptions {
                    out_type: None,
                    in_type_expr: None,
                    replacement_type: None,
                    can_output_hex: false,
                },
            },
            WellKnownType::HResult => WellKnownTypeInfo {
                shape: TypeShape::Value,
                code: WellKnownType::HResult,
                in_type: InFlag(InFlag::INT32),
                is_ref: false,
                primitive: false,
                opts: WellKnownTypeOptions {
                    out_type: Some(OutFlag(OutFlag::HRESULT)),
                    in_type_expr: None,
                    replacement_type: Some(WellKnownType::I32),
                    can_output_hex: false,
                },
            },
            WellKnownType::Win32Error => WellKnownTypeInfo {
                shape: TypeShape::Value,
                code: WellKnownType::Win32Error,
                in_type: InFlag(InFlag::UINT32),
                is_ref: false,
                primitive: false,
                opts: WellKnownTypeOptions {
                    out_type: Some(OutFlag(OutFlag::WIN32ERROR)),
                    in_type_expr: None,
                    replacement_type: Some(WellKnownType::U32),
                    can_output_hex: false,
                },
            },
            WellKnownType::NtStatus => WellKnownTypeInfo {
                shape: TypeShape::Value,
                code: WellKnownType::NtStatus,
                in_type: InFlag(InFlag::UINT32),
                is_ref: false,
                primitive: false,
                opts: WellKnownTypeOptions {
                    out_type: Some(OutFlag(OutFlag::NTSTATUS)),
                    in_type_expr: None,
                    replacement_type: Some(WellKnownType::U32),
                    can_output_hex: false,
                },
            },
        }
    }
}

/// The well-known type that a declaration names by an identifier in a shape.
pub open spec fn well_known(ty: DeclaredTypeView) -> Option<WellKnownType> {
    if ty.shape == TypeShape::Value && ty.name == "bool"@ {
        Some(WellKnownType::Bool)
    } else if ty.shape == TypeShape::Value && ty.name == "u8"@ {
        Some(WellKnownType::U8)
    } else if ty.shape == TypeShape::Value && ty.name == "u16"@ {
        Some(WellKnownType::U16)
    } else if ty.shape == TypeShape::Value && ty.name == "u32"@ {
        Some(WellKnownType::U32)
    } else if ty.shape == TypeShape::Value && ty.name == "u64"@ {
        Some(WellKnownType::U64)
    } else if ty.shape == TypeShape::Value && ty.name == "i8"@ {
        Some(WellKnownType::I8)
    } else if ty.shape == TypeShape::Value && ty.name == "i16"@ {
        Some(WellKnownType::I16)
    } else if ty.shape == TypeShape::Value && ty.name == "i32"@ {
        Some(WellKnownType::I32)
    } else if ty.shape == TypeShape::Value && ty.name == "i64"@ {
        Some(WellKnownType::I64)
    } else if ty.shape == TypeShape::Value && ty.name == "f32"@ {
        Some(WellKnownType::Float)
    } else if ty.shape == TypeShape::Value && ty.name == "f64"@ {
        Some(WellKnownType::Double)
    } else if ty.shape == TypeShape::Value && ty.name == "usize"@ {
        Some(WellKnownType::Usize)
    } else if ty.shape == TypeShape::Value && ty.name == "isize"@ {
        Some(WellKnownType::Isize)
    } else if ty.shape == TypeShape::Ref && ty.name == "str"@ {
        Some(WellKnownType::RefStr)
    } else if ty.shape == TypeShape::Ref && ty.name == "U16CStr"@ {
        Some(WellKnownType::U16CStr)
    } else if ty.shape == TypeShape::Ref && ty.name == "OsStr"@ {
        Some(WellKnownType::OsStr)
    } else if ty.shape == TypeShape::Ref && ty.name == "GUID"@ {
        Some(WellKnownType::Guid)
    } else if ty.shape == TypeShape::Ref && ty.name == "SocketAddrV4"@ {
        Some(WellKnownType::SocketAddrV4)
    } else if ty.shape == TypeShape::Ref && ty.name == "SocketAddrV6"@ {
        Some(WellKnownType::SocketAddrV6)
    } else if ty.shape == TypeShape::Ref && ty.name == "SocketAddr"@ {
        Some(WellKnownType::SocketAddr)
    } else if ty.shape == TypeShape::Value && ty.name == "SystemTime"@ {
        Some(WellKnownType::SystemTime)
    } else if ty.shape == TypeShape::Value && ty.name == "FILETIME"@ {
        Some(WellKnownType::FileTime)
    } else if ty.shape == TypeShape::Value && ty.name == "HRESULT"@ {
        Some(WellKnownType::HResult)
    } else if ty.shape == TypeShape::Value && ty.name == "WIN32ERROR"@ {
        Some(WellKnownType::Win32Error)
    } else if ty.shape == TypeShape::Value && ty.name == "NTSTATUS"@ {
        Some(WellKnownType::NtStatus)
    } else {
        None
    }
}

/// The registry of the well-known types.
#[derive(Copy, Clone, Debug)]
pub struct WellKnownTypes;

impl WellKnownTypes {
    /// The registry.
    pub fn new() -> (types: WellKnownTypes) {
        WellKnownTypes
    }

    /// Looks up a declared type. The type is found where its shape and its
    /// identifier are those of an entry of the registry.
    pub fn find(&self, ty: &DeclaredType) -> (found: Option<WellKnownTypeInfo>)
        ensures
            found == match well_known(ty@) {
                Some(code) => Some(code.info()),
                None => None,
            },
    {
        let name = ty.name.as_str();
        match ty.shape {
            TypeShape::Value => {
                if str_eq(name, "bool") {
                    Some(WellKnownType::Bool.get_info())
                } else if str_eq(name, "u8") {
                    Some(WellKnownType::U8.get_info())
                } else if str_eq(name, "u16") {
                    Some(WellKnownType::U16.get_info())
                } else if str_eq(name, "u32") {
                    Some(WellKnownType::U32.get_info())
                } else if str_eq(name, "u64") {
                    Some(WellKnownType::U64.get_info())
                } else if str_eq(name, "i8") {
                    Some(WellKnownType::I8.get_info())
                } else if str_eq(name, "i16") {
                    Some(WellKnownType::I16.get_info())
                } else if str_eq(name, "i32") {
                    Some(WellKnownType::I32.get_info())
                } else if str_eq(name, "i64") {
                    Some(WellKnownType::I64.get_info())
                } else if str_eq(name, "f32") {
                    Some(WellKnownType::Float.get_info())
                } else if str_eq(name, "f64") {
                    Some(WellKnownType::Double.get_info())
                } else if str_eq(name, "usize") {
                    Some(WellKnownType::Usize.get_info())
                } else if str_eq(name, "isize") {
                    Some(WellKnownType::Isize.get_info())
                } else if str_eq(name, "SystemTime") {
                    Some(WellKnownType::SystemTime.get_info())
                } else if str_eq(name, "FILETIME") {
                    Some(WellKnownType::FileTime.get_info())
                } else if str_eq(name, "HRESULT") {
                    Some(WellKnownType::HResult.get_info())
                } else if str_eq(name, "WIN32ERROR") {
                    Some(WellKnownType::Win32Error.get_info())
                } else if str_eq(name, "NTSTATUS") {
                    Some(WellKnownType::NtStatus.get_info())
                } else {
                    None
                }
            },
            TypeShape::Ref => {
                if str_eq(name, "str") {
                    Some(WellKnownType::RefStr.get_info())
                } else if str_eq(name, "U16CStr") {
                    Some(WellKnownType::U16CStr.get_info())
                } else if str_eq(name, "OsStr") {
                    Some(WellKnownType::OsStr.get_info())
                } else if str_eq(name, "GUID") {
                    Some(WellKnownType::Guid.get_info())
                } else if str_eq(name, "SocketAddrV4") {
                    Some(WellKnownType::SocketAddrV4.get_info())
                } else if str_eq(name, "SocketAddrV6") {
                    Some(WellKnownType::SocketAddrV6.get_info())
                } else if str_eq(name, "SocketAddr") {
                    Some(WellKnownType::SocketAddr.get_info())
                } else {
                    None
                }
            },
            TypeShape::RefSlice => None,
            TypeShape::Other => None,
        }
    }
}

/// Every well-known type is found under its own shape and identifier.
pub proof fn every_type_is_found(code: WellKnownType)
    ensures
        well_known(DeclaredTypeView { shape: code.info().shape, name: code.name() }) == Some(code),
{
    // Two identifiers of one shape differ in their length or in a character.
    reveal_strlit("bool");
    reveal_strlit("u8");
    reveal_strlit("u16");
    reveal_strlit("u32");
    reveal_strlit("u64");
    reveal_strlit("i8");
    reveal_strlit("i16");
    reveal_strlit("i32");
    reveal_strlit("i64");
    reveal_strlit("f32");
    reveal_strlit("f64");
    reveal_strlit("usize");
    reveal_strlit("isize");
    reveal_strlit("str");
    reveal_strlit("U16CStr");
    reveal_strlit("OsStr");
    reveal_strlit("GUID");
    reveal_strlit("SocketAddrV4");
    reveal_strlit("SocketAddrV6");
    reveal_strlit("SocketAddr");
    reveal_strlit("SystemTime");
    reveal_strlit("FILETIME");
    reveal_strlit("HRESULT");
    reveal_strlit("WIN32ERROR");
    reveal_strlit("NTSTATUS");
    assert("bool"@.len() == 4);
    assert("u8"@.len() == 2);
    assert("u16"@.len() == 3);
    assert("u32"@.len() == 3);
    assert("u64"@.len() == 3);
    assert("i8"@.len() == 2);
    assert("i16"@.len() == 3);
    assert("i32"@.len() == 3);
    assert("i64"@.len() == 3);
    assert("f32"@.len() == 3);
    assert("f64"@.len() == 3);
    assert("usize"@.len() == 5);
    assert("isize"@.len() == 5);
    assert("str"@.len() == 3);
    assert("U16CStr"@.len() == 7);
    assert("OsStr"@.len() == 5);
    assert("GUID"@.len() == 4);
    assert("SocketAddrV4"@.len() == 12);
    assert("SocketAddrV6"@.len() == 12);
    assert("SocketAddr"@.len() == 10);
    assert("SystemTime"@.len() == 10);
    assert("FILETIME"@.len() == 8);
    assert("HRESULT"@.len() == 7);
    assert("WIN32ERROR"@.len() == 10);
    assert("NTSTATUS"@.len() == 8);
    assert("u8"@[0] != "i8"@[0]);
    assert("u16"@[1] != "u32"@[1]);
    assert("u16"@[1] != "u64"@[1]);
    assert("u16"@[0] != "i16"@[0]);
    assert("u16"@[0] != "i32"@[0]);
    assert("u16"@[0] != "i64"@[0]);
    assert("u16"@[0] != "f32"@[0]);
    assert("u16"@[0] != "f64"@[0]);
    assert("u32"@[1] != "u64"@[1]);
    assert("u32"@[0] != "i16"@[0]);
    assert("u32"@[0] != "i32"@[0]);
    assert("u32"@[0] != "i64"@[0]);
    assert("u32"@[0] != "f32"@[0]);
    assert("u32"@[0] != "f64"@[0]);
    assert("u64"@[0] != "i16"@[0]);
    assert("u64"@[0] != "i32"@[0]);
    assert("u64"@[0] != "i64"@[0]);
    assert("u64"@[0] != "f32"@[0]);
    assert("u64"@[0] != "f64"@[0]);
    assert("i16"@[1] != "i32"@[1]);
    assert("i16"@[1] != "i64"@[1]);
    assert("i16"@[0] != "f32"@[0]);
    assert("i16"@[0] != "f64"@[0]);
    assert("i32"@[1] != "i64"@[1]);
    assert("i32"@[0] != "f32"@[0]);
    assert("i32"@[0] != "f64"@[0]);
    assert("i64"@[0] != "f32"@[0]);
    assert("i64"@[0] != "f64"@[0]);
    assert("f32"@[1] != "f64"@[1]);
    assert("usize"@[0] != "isize"@[0]);
    assert("SystemTime"@[0] != "WIN32ERROR"@[0]);
    assert("FILETIME"@[0] != "NTSTATUS"@[0]);
    assert("SocketAddrV4"@[11] != "SocketAddrV6"@[11]);
}

} // verus!
