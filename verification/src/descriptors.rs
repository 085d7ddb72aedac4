//! Descriptor vocabulary: the platform types a property, parameter or
//! return value may carry, and the declarative names they are written under
//! in component descriptions.

use vstd::prelude::*;

verus! {

pub const BOOL_TYPE: &'static str = "Bool";

pub const I32_TYPE: &'static str = "Int";

pub const F64_TYPE: &'static str = "Float";

pub const STRING_TYPE: &'static str = "Str";

pub const DATE_TYPE: &'static str = "Date";

pub const BLOB_TYPE: &'static str = "Blob";

pub const UNTYPED_TYPE: &'static str = "None";

pub const NULL_TYPE: &'static str = "Null";

pub const I8_TYPE: &'static str = "I8";

pub const I16_TYPE: &'static str = "I16";

pub const I64_TYPE: &'static str = "I64";

pub const U8_TYPE: &'static str = "U8";

pub const U16_TYPE: &'static str = "U16";

pub const U32_TYPE: &'static str = "U32";

pub const U64_TYPE: &'static str = "U64";

pub const F32_TYPE: &'static str = "F32";

pub const DATE_DOUBLE_TYPE: &'static str = "DateDouble";

pub const ANSI_STRING_TYPE: &'static str = "AnsiStr";

pub const ERROR_TYPE: &'static str = "Error";

pub const HRESULT_TYPE: &'static str = "HResult";

pub const CLS_ID_TYPE: &'static str = "ClsId";

/// Platform type of a property, parameter or return value.
#[derive(Debug, Clone, Copy, PartialEq, Eq, Structural)]
pub enum ParamType {
    Bool,
    I32,
    F64,
    String,
    Date,
    Blob,
    Null,
    I8,
    I16,
    I64,
    U8,
    U16,
    U32,
    U64,
    F32,
    DateDouble,
    AnsiString,
    Error,
    HResult,
    ClsId,
}

/// The declarative name of a platform type.
pub open spec fn declared_name_spec(t: ParamType) -> Seq<char> {
    match t {
        ParamType::Bool => "Bool"@,
        ParamType::I32 => "Int"@,
        ParamType::F64 => "Float"@,
        ParamType::String => "Str"@,
        ParamType::Date => "Date"@,
        ParamType::Blob => "Blob"@,
        ParamType::Null => "Null"@,
        ParamType::I8 => "I8"@,
        ParamType::I16 => "I16"@,
        ParamType::I64 => "I64"@,
        ParamType::U8 => "U8"@,
        ParamType::U16 => "U16"@,
        ParamType::U32 => "U32"@,
        ParamType::U64 => "U64"@,
        ParamType::F32 => "F32"@,
        ParamType::DateDouble => "DateDouble"@,
        ParamType::AnsiString => "AnsiStr"@,
        ParamType::Error => "Error"@,
        ParamType::HResult => "HResult"@,
        ParamType::ClsId => "ClsId"@,
    }
}

/// The platform type a declarative name denotes, if any.
pub open spec fn param_type_of_name(s: Seq<char>) -> Option<ParamType> {
    if s == "Bool"@ {
        Some(ParamType::Bool)
    } else if s == "Int"@ {
        Some(ParamType::I32)
    } else if s == "Float"@ {
        Some(ParamType::F64)
    } else if s == "Str"@ {
        Some(ParamType::String)
    } else if s == "Date"@ {
        Some(ParamType::Date)
    } else if s == "Blob"@ {
        Some(ParamType::Blob)
    } else if s == "Null"@ {
        Some(ParamType::Null)
    } else if s == "I8"@ {
        Some(ParamType::I8)
    } else if s == "I16"@ {
        Some(ParamType::I16)
    } else if s == "I64"@ {
        Some(ParamType::I64)
    } else if s == "U8"@ {
        Some(ParamType::U8)
    } else if s == "U16"@ {
        Some(ParamType::U16)
    } else if s == "U32"@ {
        Some(ParamType::U32)
    } else if s == "U64"@ {
        Some(ParamType::U64)
    } else if s == "F32"@ {
        Some(ParamType::F32)
    } else if s == "DateDouble"@ {
        Some(ParamType::DateDouble)
    } else if s == "AnsiStr"@ {
        Some(ParamType::AnsiString)
    } else if s == "Error"@ {
        Some(ParamType::Error)
    } else if s == "HResult"@ {
        Some(ParamType::HResult)
    } else if s == "ClsId"@ {
        Some(ParamType::ClsId)
    } else {
        None
    }
}

/// Relies on str's PartialEq: equality of the character sequences.
#[verifier::external_body]
fn str_eq(a: &str, b: &str) -> (r: bool)
    ensures
        r == (a@ == b@),
{
    a == b
}

impl ParamType {
    /// The declarative name of this type.
    pub fn declared_name(&self) -> (r: &'static str)
        ensures
            r@ == declared_name_spec(*self),
    {
        match self {
            ParamType::Bool => BOOL_TYPE,
            ParamType::I32 => I32_TYPE,
            ParamType::F64 => F64_TYPE,
            ParamType::String => STRING_TYPE,
            ParamType::Date => DATE_TYPE,
            ParamType::Blob => BLOB_TYPE,
            ParamType::Null => NULL_TYPE,
            ParamType::I8 => I8_TYPE,
            ParamType::I16 => I16_TYPE,
            ParamType::I64 => I64_TYPE,
            ParamType::U8 => U8_TYPE,
            ParamType::U16 => U16_TYPE,
            ParamType::U32 => U32_TYPE,
            ParamType::U64 => U64_TYPE,
            ParamType::F32 => F32_TYPE,
            ParamType::DateDouble => DATE_DOUBLE_TYPE,
            ParamType::AnsiString => ANSI_STRING_TYPE,
            ParamType::Error => ERROR_TYPE,
            ParamType::HResult => HRESULT_TYPE,
            ParamType::ClsId => CLS_ID_TYPE,
        }
    }

    /// Parses a declarative type name; `None` for unknown names.
    pub fn from_type_name(value: &str) -> (r: Option<ParamType>)
        ensures
            r == param_type_of_name(value@),
    {
        if str_eq(value, BOOL_TYPE) {
            Some(ParamType::Bool)
        } else if str_eq(value, I32_TYPE) {
            Some(ParamType::I32)
        } else if str_eq(value, F64_TYPE) {
            Some(ParamType::F64)
        } else if str_eq(value, STRING_TYPE) {
            Some(ParamType::String)
        } else if str_eq(value, DATE_TYPE) {
            Some(ParamType::Date)
        } else if str_eq(value, BLOB_TYPE) {
            Some(ParamType::Blob)
        } else if str_eq(value, NULL_TYPE) {
            Some(ParamType::Null)
        } else if str_eq(value, I8_TYPE) {
            Some(ParamType::I8)
        } else if str_eq(value, I16_TYPE) {
            Some(ParamType::I16)
        } else if str_eq(value, I64_TYPE) {
            Some(ParamType::I64)
        } else if str_eq(value, U8_TYPE) {
            Some(ParamType::U8)
        } else if str_eq(value, U16_TYPE) {
            Some(ParamType::U16)
        } else if str_eq(value, U32_TYPE) {
            Some(ParamType::U32)
        } else if str_eq(value, U64_TYPE) {
            Some(ParamType::U64)
        } else if str_eq(value, F32_TYPE) {
            Some(ParamType::F32)
        } else if str_eq(value, DATE_DOUBLE_TYPE) {
            Some(ParamType::DateDouble)
        } else if str_eq(value, ANSI_STRING_TYPE) {
            Some(ParamType::AnsiString)
        } else if str_eq(value, ERROR_TYPE) {
            Some(ParamType::Error)
        } else if str_eq(value, HRESULT_TYPE) {
            Some(ParamType::HResult)
        } else if str_eq(value, CLS_ID_TYPE) {
            Some(ParamType::ClsId)
        } else {
            None
        }
    }
}

/// Type of a method parameter in a declarative description: the receiver
/// itself, or a platform value type.
#[derive(Debug, Clone, Copy, PartialEq, Eq, Structural)]
pub enum FuncParamType {
    SelfType,
    PlatformType(ParamType),
}

impl FuncParamType {
    /// Parses a declarative type name; `None` for unknown names.  The
    /// receiver type has no declarative name.
    pub fn from_type_name(value: &str) -> (r: Option<FuncParamType>)
        ensures
            r == match param_type_of_name(value@) {
                Some(t) => Some(FuncParamType::PlatformType(t)),
                None => None::<FuncParamType>,
            },
    {
        match ParamType::from_type_name(value) {
            Some(t) => Some(FuncParamType::PlatformType(t)),
            None => None,
        }
    }

    /// Whether this parameter is the receiver.
    pub fn is_self(&self) -> (r: bool)
        ensures
            r == (*self is SelfType),
    {
        matches!(self, FuncParamType::SelfType)
    }
}

/// Declared return type of a method: a platform type or none, and whether
/// the declaration wraps it in a fallible result.
#[derive(Debug, Clone, Copy, PartialEq, Eq, Structural)]
pub struct ReturnTypeDesc {
    pub ty: Option<ParamType>,
    pub result: bool,
}

/// Whether a collector has any data to work on.
pub fn has_data<T>(data: &[T]) -> (r: bool)
    ensures
        r == (data@.len() > 0),
{
    data.len() > 0
}

} // verus!
