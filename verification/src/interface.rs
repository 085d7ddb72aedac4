//! Safe tagged value model and the host-facing component surface.
//!
//! `ParamValue` is the internal representation of every value the host can
//! exchange with a component; `ParamValues` carries a method's argument list;
//! `AddInWrapper` is the surface a hosted component presents to the platform.
//!
//! Strings travel as UTF-16 code units, ANSI strings and blobs as bytes, and
//! floating-point values (`F32`, `F64`, `DateDouble`) as their IEEE-754 bit
//! patterns, which keeps marshaling bit-exact.

use vstd::prelude::*;

use crate::errors::NativeApiError;
use crate::ffi::connection::Connection;
use crate::ffi::provided_types::Tm;

verus! {

/// A safe tagged value, exactly one active variant.
#[derive(Debug, Clone, PartialEq)]
pub enum ParamValue {
    Empty,
    Null,
    Bool(bool),
    I8(i8),
    I16(i16),
    I32(i32),
    I64(i64),
    U8(u8),
    U16(u16),
    U32(u32),
    U64(u64),
    /// IEEE-754 bit pattern of a 32-bit float.
    F32(u32),
    /// IEEE-754 bit pattern of a 64-bit float.
    F64(u64),
    /// Calendar date and time.
    Date(Tm),
    /// IEEE-754 bit pattern of a serial-date double.
    DateDouble(u64),
    /// UTF-16 code units, no terminator.
    String(Vec<u16>),
    /// Bytes in the host's ANSI code page.
    AnsiString(Vec<u8>),
    /// Raw bytes.
    Blob(Vec<u8>),
    /// Host error code.
    Error(i32),
    /// Host HRESULT code.
    HResult(i32),
    /// 16-byte class identifier.
    ClsId([u8; 16]),
}

/// Mathematical model of a `ParamValue`: variable-length payloads as
/// sequences.  Contracts compare values at this level, where equality is
/// content equality.
pub enum ValueModel {
    Empty,
    Null,
    Bool(bool),
    I8(i8),
    I16(i16),
    I32(i32),
    I64(i64),
    U8(u8),
    U16(u16),
    U32(u32),
    U64(u64),
    F32(u32),
    F64(u64),
    Date(Tm),
    DateDouble(u64),
    String(Seq<u16>),
    AnsiString(Seq<u8>),
    Blob(Seq<u8>),
    Error(i32),
    HResult(i32),
    ClsId(Seq<u8>),
}

impl View for ParamValue {
    type V = ValueModel;

    open spec fn view(&self) -> ValueModel {
        match self {
            ParamValue::Empty => ValueModel::Empty,
            ParamValue::Null => ValueModel::Null,
            ParamValue::Bool(v) => ValueModel::Bool(*v),
            ParamValue::I8(v) => ValueModel::I8(*v),
            ParamValue::I16(v) => ValueModel::I16(*v),
            ParamValue::I32(v) => ValueModel::I32(*v),
            ParamValue::I64(v) => ValueModel::I64(*v),
            ParamValue::U8(v) => ValueModel::U8(*v),
            ParamValue::U16(v) => ValueModel::U16(*v),
            ParamValue::U32(v) => ValueModel::U32(*v),
            ParamValue::U64(v) => ValueModel::U64(*v),
            ParamValue::F32(v) => ValueModel::F32(*v),
            ParamValue::F64(v) => ValueModel::F64(*v),
            ParamValue::Date(v) => ValueModel::Date(*v),
            ParamValue::DateDouble(v) => ValueModel::DateDouble(*v),
            ParamValue::String(v) => ValueModel::String(v@),
            ParamValue::AnsiString(v) => ValueModel::AnsiString(v@),
            ParamValue::Blob(v) => ValueModel::Blob(v@),
            ParamValue::Error(v) => ValueModel::Error(*v),
            ParamValue::HResult(v) => ValueModel::HResult(*v),
            ParamValue::ClsId(v) => ValueModel::ClsId(v@),
        }
    }
}

impl DeepView for ParamValue {
    type V = ValueModel;

    open spec fn deep_view(&self) -> ValueModel {
        self.view()
    }
}

/// A fresh copy of a list of plain values.
pub(crate) fn copy_plain<T: Copy>(v: &Vec<T>) -> (r: Vec<T>)
    ensures
        r@ == v@,
{
    let mut r: Vec<T> = Vec::new();
    let mut i: usize = 0;
    while i < v.len()
        invariant
            i <= v@.len(),
            r@ =~= v@.subrange(0, i as int),
        decreases v@.len() - i,
    {
        r.push(v[i]);
        i = i + 1;
    }
    assert(r@ =~= v@);
    r
}

impl ParamValue {
    /// A copy of this value, equal at the model level.
    pub fn duplicate(&self) -> (r: ParamValue)
        ensures
            r@ == self@,
    {
        match self {
            ParamValue::Empty => ParamValue::Empty,
            ParamValue::Null => ParamValue::Null,
            ParamValue::Bool(v) => ParamValue::Bool(*v),
            ParamValue::I8(v) => ParamValue::I8(*v),
            ParamValue::I16(v) => ParamValue::I16(*v),
            ParamValue::I32(v) => ParamValue::I32(*v),
            ParamValue::I64(v) => ParamValue::I64(*v),
            ParamValue::U8(v) => ParamValue::U8(*v),
            ParamValue::U16(v) => ParamValue::U16(*v),
            ParamValue::U32(v) => ParamValue::U32(*v),
            ParamValue::U64(v) => ParamValue::U64(*v),
            ParamValue::F32(v) => ParamValue::F32(*v),
            ParamValue::F64(v) => ParamValue::F64(*v),
            ParamValue::Date(v) => ParamValue::Date(*v),
            ParamValue::DateDouble(v) => ParamValue::DateDouble(*v),
            ParamValue::String(v) => ParamValue::String(copy_plain(v)),
            ParamValue::AnsiString(v) => ParamValue::AnsiString(copy_plain(v)),
            ParamValue::Blob(v) => ParamValue::Blob(copy_plain(v)),
            ParamValue::Error(v) => ParamValue::Error(*v),
            ParamValue::HResult(v) => ParamValue::HResult(*v),
            ParamValue::ClsId(v) => ParamValue::ClsId(*v),
        }
    }

    /// Replaces this value with `Bool(v)`.
    pub fn set_bool(&mut self, v: bool)
        ensures
            final(self)@ == ValueModel::Bool(v),
    {
        *self = ParamValue::Bool(v);
    }

    /// Replaces this value with `I32(v)`.
    pub fn set_i32(&mut self, v: i32)
        ensures
            final(self)@ == ValueModel::I32(v),
    {
        *self = ParamValue::I32(v);
    }

    /// Replaces this value with `F64` carrying this bit pattern.
    pub fn set_f64(&mut self, bits: u64)
        ensures
            final(self)@ == ValueModel::F64(bits),
    {
        *self = ParamValue::F64(bits);
    }

    /// Replaces this value with `String(v)`.
    pub fn set_str(&mut self, v: Vec<u16>)
        ensures
            final(self)@ == ValueModel::String(v@),
    {
        *self = ParamValue::String(v);
    }

    /// Replaces this value with `Blob(v)`.
    pub fn set_blob(&mut self, v: Vec<u8>)
        ensures
            final(self)@ == ValueModel::Blob(v@),
    {
        *self = ParamValue::Blob(v);
    }

    /// Replaces this value with `Date(v)`.
    pub fn set_date(&mut self, v: Tm)
        ensures
            final(self)@ == ValueModel::Date(v),
    {
        *self = ParamValue::Date(v);
    }
}

/// Ordered argument list of a method call.
#[derive(Debug, Clone, PartialEq)]
pub struct ParamValues {
    values: Vec<ParamValue>,
}

impl View for ParamValues {
    type V = Seq<ValueModel>;

    closed spec fn view(&self) -> Seq<ValueModel> {
        self.values.deep_view()
    }
}

impl ParamValues {
    /// Wraps a list of values.
    pub fn new(values: Vec<ParamValue>) -> (r: Self)
        ensures
            r@ == values.deep_view(),
    {
        ParamValues { values }
    }

    /// Number of values.
    pub fn len(&self) -> (r: usize)
        ensures
            r == self@.len(),
    {
        self.values.len()
    }

    /// Whether the list holds no value.
    pub fn is_empty(&self) -> (r: bool)
        ensures
            r == (self@.len() == 0),
    {
        self.values.is_empty()
    }

    /// The value at `index`.
    pub fn get(&self, index: usize) -> (r: &ParamValue)
        requires
            index < self@.len(),
        ensures
            r@ == self@[index as int],
    {
        &self.values[index]
    }

    /// Replaces the value at `index`.
    pub fn set(&mut self, index: usize, value: ParamValue)
        requires
            index < old(self)@.len(),
        ensures
            final(self)@ == old(self)@.update(index as int, value@),
    {
        self.values.set(index, value);
    }

    /// The values as a borrowed list.
    pub fn as_vec(&self) -> (r: &Vec<ParamValue>)
        ensures
            r.deep_view() == self@,
    {
        &self.values
    }

    /// The values, giving up the wrapper.
    pub fn into_vec(self) -> (r: Vec<ParamValue>)
        ensures
            r.deep_view() == self@,
    {
        self.values
    }
}

/// Surface a hosted component presents to the platform: registration,
/// property and method enumeration, and routed read/write/invoke calls.
///
/// Implementations are user-supplied; the dispatch protocol's `Dispatcher`
/// implements it on top of descriptor tables with verified contracts on its
/// own operations.
pub trait AddInWrapper {
    /// Accepts the host connection; returns false to refuse initialization.
    fn init(&mut self, interface: &'static Connection) -> bool;

    /// Ends the session.
    fn done(&mut self);

    /// Name under which the component registers, as UTF-16 code units.
    fn register_extension_as(&mut self) -> &[u16];

    fn get_n_props(&self) -> usize;

    fn find_prop(&self, name: &[u16]) -> Option<usize>;

    fn get_prop_name(&self, num: usize, alias: usize) -> Option<Vec<u16>>;

    fn get_prop_val(&self, num: usize) -> Result<ParamValue, NativeApiError>;

    fn set_prop_val(&mut self, num: usize, val: ParamValue) -> Result<(), NativeApiError>;

    fn is_prop_readable(&self, num: usize) -> bool;

    fn is_prop_writable(&self, num: usize) -> bool;

    fn get_n_methods(&self) -> usize;

    fn find_method(&self, name: &[u16]) -> Option<usize>;

    fn get_method_name(&self, num: usize, alias: usize) -> Option<Vec<u16>>;

    fn get_n_params(&self, method_num: usize) -> usize;

    fn get_param_def_value(&self, method_num: usize, param_num: usize) -> Option<ParamValue>;

    fn has_ret_val(&self, method_num: usize) -> bool;

    fn call_as_proc(&mut self, method_num: usize, params: &mut ParamValues) -> Result<
        (),
        NativeApiError,
    >;

    fn call_as_func(&mut self, method_num: usize, params: &mut ParamValues) -> Result<
        ParamValue,
        NativeApiError,
    >;

    /// Locale hook; may be a no-op.
    fn set_locale(&mut self, loc: &[u16]);

    /// UI language hook; may be a no-op.
    fn set_user_interface_language_code(&mut self, lang: &[u16]);
}

} // verus!
