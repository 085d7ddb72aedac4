//! Safe wrappers around the wire variant record.
//!
//! `SafeVariant` owns one record and offers typed accessors that check the
//! tag before reading a payload field, so no read ever crosses a mismatched
//! tag.  It covers the inline payloads; buffer-backed payloads (strings and
//! blobs) need the memory manager gateway and are served by the marshaling
//! engine in `ffi::provided_types`.

use vstd::pervasive::VecAdditionalExecFns;
use vstd::prelude::*;
use vstd::string::StringExecFns;

use crate::errors::{NativeApiError, TypeConversionError};
use crate::ffi::provided_types::{
    decode_scalar_model, empty_variant, encode_scalar_slot, TVariant, VariantType, VariantValue,
};
use crate::interface::{ParamValue, ValueModel};

verus! {

/// A safely accessed wire variant record.
#[derive(Debug, Clone, Copy)]
pub struct SafeVariant {
    inner: TVariant,
}

impl View for SafeVariant {
    type V = TVariant;

    closed spec fn view(&self) -> TVariant {
        self.inner
    }
}

impl DeepView for SafeVariant {
    type V = TVariant;

    open spec fn deep_view(&self) -> TVariant {
        self.view()
    }
}

impl SafeVariant {
    /// A new, empty variant.
    pub fn new() -> (r: Self)
        ensures
            r@ == empty_variant(),
    {
        SafeVariant { inner: TVariant::default() }
    }

    /// Wraps an existing record.
    pub fn from_tvariant(tvariant: TVariant) -> (r: Self)
        ensures
            r@ == tvariant,
    {
        SafeVariant { inner: tvariant }
    }

    /// Gives the record up.
    pub fn into_tvariant(self) -> (r: TVariant)
        ensures
            r == self@,
    {
        self.inner
    }

    /// Borrows the record.
    pub fn as_tvariant(&self) -> (r: &TVariant)
        ensures
            *r == self@,
    {
        &self.inner
    }

    /// Borrows the record mutably.
    pub fn as_tvariant_mut(&mut self) -> (r: &mut TVariant)
        ensures
            *r == old(self)@,
            final(self)@ == *final(r),
    {
        &mut self.inner
    }

    /// The record's current tag.
    pub fn get_type(&self) -> (r: VariantType)
        ensures
            r == self@.vt,
    {
        self.inner.vt
    }

    /// Whether the record is `Empty`.
    pub fn is_empty(&self) -> (r: bool)
        ensures
            r == (self@.vt is Empty),
    {
        matches!(self.inner.vt, VariantType::Empty)
    }

    /// Whether the record is `Null`.
    pub fn is_null(&self) -> (r: bool)
        ensures
            r == (self@.vt is Null),
    {
        matches!(self.inner.vt, VariantType::Null)
    }

    /// Retags the record `Null`.
    pub fn set_null(&mut self)
        ensures
            final(self)@ == (TVariant { vt: VariantType::Null, ..old(self)@ }),
    {
        self.inner.update_to_null();
    }

    /// Retags the record `Empty`.
    pub fn set_empty(&mut self)
        ensures
            final(self)@ == (TVariant { vt: VariantType::Empty, ..old(self)@ }),
    {
        self.inner.vt = VariantType::Empty;
    }

    /// Stores a boolean.
    pub fn set_bool(&mut self, value: bool)
        ensures
            final(self)@ == encode_scalar_slot(old(self)@, ValueModel::Bool(value)),
    {
        self.inner.update_to_bool(value);
    }

    /// Reads the boolean payload; fails on any other tag.
    pub fn get_bool(&self) -> (r: Result<bool, NativeApiError>)
        ensures
            self@.vt is Bool ==> r == Ok::<bool, NativeApiError>(self@.value.bool_val),
            !(self@.vt is Bool) ==> r matches Err(NativeApiError::TypeConversion(
                TypeConversionError::ToString { message: _ },
            )),
    {
        match self.inner.vt {
            VariantType::Bool => Ok(self.inner.value.bool_val),
            _ => Err(
                NativeApiError::TypeConversion(
                    TypeConversionError::ToString { message: String::from_str("expected Bool") },
                ),
            ),
        }
    }

    /// Stores a 32-bit integer.
    pub fn set_i32(&mut self, value: i32)
        ensures
            final(self)@ == encode_scalar_slot(old(self)@, ValueModel::I32(value)),
    {
        self.inner.update_to_i32(value);
    }

    /// Reads the 32-bit integer payload; fails on any other tag.
    pub fn get_i32(&self) -> (r: Result<i32, NativeApiError>)
        ensures
            self@.vt is Int32 ==> r == Ok::<i32, NativeApiError>(self@.value.i32_val),
            !(self@.vt is Int32) ==> r matches Err(NativeApiError::TypeConversion(
                TypeConversionError::ToNumber { message: _ },
            )),
    {
        match self.inner.vt {
            VariantType::Int32 => Ok(self.inner.value.i32_val),
            _ => Err(
                NativeApiError::TypeConversion(
                    TypeConversionError::ToNumber { message: String::from_str("expected Int32") },
                ),
            ),
        }
    }

    /// Stores the bit pattern of a 64-bit float.
    pub fn set_f64(&mut self, bits: u64)
        ensures
            final(self)@ == encode_scalar_slot(old(self)@, ValueModel::F64(bits)),
    {
        self.inner.update_to_f64(bits);
    }

    /// Reads the 64-bit float payload as its bit pattern; fails on any other tag.
    pub fn get_f64(&self) -> (r: Result<u64, NativeApiError>)
        ensures
            self@.vt is Double ==> r == Ok::<u64, NativeApiError>(self@.value.f64_bits),
            !(self@.vt is Double) ==> r matches Err(NativeApiError::TypeConversion(
                TypeConversionError::ToNumber { message: _ },
            )),
    {
        match self.inner.vt {
            VariantType::Double => Ok(self.inner.value.f64_bits),
            _ => Err(
                NativeApiError::TypeConversion(
                    TypeConversionError::ToNumber { message: String::from_str("expected Double") },
                ),
            ),
        }
    }

    /// Stores the bit pattern of a serial date.
    pub fn set_date(&mut self, bits: u64)
        ensures
            final(self)@ == encode_scalar_slot(old(self)@, ValueModel::DateDouble(bits)),
    {
        self.inner.update_to_date_double(bits);
    }

    /// Reads the serial-date payload as its bit pattern; fails on any other tag.
    pub fn get_date(&self) -> (r: Result<u64, NativeApiError>)
        ensures
            self@.vt is Date ==> r == Ok::<u64, NativeApiError>(self@.value.date_bits),
            !(self@.vt is Date) ==> r matches Err(NativeApiError::TypeConversion(
                TypeConversionError::ToNumber { message: _ },
            )),
    {
        match self.inner.vt {
            VariantType::Date => Ok(self.inner.value.date_bits),
            _ => Err(
                NativeApiError::TypeConversion(
                    TypeConversionError::ToNumber { message: String::from_str("expected Date") },
                ),
            ),
        }
    }

    /// Stores an error code.
    pub fn set_error(&mut self, value: i32)
        ensures
            final(self)@ == encode_scalar_slot(old(self)@, ValueModel::Error(value)),
    {
        self.inner.update_to_error(value);
    }

    /// Reads the error-code payload; fails on any other tag.
    pub fn get_error(&self) -> (r: Result<i32, NativeApiError>)
        ensures
            self@.vt is Error ==> r == Ok::<i32, NativeApiError>(self@.value.error),
            !(self@.vt is Error) ==> r matches Err(NativeApiError::TypeConversion(
                TypeConversionError::ToNumber { message: _ },
            )),
    {
        match self.inner.vt {
            VariantType::Error => Ok(self.inner.value.error),
            _ => Err(
                NativeApiError::TypeConversion(
                    TypeConversionError::ToNumber { message: String::from_str("expected Error") },
                ),
            ),
        }
    }

    /// Stores a class identifier.
    pub fn set_cls_id(&mut self, value: [u8; 16])
        ensures
            final(self)@ == (TVariant {
                vt: VariantType::ClsID,
                value: (VariantValue { cls_id: value, ..old(self)@.value }),
                ..old(self)@
            }),
    {
        self.inner.update_to_cls_id(value);
    }

    /// Reads the class-identifier payload; fails on any other tag.
    pub fn get_cls_id(&self) -> (r: Result<[u8; 16], NativeApiError>)
        ensures
            self@.vt is ClsID ==> r == Ok::<[u8; 16], NativeApiError>(self@.value.cls_id),
            !(self@.vt is ClsID) ==> r matches Err(NativeApiError::TypeConversion(
                TypeConversionError::ToString { message: _ },
            )),
    {
        match self.inner.vt {
            VariantType::ClsID => Ok(self.inner.value.cls_id),
            _ => Err(
                NativeApiError::TypeConversion(
                    TypeConversionError::ToString { message: String::from_str("expected ClsID") },
                ),
            ),
        }
    }

    /// The inline value this record denotes; buffer-backed records decode to
    /// `Empty` here and are served by `ffi::provided_types::decode`.
    pub fn to_param_value(&self) -> (r: ParamValue)
        ensures
            r@ == decode_scalar_model(self@),
    {
        ParamValue::from(&self.inner)
    }

    /// Builds a record from an inline value; values the simple conversion
    /// does not carry (strings, blobs, and the remaining numeric widths)
    /// yield an `Empty` record, as the full conversion needs the gateway.
    pub fn from_param_value(param_value: &ParamValue) -> (r: Self)
        ensures
            ({
                let m = param_value@;
                &&& (m is Empty || m is Null || m is Bool || m is I32 || m is F64
                    || m is DateDouble || m is Error) ==> r@ == encode_scalar_slot(
                    empty_variant(),
                    m,
                )
                &&& (m matches ValueModel::ClsId(b) ==> ({
                    &&& r@.vt is ClsID
                    &&& r@.value.cls_id@ == b
                    &&& r@.elements == 0
                    &&& r@.value == (VariantValue {
                        cls_id: r@.value.cls_id,
                        ..empty_variant().value
                    })
                }))
                &&& !(m is Empty || m is Null || m is Bool || m is I32 || m is F64
                    || m is DateDouble || m is Error || m is ClsId) ==> r@ == empty_variant()
            }),
    {
        let mut tvariant = TVariant::default();
        match param_value {
            ParamValue::Empty => {
                tvariant.vt = VariantType::Empty;
            },
            ParamValue::Null => {
                tvariant.update_to_null();
            },
            ParamValue::Bool(v) => {
                tvariant.update_to_bool(*v);
            },
            ParamValue::I32(v) => {
                tvariant.update_to_i32(*v);
            },
            ParamValue::F64(v) => {
                tvariant.update_to_f64(*v);
            },
            ParamValue::DateDouble(v) => {
                tvariant.update_to_date_double(*v);
            },
            ParamValue::Error(v) => {
                tvariant.update_to_error(*v);
            },
            ParamValue::ClsId(v) => {
                tvariant.update_to_cls_id(*v);
            },
            _ => {
                tvariant.vt = VariantType::Empty;
            },
        }
        SafeVariant { inner: tvariant }
    }
}

/// A growable list of safely accessed records.
#[derive(Debug, Clone)]
pub struct SafeVariantArray {
    inner: Vec<SafeVariant>,
}

impl View for SafeVariantArray {
    type V = Seq<SafeVariant>;

    closed spec fn view(&self) -> Seq<SafeVariant> {
        self.inner@
    }
}

impl SafeVariantArray {
    /// An empty list.
    pub fn new() -> (r: Self)
        ensures
            r@.len() == 0,
    {
        SafeVariantArray { inner: Vec::new() }
    }

    /// An empty list with room for `capacity` records.
    pub fn with_capacity(capacity: usize) -> (r: Self)
        ensures
            r@.len() == 0,
    {
        SafeVariantArray { inner: Vec::with_capacity(capacity) }
    }

    /// Appends a record.
    pub fn push(&mut self, variant: SafeVariant)
        ensures
            final(self)@ == old(self)@.push(variant),
    {
        self.inner.push(variant);
    }

    /// The record at `index`, if there is one.
    pub fn get(&self, index: usize) -> (r: Option<&SafeVariant>)
        ensures
            index < self@.len() ==> (r matches Some(p) && *p == self@[index as int]),
            index >= self@.len() ==> r is None,
    {
        if index < self.inner.len() {
            Some(&self.inner[index])
        } else {
            None
        }
    }

    /// Replaces the record at `index`.
    pub fn set(&mut self, index: usize, variant: SafeVariant)
        requires
            index < old(self)@.len(),
        ensures
            final(self)@ == old(self)@.update(index as int, variant),
    {
        self.inner.set(index, variant);
    }

    /// Number of records.
    pub fn len(&self) -> (r: usize)
        ensures
            r == self@.len(),
    {
        self.inner.len()
    }

    /// Whether the list holds no record.
    pub fn is_empty(&self) -> (r: bool)
        ensures
            r == (self@.len() == 0),
    {
        self.inner.is_empty()
    }

    /// The records, giving up the wrapper.
    pub fn into_vec(self) -> (r: Vec<SafeVariant>)
        ensures
            r@ == self@,
    {
        self.inner
    }

    /// Wraps a list of records.
    pub fn from_vec(vec: Vec<SafeVariant>) -> (r: Self)
        ensures
            r@ == vec@,
    {
        SafeVariantArray { inner: vec }
    }
}

} // verus!
