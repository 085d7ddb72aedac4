//! Model of the wire variant record exchanged with the host.
//!
//! The host's record is a fixed-layout tagged union: a tag, a payload area
//! whose fields overlap, and an element count.  The model keeps every payload
//! field as a plain value and pins down, through `variant_wf`, the invariant
//! that a payload field is meaningful only while the tag selects it.  Buffers
//! for strings and blobs live in the memory manager gateway; the record holds
//! their address and length.
//!
//! Floating-point payloads (`Float`, `Double`, `Date`) are carried as their
//! IEEE-754 bit patterns, which keeps the wire contents bit-exact.

use vstd::prelude::*;

use crate::errors::MemoryError;
use crate::ffi::memory_manager::{AllocationError, MemEvent, MemoryManager};
use crate::interface::{ParamValue, ParamValues, ValueModel};

verus! {

broadcast use MemoryManager::lemma_buffer_facts;

/// Calendar date and time value of the host platform.
///
/// # Fields
/// * `sec` - seconds after the minute - [0, 60] including leap second
/// * `min` - minutes after the hour - [0, 59]
/// * `hour` - hours since midnight - [0, 23]
/// * `mday` - day of the month - [1, 31]
/// * `mon` - month of the year - [0, 11]
/// * `year` - years since 1900
/// * `wday` - days since Sunday - [0, 6]
/// * `yday` - days since January 1 - [0, 365]
/// * `isdst` - daylight savings time flag
/// * `gmtoff` - seconds east of UTC (present on unix-family targets)
/// * `zone` - timezone abbreviation (present on unix-family targets)
#[derive(Debug, Clone, Copy, Default, PartialEq, Eq, Structural)]
pub struct Tm {
    pub sec: i32,
    pub min: i32,
    pub hour: i32,
    pub mday: i32,
    pub mon: i32,
    pub year: i32,
    pub wday: i32,
    pub yday: i32,
    pub isdst: i32,
    pub gmtoff: i64,
    pub zone: i8,
}


/// Whether the host platform's calendar accepts this date, a function of
/// the values alone.
pub uninterp spec fn valid_ymd(year: int, month: int, day: int) -> bool;

/// Relies on chrono::NaiveDate::from_ymd_opt: `Some` exactly on real
/// calendar dates within the supported year range; a month outside 1..=12
/// or a day outside 1..=31 is never accepted.
#[verifier::external_body]
fn date_ymd_valid(year: i32, month: u32, day: u32) -> (r: bool)
    ensures
        r == valid_ymd(year as int, month as int, day as int),
        month < 1 || month > 12 || day < 1 || day > 31 ==> !r,
{
    chrono::NaiveDate::from_ymd_opt(year, month, day).is_some()
}

/// Relies on chrono::NaiveTime::from_hms_opt: `Some` exactly when hour,
/// minute and second are in range (leap seconds enter through the
/// fractional field, which stays zero here).
#[verifier::external_body]
fn time_hms_valid(hour: u32, min: u32, sec: u32) -> (r: bool)
    ensures
        r == (hour < 24 && min < 60 && sec < 60),
{
    chrono::NaiveTime::from_hms_opt(hour, min, sec).is_some()
}

impl Tm {
    /// Whether these calendar fields denote a real date and time, judged by
    /// the host platform's calendar library.  The stored month is 0-based
    /// and the year counts from 1900, so the check is made on `year + 1900`
    /// and `mon + 1`; values whose shifted year would not fit the calendar's
    /// integer range are invalid.
    pub fn is_valid_datetime(&self) -> (r: bool)
        ensures
            r == (self.year <= i32::MAX - 1900 && 0 <= self.mon < 12 && 0 <= self.mday && 0
                <= self.hour < 24 && 0 <= self.min < 60 && 0 <= self.sec < 60 && valid_ymd(
                self.year + 1900,
                self.mon + 1,
                self.mday as int,
            )),
    {
        if self.year > i32::MAX - 1900 {
            return false;
        }
        if self.mon < 0 || self.mon > 11 {
            return false;
        }
        if self.mday < 0 {
            return false;
        }
        if self.hour < 0 || self.min < 0 || self.sec < 0 {
            return false;
        }
        date_ymd_valid(self.year + 1900, (self.mon + 1) as u32, self.mday as u32)
            && time_hms_valid(self.hour as u32, self.min as u32, self.sec as u32)
    }
}

/// Tag of the wire variant record, one value per payload interpretation.
#[derive(Debug, Clone, Copy, PartialEq, Eq, Structural)]
pub enum VariantType {
    Empty,
    Null,
    Int16,
    Int32,
    Float,
    Double,
    Date,
    Time,
    PStr,
    Interface,
    Error,
    Bool,
    Int8,
    UInt8,
    UInt16,
    UInt32,
    Int64,
    UInt64,
    Int,
    UInt,
    HResult,
    WStr,
    Blob,
    ClsID,
    Undefined,
}

impl VariantType {
    /// The numeric tag this variant carries on the wire.
    pub open spec fn code_spec(self) -> u16 {
        match self {
            VariantType::Empty => 0,
            VariantType::Null => 1,
            VariantType::Int16 => 2,
            VariantType::Int32 => 3,
            VariantType::Float => 4,
            VariantType::Double => 5,
            VariantType::Date => 6,
            VariantType::Time => 7,
            VariantType::PStr => 8,
            VariantType::Interface => 9,
            VariantType::Error => 10,
            VariantType::Bool => 11,
            VariantType::Int8 => 12,
            VariantType::UInt8 => 13,
            VariantType::UInt16 => 14,
            VariantType::UInt32 => 15,
            VariantType::Int64 => 16,
            VariantType::UInt64 => 17,
            VariantType::Int => 18,
            VariantType::UInt => 19,
            VariantType::HResult => 20,
            VariantType::WStr => 21,
            VariantType::Blob => 22,
            VariantType::ClsID => 23,
            VariantType::Undefined => 0xFFFF,
        }
    }

    /// The variant a numeric wire tag denotes; unknown tags are `Undefined`.
    pub open spec fn from_code_spec(code: u16) -> VariantType {
        if code == 0 {
            VariantType::Empty
        } else if code == 1 {
            VariantType::Null
        } else if code == 2 {
            VariantType::Int16
        } else if code == 3 {
            VariantType::Int32
        } else if code == 4 {
            VariantType::Float
        } else if code == 5 {
            VariantType::Double
        } else if code == 6 {
            VariantType::Date
        } else if code == 7 {
            VariantType::Time
        } else if code == 8 {
            VariantType::PStr
        } else if code == 9 {
            VariantType::Interface
        } else if code == 10 {
            VariantType::Error
        } else if code == 11 {
            VariantType::Bool
        } else if code == 12 {
            VariantType::Int8
        } else if code == 13 {
            VariantType::UInt8
        } else if code == 14 {
            VariantType::UInt16
        } else if code == 15 {
            VariantType::UInt32
        } else if code == 16 {
            VariantType::Int64
        } else if code == 17 {
            VariantType::UInt64
        } else if code == 18 {
            VariantType::Int
        } else if code == 19 {
            VariantType::UInt
        } else if code == 20 {
            VariantType::HResult
        } else if code == 21 {
            VariantType::WStr
        } else if code == 22 {
            VariantType::Blob
        } else if code == 23 {
            VariantType::ClsID
        } else {
            VariantType::Undefined
        }
    }

    /// The numeric tag this variant carries on the wire.
    pub fn code(&self) -> (r: u16)
        ensures
            r == self.code_spec(),
    {
        match self {
            VariantType::Empty => 0,
            VariantType::Null => 1,
            VariantType::Int16 => 2,
            VariantType::Int32 => 3,
            VariantType::Float => 4,
            VariantType::Double => 5,
            VariantType::Date => 6,
            VariantType::Time => 7,
            VariantType::PStr => 8,
            VariantType::Interface => 9,
            VariantType::Error => 10,
            VariantType::Bool => 11,
            VariantType::Int8 => 12,
            VariantType::UInt8 => 13,
            VariantType::UInt16 => 14,
            VariantType::UInt32 => 15,
            VariantType::Int64 => 16,
            VariantType::UInt64 => 17,
            VariantType::Int => 18,
            VariantType::UInt => 19,
            VariantType::HResult => 20,
            VariantType::WStr => 21,
            VariantType::Blob => 22,
            VariantType::ClsID => 23,
            VariantType::Undefined => 0xFFFF,
        }
    }

    /// The variant a numeric wire tag denotes; unknown tags are `Undefined`.
    pub fn from_code(code: u16) -> (r: VariantType)
        ensures
            r == VariantType::from_code_spec(code),
    {
        if code == 0 {
            VariantType::Empty
        } else if code == 1 {
            VariantType::Null
        } else if code == 2 {
            VariantType::Int16
        } else if code == 3 {
            VariantType::Int32
        } else if code == 4 {
            VariantType::Float
        } else if code == 5 {
            VariantType::Double
        } else if code == 6 {
            VariantType::Date
        } else if code == 7 {
            VariantType::Time
        } else if code == 8 {
            VariantType::PStr
        } else if code == 9 {
            VariantType::Interface
        } else if code == 10 {
            VariantType::Error
        } else if code == 11 {
            VariantType::Bool
        } else if code == 12 {
            VariantType::Int8
        } else if code == 13 {
            VariantType::UInt8
        } else if code == 14 {
            VariantType::UInt16
        } else if code == 15 {
            VariantType::UInt32
        } else if code == 16 {
            VariantType::Int64
        } else if code == 17 {
            VariantType::UInt64
        } else if code == 18 {
            VariantType::Int
        } else if code == 19 {
            VariantType::UInt
        } else if code == 20 {
            VariantType::HResult
        } else if code == 21 {
            VariantType::WStr
        } else if code == 22 {
            VariantType::Blob
        } else if code == 23 {
            VariantType::ClsID
        } else {
            VariantType::Undefined
        }
    }
}

/// The wire tag survives a round trip through its numeric code.
pub proof fn lemma_variant_type_code_roundtrip(v: VariantType)
    ensures
        VariantType::from_code_spec(v.code_spec()) == v,
{
}

/// Address and length of a host-owned UTF-16 string buffer.
///
/// # Fields
/// * `ptr` - address of the data in the memory manager gateway
/// * `len` - length of the data
#[derive(Debug, Clone, Copy, PartialEq, Eq, Structural)]
pub struct DataStr {
    pub ptr: usize,
    pub len: u32,
}

/// Address and length of a host-owned blob buffer.
///
/// # Fields
/// * `ptr` - address of the data in the memory manager gateway
/// * `len` - length of the data
#[derive(Debug, Clone, Copy, PartialEq, Eq, Structural)]
pub struct DataBlob {
    pub ptr: usize,
    pub len: u32,
}

/// Payload area of the wire variant record.
///
/// On the wire these fields overlap inside one union; the model holds them
/// side by side, and `variant_wf` pins down that only the field selected by
/// the record's tag is meaningful.  `f32_bits`, `f64_bits` and `date_bits`
/// carry IEEE-754 bit patterns.
#[derive(Debug, Clone, Copy)]
pub struct VariantValue {
    pub bool_val: bool,
    pub i8_val: i8,
    pub i16_val: i16,
    pub i32_val: i32,
    pub i64_val: i64,
    pub u8_val: u8,
    pub u16_val: u16,
    pub u32_val: u32,
    pub u64_val: u64,
    pub f32_bits: u32,
    pub f64_bits: u64,
    pub date_bits: u64,
    pub tm: Tm,
    pub error: i32,
    pub hresult: i32,
    pub data_str: DataStr,
    pub data_blob: DataBlob,
    pub cls_id: [u8; 16],
}

/// The wire variant record: payload, element count and tag.
#[derive(Debug, Clone, Copy)]
pub struct TVariant {
    pub value: VariantValue,
    pub elements: u32,
    pub vt: VariantType,
}

/// The `Empty` record with a zeroed payload.
pub open spec fn empty_variant() -> TVariant {
    TVariant {
        value: VariantValue {
            bool_val: false,
            i8_val: 0,
            i16_val: 0,
            i32_val: 0,
            i64_val: 0,
            u8_val: 0,
            u16_val: 0,
            u32_val: 0,
            u64_val: 0,
            f32_bits: 0,
            f64_bits: 0,
            date_bits: 0,
            tm: Tm {
                sec: 0,
                min: 0,
                hour: 0,
                mday: 0,
                mon: 0,
                year: 0,
                wday: 0,
                yday: 0,
                isdst: 0,
                gmtoff: 0,
                zone: 0,
            },
            error: 0,
            hresult: 0,
            data_str: DataStr { ptr: 0, len: 0 },
            data_blob: DataBlob { ptr: 0, len: 0 },
            cls_id: vstd::array::spec_array_fill_for_copy_type::<u8, 16>(0u8),
        },
        elements: 0,
        vt: VariantType::Empty,
    }
}

impl Default for TVariant {
    /// An `Empty` record with a zeroed payload.
    fn default() -> (r: Self)
        ensures
            r == empty_variant(),
    {
        TVariant {
            value: VariantValue {
                bool_val: false,
                i8_val: 0,
                i16_val: 0,
                i32_val: 0,
                i64_val: 0,
                u8_val: 0,
                u16_val: 0,
                u32_val: 0,
                u64_val: 0,
                f32_bits: 0,
                f64_bits: 0,
                date_bits: 0,
                tm: Tm {
                    sec: 0,
                    min: 0,
                    hour: 0,
                    mday: 0,
                    mon: 0,
                    year: 0,
                    wday: 0,
                    yday: 0,
                    isdst: 0,
                    gmtoff: 0,
                    zone: 0,
                },
                error: 0,
                hresult: 0,
                data_str: DataStr { ptr: 0, len: 0 },
                data_blob: DataBlob { ptr: 0, len: 0 },
                cls_id: [0u8; 16],
            },
            elements: 0,
            vt: VariantType::Empty,
        }
    }
}

/// Tag/payload consistency of a record against the gateway's state: when the
/// tag selects a buffer-backed payload, the record's pointer names a live
/// buffer of the advertised kind and length.
pub open spec fn variant_wf(v: TVariant, mem: MemoryManager) -> bool {
    match v.vt {
        VariantType::WStr => {
            &&& mem.live(v.value.data_str.ptr)
            &&& mem.is_str(v.value.data_str.ptr)
            &&& mem.words(v.value.data_str.ptr).len() == v.value.data_str.len as int
        },
        VariantType::PStr => {
            &&& mem.live(v.value.data_str.ptr)
            &&& mem.is_blob(v.value.data_str.ptr)
            &&& mem.bytes(v.value.data_str.ptr).len() == v.value.data_str.len as int
        },
        VariantType::Blob => {
            &&& mem.live(v.value.data_blob.ptr)
            &&& mem.is_blob(v.value.data_blob.ptr)
            &&& mem.bytes(v.value.data_blob.ptr).len() == v.value.data_blob.len as int
        },
        _ => true,
    }
}

/// Value a record denotes when its tag selects an inline payload; buffer
/// backed tags (`PStr`, `WStr`, `Blob`) and tags without a value model
/// (`Interface`, `Int`, `UInt`, `Undefined`) denote `Empty` here.
pub open spec fn decode_scalar_model(v: TVariant) -> ValueModel {
    match v.vt {
        VariantType::Empty => ValueModel::Empty,
        VariantType::Null => ValueModel::Null,
        VariantType::Bool => ValueModel::Bool(v.value.bool_val),
        VariantType::Int8 => ValueModel::I8(v.value.i8_val),
        VariantType::Int16 => ValueModel::I16(v.value.i16_val),
        VariantType::Int32 => ValueModel::I32(v.value.i32_val),
        VariantType::Int64 => ValueModel::I64(v.value.i64_val),
        VariantType::UInt8 => ValueModel::U8(v.value.u8_val),
        VariantType::UInt16 => ValueModel::U16(v.value.u16_val),
        VariantType::UInt32 => ValueModel::U32(v.value.u32_val),
        VariantType::UInt64 => ValueModel::U64(v.value.u64_val),
        VariantType::Float => ValueModel::F32(v.value.f32_bits),
        VariantType::Double => ValueModel::F64(v.value.f64_bits),
        VariantType::Date => ValueModel::DateDouble(v.value.date_bits),
        VariantType::Time => ValueModel::Date(v.value.tm),
        VariantType::Error => ValueModel::Error(v.value.error),
        VariantType::HResult => ValueModel::HResult(v.value.hresult),
        VariantType::ClsID => ValueModel::ClsId(v.value.cls_id@),
        _ => ValueModel::Empty,
    }
}

/// Value a record denotes, reading buffer-backed payloads out of the gateway.
pub open spec fn decode_model(v: TVariant, mem: MemoryManager) -> ValueModel {
    match v.vt {
        VariantType::WStr => ValueModel::String(mem.words(v.value.data_str.ptr)),
        VariantType::PStr => ValueModel::AnsiString(mem.bytes(v.value.data_str.ptr)),
        VariantType::Blob => ValueModel::Blob(mem.bytes(v.value.data_blob.ptr)),
        _ => decode_scalar_model(v),
    }
}

/// Decodes a record into a safe tagged value, copying buffer-backed payloads
/// out of the gateway.
pub fn decode(variant: &TVariant, mem: &MemoryManager) -> (r: ParamValue)
    requires
        variant_wf(*variant, *mem),
    ensures
        r@ == decode_model(*variant, *mem),
{
    match variant.vt {
        VariantType::Empty => ParamValue::Empty,
        VariantType::Null => ParamValue::Null,
        VariantType::Bool => ParamValue::Bool(variant.value.bool_val),
        VariantType::Int8 => ParamValue::I8(variant.value.i8_val),
        VariantType::Int16 => ParamValue::I16(variant.value.i16_val),
        VariantType::Int32 => ParamValue::I32(variant.value.i32_val),
        VariantType::Int64 => ParamValue::I64(variant.value.i64_val),
        VariantType::UInt8 => ParamValue::U8(variant.value.u8_val),
        VariantType::UInt16 => ParamValue::U16(variant.value.u16_val),
        VariantType::UInt32 => ParamValue::U32(variant.value.u32_val),
        VariantType::UInt64 => ParamValue::U64(variant.value.u64_val),
        VariantType::Float => ParamValue::F32(variant.value.f32_bits),
        VariantType::Double => ParamValue::F64(variant.value.f64_bits),
        VariantType::Date => ParamValue::DateDouble(variant.value.date_bits),
        VariantType::Time => ParamValue::Date(variant.value.tm),
        VariantType::Error => ParamValue::Error(variant.value.error),
        VariantType::HResult => ParamValue::HResult(variant.value.hresult),
        VariantType::ClsID => ParamValue::ClsId(variant.value.cls_id),
        VariantType::WStr => ParamValue::String(mem.str_contents(variant.value.data_str.ptr)),
        VariantType::PStr => ParamValue::AnsiString(mem.blob_contents(variant.value.data_str.ptr)),
        VariantType::Blob => ParamValue::Blob(mem.blob_contents(variant.value.data_blob.ptr)),
        VariantType::Interface => ParamValue::Empty,
        VariantType::Int => ParamValue::Empty,
        VariantType::UInt => ParamValue::Empty,
        VariantType::Undefined => ParamValue::Empty,
    }
}


/// Decodes a list of argument records into the values they denote, in call
/// order; this is the exact list the dispatch protocol hands to a component
/// description on the host boundary.
pub fn decode_all(arg_slots: &Vec<TVariant>, mem: &MemoryManager) -> (r: ParamValues)
    requires
        forall|i: int| 0 <= i < arg_slots@.len() ==> variant_wf(#[trigger] arg_slots@[i], *mem),
    ensures
        r@ == Seq::new(arg_slots@.len() as nat, |i: int| decode_model(arg_slots@[i], *mem)),
{
    let mut vals: Vec<ParamValue> = Vec::new();
    let mut i: usize = 0;
    while i < arg_slots.len()
        invariant
            i <= arg_slots@.len(),
            vals@.len() == i,
            forall|t: int| 0 <= t < arg_slots@.len() ==> variant_wf(#[trigger] arg_slots@[t], *mem),
            forall|t: int|
                0 <= t < i ==> (#[trigger] vals@[t])@ == decode_model(arg_slots@[t], *mem),
        decreases arg_slots@.len() - i,
    {
        vals.push(decode(&arg_slots[i], mem));
        i = i + 1;
    }
    proof {
        let target = Seq::new(arg_slots@.len() as nat, |t: int| decode_model(arg_slots@[t], *mem));
        assert forall|t: int| 0 <= t < vals@.len() implies vals.deep_view()[t] == target[t] by {
            assert(vals.deep_view()[t] == vals@[t].deep_view());
            assert(vals@[t].deep_view() == vals@[t]@);
        }
        assert(vals.deep_view() =~= target);
    }
    ParamValues::new(vals)
}

impl<'a> From<&'a TVariant> for ParamValue {
    /// Decodes the inline payloads of a record; buffer-backed payloads need
    /// the gateway and are served by `decode`.
    fn from(param: &'a TVariant) -> (r: ParamValue) {
        match param.vt {
            VariantType::Empty => ParamValue::Empty,
            VariantType::Null => ParamValue::Null,
            VariantType::Bool => ParamValue::Bool(param.value.bool_val),
            VariantType::Int8 => ParamValue::I8(param.value.i8_val),
            VariantType::Int16 => ParamValue::I16(param.value.i16_val),
            VariantType::Int32 => ParamValue::I32(param.value.i32_val),
            VariantType::Int64 => ParamValue::I64(param.value.i64_val),
            VariantType::UInt8 => ParamValue::U8(param.value.u8_val),
            VariantType::UInt16 => ParamValue::U16(param.value.u16_val),
            VariantType::UInt32 => ParamValue::U32(param.value.u32_val),
            VariantType::UInt64 => ParamValue::U64(param.value.u64_val),
            VariantType::Float => ParamValue::F32(param.value.f32_bits),
            VariantType::Double => ParamValue::F64(param.value.f64_bits),
            VariantType::Date => ParamValue::DateDouble(param.value.date_bits),
            VariantType::Time => ParamValue::Date(param.value.tm),
            VariantType::Error => ParamValue::Error(param.value.error),
            VariantType::HResult => ParamValue::HResult(param.value.hresult),
            VariantType::ClsID => ParamValue::ClsId(param.value.cls_id),
            _ => ParamValue::Empty,
        }
    }
}

impl<'a> vstd::std_specs::convert::FromSpecImpl<&'a TVariant> for ParamValue {
    open spec fn obeys_from_spec() -> bool {
        true
    }

    open spec fn from_spec(param: &'a TVariant) -> ParamValue {
        match param.vt {
            VariantType::Empty => ParamValue::Empty,
            VariantType::Null => ParamValue::Null,
            VariantType::Bool => ParamValue::Bool(param.value.bool_val),
            VariantType::Int8 => ParamValue::I8(param.value.i8_val),
            VariantType::Int16 => ParamValue::I16(param.value.i16_val),
            VariantType::Int32 => ParamValue::I32(param.value.i32_val),
            VariantType::Int64 => ParamValue::I64(param.value.i64_val),
            VariantType::UInt8 => ParamValue::U8(param.value.u8_val),
            VariantType::UInt16 => ParamValue::U16(param.value.u16_val),
            VariantType::UInt32 => ParamValue::U32(param.value.u32_val),
            VariantType::UInt64 => ParamValue::U64(param.value.u64_val),
            VariantType::Float => ParamValue::F32(param.value.f32_bits),
            VariantType::Double => ParamValue::F64(param.value.f64_bits),
            VariantType::Date => ParamValue::DateDouble(param.value.date_bits),
            VariantType::Time => ParamValue::Date(param.value.tm),
            VariantType::Error => ParamValue::Error(param.value.error),
            VariantType::HResult => ParamValue::HResult(param.value.hresult),
            VariantType::ClsID => ParamValue::ClsId(param.value.cls_id),
            _ => ParamValue::Empty,
        }
    }
}

/// Whether this record currently owns a host buffer.
pub open spec fn owns_buffer(v: TVariant) -> bool {
    v.vt is WStr || v.vt is PStr || v.vt is Blob
}

/// Address of the buffer this record owns (meaningful when `owns_buffer`).
pub open spec fn buffer_addr(v: TVariant) -> usize {
    if v.vt is Blob {
        v.value.data_blob.ptr
    } else {
        v.value.data_str.ptr
    }
}

/// Gateway events of one buffer-encoding step into a slot whose prior state
/// was `prior`: allocate the new buffer at `a`, write it in full, and only
/// then free the buffer the slot previously owned, if it owned one.
pub open spec fn encode_events(a: usize, prior: TVariant) -> Seq<MemEvent> {
    if owns_buffer(prior) {
        seq![
            MemEvent::Alloc { addr: a },
            MemEvent::Write { addr: a },
            MemEvent::Free { addr: buffer_addr(prior) },
        ]
    } else {
        seq![MemEvent::Alloc { addr: a }, MemEvent::Write { addr: a }]
    }
}


/// Whether encoding this value requires a host buffer.
pub open spec fn needs_buffer(m: ValueModel) -> bool {
    m is String || m is AnsiString || m is Blob
}

/// Length of the buffer this value needs (0 for inline payloads).
pub open spec fn payload_len(m: ValueModel) -> int {
    match m {
        ValueModel::String(s) => s.len() as int,
        ValueModel::AnsiString(b) => b.len() as int,
        ValueModel::Blob(b) => b.len() as int,
        _ => 0,
    }
}

/// The slot state after an inline-payload value is encoded over `prior`;
/// buffer-backed values are described by the contracts of `update_to_str`,
/// `update_to_ansi` and `update_to_blob` instead.
pub open spec fn encode_scalar_slot(prior: TVariant, m: ValueModel) -> TVariant {
    match m {
        ValueModel::Empty => (TVariant { vt: VariantType::Empty, ..prior }),
        ValueModel::Null => (TVariant { vt: VariantType::Null, ..prior }),
        ValueModel::Bool(v) => (TVariant {
            vt: VariantType::Bool,
            value: (VariantValue { bool_val: v, ..prior.value }),
            ..prior
        }),
        ValueModel::I8(v) => (TVariant {
            vt: VariantType::Int8,
            value: (VariantValue { i8_val: v, ..prior.value }),
            ..prior
        }),
        ValueModel::I16(v) => (TVariant {
            vt: VariantType::Int16,
            value: (VariantValue { i16_val: v, ..prior.value }),
            ..prior
        }),
        ValueModel::I32(v) => (TVariant {
            vt: VariantType::Int32,
            value: (VariantValue { i32_val: v, ..prior.value }),
            ..prior
        }),
        ValueModel::I64(v) => (TVariant {
            vt: VariantType::Int64,
            value: (VariantValue { i64_val: v, ..prior.value }),
            ..prior
        }),
        ValueModel::U8(v) => (TVariant {
            vt: VariantType::UInt8,
            value: (VariantValue { u8_val: v, ..prior.value }),
            ..prior
        }),
        ValueModel::U16(v) => (TVariant {
            vt: VariantType::UInt16,
            value: (VariantValue { u16_val: v, ..prior.value }),
            ..prior
        }),
        ValueModel::U32(v) => (TVariant {
            vt: VariantType::UInt32,
            value: (VariantValue { u32_val: v, ..prior.value }),
            ..prior
        }),
        ValueModel::U64(v) => (TVariant {
            vt: VariantType::UInt64,
            value: (VariantValue { u64_val: v, ..prior.value }),
            ..prior
        }),
        ValueModel::F32(v) => (TVariant {
            vt: VariantType::Float,
            value: (VariantValue { f32_bits: v, ..prior.value }),
            ..prior
        }),
        ValueModel::F64(v) => (TVariant {
            vt: VariantType::Double,
            value: (VariantValue { f64_bits: v, ..prior.value }),
            ..prior
        }),
        ValueModel::Date(v) => (TVariant {
            vt: VariantType::Time,
            value: (VariantValue { tm: v, ..prior.value }),
            ..prior
        }),
        ValueModel::DateDouble(v) => (TVariant {
            vt: VariantType::Date,
            value: (VariantValue { date_bits: v, ..prior.value }),
            ..prior
        }),
        ValueModel::Error(v) => (TVariant {
            vt: VariantType::Error,
            value: (VariantValue { error: v, ..prior.value }),
            ..prior
        }),
        ValueModel::HResult(v) => (TVariant {
            vt: VariantType::HResult,
            value: (VariantValue { hresult: v, ..prior.value }),
            ..prior
        }),
        ValueModel::ClsId(_) => prior,
        _ => prior,
    }
}

impl TVariant {
    pub fn update_to_bool(&mut self, v: bool)
        ensures
            *final(self) == (TVariant {
                vt: VariantType::Bool,
                value: (VariantValue { bool_val: v, ..old(self).value }),
                ..*old(self)
            }),
    {
        self.value.bool_val = v;
        self.vt = VariantType::Bool;
    }

    pub fn update_to_i32(&mut self, v: i32)
        ensures
            *final(self) == (TVariant {
                vt: VariantType::Int32,
                value: (VariantValue { i32_val: v, ..old(self).value }),
                ..*old(self)
            }),
    {
        self.value.i32_val = v;
        self.vt = VariantType::Int32;
    }

    /// Stores the bit pattern of a 64-bit float and tags the record `Double`.
    pub fn update_to_f64(&mut self, v: u64)
        ensures
            *final(self) == (TVariant {
                vt: VariantType::Double,
                value: (VariantValue { f64_bits: v, ..old(self).value }),
                ..*old(self)
            }),
    {
        self.value.f64_bits = v;
        self.vt = VariantType::Double;
    }

    pub fn update_to_date(&mut self, v: Tm)
        ensures
            *final(self) == (TVariant {
                vt: VariantType::Time,
                value: (VariantValue { tm: v, ..old(self).value }),
                ..*old(self)
            }),
    {
        self.value.tm = v;
        self.vt = VariantType::Time;
    }

    pub fn update_to_null(&mut self)
        ensures
            *final(self) == (TVariant { vt: VariantType::Null, ..*old(self) }),
    {
        self.vt = VariantType::Null;
    }

    pub fn update_to_i8(&mut self, v: i8)
        ensures
            *final(self) == (TVariant {
                vt: VariantType::Int8,
                value: (VariantValue { i8_val: v, ..old(self).value }),
                ..*old(self)
            }),
    {
        self.value.i8_val = v;
        self.vt = VariantType::Int8;
    }

    pub fn update_to_i16(&mut self, v: i16)
        ensures
            *final(self) == (TVariant {
                vt: VariantType::Int16,
                value: (VariantValue { i16_val: v, ..old(self).value }),
                ..*old(self)
            }),
    {
        self.value.i16_val = v;
        self.vt = VariantType::Int16;
    }

    pub fn update_to_i64(&mut self, v: i64)
        ensures
            *final(self) == (TVariant {
                vt: VariantType::Int64,
                value: (VariantValue { i64_val: v, ..old(self).value }),
                ..*old(self)
            }),
    {
        self.value.i64_val = v;
        self.vt = VariantType::Int64;
    }

    pub fn update_to_u8(&mut self, v: u8)
        ensures
            *final(self) == (TVariant {
                vt: VariantType::UInt8,
                value: (VariantValue { u8_val: v, ..old(self).value }),
                ..*old(self)
            }),
    {
        self.value.u8_val = v;
        self.vt = VariantType::UInt8;
    }

    pub fn update_to_u16(&mut self, v: u16)
        ensures
            *final(self) == (TVariant {
                vt: VariantType::UInt16,
                value: (VariantValue { u16_val: v, ..old(self).value }),
                ..*old(self)
            }),
    {
        self.value.u16_val = v;
        self.vt = VariantType::UInt16;
    }

    pub fn update_to_u32(&mut self, v: u32)
        ensures
            *final(self) == (TVariant {
                vt: VariantType::UInt32,
                value: (VariantValue { u32_val: v, ..old(self).value }),
                ..*old(self)
            }),
    {
        self.value.u32_val = v;
        self.vt = VariantType::UInt32;
    }

    pub fn update_to_u64(&mut self, v: u64)
        ensures
            *final(self) == (TVariant {
                vt: VariantType::UInt64,
                value: (VariantValue { u64_val: v, ..old(self).value }),
                ..*old(self)
            }),
    {
        self.value.u64_val = v;
        self.vt = VariantType::UInt64;
    }

    /// Stores the bit pattern of a 32-bit float and tags the record `Float`.
    pub fn update_to_f32(&mut self, v: u32)
        ensures
            *final(self) == (TVariant {
                vt: VariantType::Float,
                value: (VariantValue { f32_bits: v, ..old(self).value }),
                ..*old(self)
            }),
    {
        self.value.f32_bits = v;
        self.vt = VariantType::Float;
    }

    /// Stores the bit pattern of a serial-date double and tags the record `Date`.
    pub fn update_to_date_double(&mut self, v: u64)
        ensures
            *final(self) == (TVariant {
                vt: VariantType::Date,
                value: (VariantValue { date_bits: v, ..old(self).value }),
                ..*old(self)
            }),
    {
        self.value.date_bits = v;
        self.vt = VariantType::Date;
    }

    pub fn update_to_error(&mut self, v: i32)
        ensures
            *final(self) == (TVariant {
                vt: VariantType::Error,
                value: (VariantValue { error: v, ..old(self).value }),
                ..*old(self)
            }),
    {
        self.value.error = v;
        self.vt = VariantType::Error;
    }

    pub fn update_to_hresult(&mut self, v: i32)
        ensures
            *final(self) == (TVariant {
                vt: VariantType::HResult,
                value: (VariantValue { hresult: v, ..old(self).value }),
                ..*old(self)
            }),
    {
        self.value.hresult = v;
        self.vt = VariantType::HResult;
    }

    pub fn update_to_cls_id(&mut self, v: [u8; 16])
        ensures
            *final(self) == (TVariant {
                vt: VariantType::ClsID,
                value: (VariantValue { cls_id: v, ..old(self).value }),
                ..*old(self)
            }),
    {
        self.value.cls_id = v;
        self.vt = VariantType::ClsID;
    }

    /// Encodes UTF-16 content into this slot: allocates a new host buffer,
    /// writes it in full, frees the buffer the slot previously owned (only
    /// after the new one is fully written, and exactly once), and retags the
    /// slot as the final step.  On allocation failure the slot and the
    /// gateway are left untouched.  The encoded slot decodes back to exactly
    /// the given content.
    pub fn update_to_str(&mut self, mem_mngr: &mut MemoryManager, v: &[u16]) -> (r: Result<
        u32,
        AllocationError,
    >)
        requires
            old(mem_mngr).wf(),
            variant_wf(*old(self), *old(mem_mngr)),
            v@.len() <= u32::MAX,
        ensures
            final(mem_mngr).wf(),
            final(mem_mngr).limit_spec() == old(mem_mngr).limit_spec(),
            !old(mem_mngr).can_alloc() ==> ({
                &&& r == Err::<u32, AllocationError>(AllocationError { size: v@.len() as usize })
                &&& *final(self) == *old(self)
                &&& *final(mem_mngr) == *old(mem_mngr)
            }),
            old(mem_mngr).can_alloc() ==> ({
                let a = old(mem_mngr).next_addr() as usize;
                &&& r == Ok::<u32, AllocationError>(v@.len() as u32)
                &&& *final(self) == (TVariant {
                    vt: VariantType::WStr,
                    value: (VariantValue {
                        data_str: (DataStr { ptr: a, len: v@.len() as u32 }),
                        ..old(self).value
                    }),
                    ..*old(self)
                })
                &&& final(mem_mngr).live_str(a, v@)
                &&& variant_wf(*final(self), *final(mem_mngr))
                &&& decode_model(*final(self), *final(mem_mngr)) == ValueModel::String(v@)
                &&& final(mem_mngr).log() == old(mem_mngr).log() + encode_events(a, *old(self))
                &&& final(mem_mngr).count() == old(mem_mngr).count() + 1
                &&& final(mem_mngr).alloc_count() == old(mem_mngr).alloc_count() + 1
                &&& owns_buffer(*old(self)) ==> !final(mem_mngr).live(buffer_addr(*old(self)))
                    && final(mem_mngr).free_count() == old(mem_mngr).free_count() + 1
                &&& !owns_buffer(*old(self)) ==> final(mem_mngr).free_count() == old(
                    mem_mngr,
                ).free_count()
                &&& forall|x: usize|
                    old(mem_mngr).addr_valid(x) && !(owns_buffer(*old(self)) && x == buffer_addr(
                        *old(self),
                    )) ==> #[trigger] final(mem_mngr).same_buffer(*old(mem_mngr), x)
            }),
    {
        let owns = match self.vt {
            VariantType::WStr | VariantType::PStr | VariantType::Blob => true,
            _ => false,
        };
        let old_addr = match self.vt {
            VariantType::Blob => self.value.data_blob.ptr,
            _ => self.value.data_str.ptr,
        };
        let a = match mem_mngr.alloc_str(v.len()) {
            Ok(a) => a,
            Err(e) => {
                return Err(e);
            },
        };
        let ghost mem_after_alloc = *mem_mngr;
        mem_mngr.write_str(a, v);
        let ghost mem_after_write = *mem_mngr;
        if owns {
            proof {
                assert(old(mem_mngr).live(old_addr));
                old(mem_mngr).lemma_buffer_facts(old_addr);
                assert(mem_after_alloc.same_buffer(*old(mem_mngr), old_addr));
                assert(mem_after_write.same_buffer(mem_after_alloc, old_addr));
            }
            mem_mngr.free_memory(old_addr);
        }
        self.value.data_str = DataStr { ptr: a, len: v.len() as u32 };
        self.vt = VariantType::WStr;
        proof {
            if owns {
                assert(mem_mngr.same_buffer(mem_after_write, a));
            }
            assert(mem_mngr.live_str(a, v@));
            assert(mem_mngr.log() =~= old(mem_mngr).log() + encode_events(a, *old(self)));
            assert forall|x: usize|
                old(mem_mngr).addr_valid(x) && !(owns_buffer(*old(self)) && x == buffer_addr(
                    *old(self),
                )) implies #[trigger] mem_mngr.same_buffer(*old(mem_mngr), x) by {
                assert(mem_after_alloc.same_buffer(*old(mem_mngr), x));
                assert(mem_after_write.same_buffer(mem_after_alloc, x));
                if owns {
                    assert(mem_mngr.same_buffer(mem_after_write, x));
                }
            }
        }
        Ok(self.value.data_str.len)
    }

    /// Encodes blob content into this slot: allocates a new host buffer,
    /// writes it in full, frees the buffer the slot previously owned (only
    /// after the new one is fully written, and exactly once), and retags the
    /// slot as the final step.  On allocation failure the slot and the
    /// gateway are left untouched.  The encoded slot decodes back to exactly
    /// the given content.
    pub fn update_to_blob(&mut self, mem_mngr: &mut MemoryManager, v: &[u8]) -> (r: Result<
        u32,
        AllocationError,
    >)
        requires
            old(mem_mngr).wf(),
            variant_wf(*old(self), *old(mem_mngr)),
            v@.len() <= u32::MAX,
        ensures
            final(mem_mngr).wf(),
            final(mem_mngr).limit_spec() == old(mem_mngr).limit_spec(),
            !old(mem_mngr).can_alloc() ==> ({
                &&& r == Err::<u32, AllocationError>(AllocationError { size: v@.len() as usize })
                &&& *final(self) == *old(self)
                &&& *final(mem_mngr) == *old(mem_mngr)
            }),
            old(mem_mngr).can_alloc() ==> ({
                let a = old(mem_mngr).next_addr() as usize;
                &&& r == Ok::<u32, AllocationError>(v@.len() as u32)
                &&& *final(self) == (TVariant {
                    vt: VariantType::Blob,
                    value: (VariantValue {
                        data_blob: (DataBlob { ptr: a, len: v@.len() as u32 }),
                        ..old(self).value
                    }),
                    ..*old(self)
                })
                &&& final(mem_mngr).live_blob(a, v@)
                &&& variant_wf(*final(self), *final(mem_mngr))
                &&& decode_model(*final(self), *final(mem_mngr)) == ValueModel::Blob(v@)
                &&& final(mem_mngr).log() == old(mem_mngr).log() + encode_events(a, *old(self))
                &&& final(mem_mngr).count() == old(mem_mngr).count() + 1
                &&& final(mem_mngr).alloc_count() == old(mem_mngr).alloc_count() + 1
                &&& owns_buffer(*old(self)) ==> !final(mem_mngr).live(buffer_addr(*old(self)))
                    && final(mem_mngr).free_count() == old(mem_mngr).free_count() + 1
                &&& !owns_buffer(*old(self)) ==> final(mem_mngr).free_count() == old(
                    mem_mngr,
                ).free_count()
                &&& forall|x: usize|
                    old(mem_mngr).addr_valid(x) && !(owns_buffer(*old(self)) && x == buffer_addr(
                        *old(self),
                    )) ==> #[trigger] final(mem_mngr).same_buffer(*old(mem_mngr), x)
            }),
    {
        let owns = match self.vt {
            VariantType::WStr | VariantType::PStr | VariantType::Blob => true,
            _ => false,
        };
        let old_addr = match self.vt {
            VariantType::Blob => self.value.data_blob.ptr,
            _ => self.value.data_str.ptr,
        };
        let a = match mem_mngr.alloc_blob(v.len()) {
            Ok(a) => a,
            Err(e) => {
                return Err(e);
            },
        };
        let ghost mem_after_alloc = *mem_mngr;
        mem_mngr.write_blob(a, v);
        let ghost mem_after_write = *mem_mngr;
        if owns {
            proof {
                assert(old(mem_mngr).live(old_addr));
                old(mem_mngr).lemma_buffer_facts(old_addr);
                assert(mem_after_alloc.same_buffer(*old(mem_mngr), old_addr));
                assert(mem_after_write.same_buffer(mem_after_alloc, old_addr));
            }
            mem_mngr.free_memory(old_addr);
        }
        self.value.data_blob = DataBlob { ptr: a, len: v.len() as u32 };
        self.vt = VariantType::Blob;
        proof {
            if owns {
                assert(mem_mngr.same_buffer(mem_after_write, a));
            }
            assert(mem_mngr.live_blob(a, v@));
            assert(mem_mngr.log() =~= old(mem_mngr).log() + encode_events(a, *old(self)));
            assert forall|x: usize|
                old(mem_mngr).addr_valid(x) && !(owns_buffer(*old(self)) && x == buffer_addr(
                    *old(self),
                )) implies #[trigger] mem_mngr.same_buffer(*old(mem_mngr), x) by {
                assert(mem_after_alloc.same_buffer(*old(mem_mngr), x));
                assert(mem_after_write.same_buffer(mem_after_alloc, x));
                if owns {
                    assert(mem_mngr.same_buffer(mem_after_write, x));
                }
            }
        }
        Ok(self.value.data_blob.len)
    }

    /// Encodes ANSI string content (bytes in the host's code page) into this
    /// slot: allocates a new host byte buffer, writes it in full, frees the
    /// buffer the slot previously owned (only after the new one is fully
    /// written, and exactly once), and retags the slot `PStr` as the final
    /// step.  On allocation failure the slot and the
    /// gateway are left untouched.  The encoded slot decodes back to exactly
    /// the given content.
    pub fn update_to_ansi(&mut self, mem_mngr: &mut MemoryManager, v: &[u8]) -> (r: Result<
        u32,
        AllocationError,
    >)
        requires
            old(mem_mngr).wf(),
            variant_wf(*old(self), *old(mem_mngr)),
            v@.len() <= u32::MAX,
        ensures
            final(mem_mngr).wf(),
            final(mem_mngr).limit_spec() == old(mem_mngr).limit_spec(),
            !old(mem_mngr).can_alloc() ==> ({
                &&& r == Err::<u32, AllocationError>(AllocationError { size: v@.len() as usize })
                &&& *final(self) == *old(self)
                &&& *final(mem_mngr) == *old(mem_mngr)
            }),
            old(mem_mngr).can_alloc() ==> ({
                let a = old(mem_mngr).next_addr() as usize;
                &&& r == Ok::<u32, AllocationError>(v@.len() as u32)
                &&& *final(self) == (TVariant {
                    vt: VariantType::PStr,
                    value: (VariantValue {
                        data_str: (DataStr { ptr: a, len: v@.len() as u32 }),
                        ..old(self).value
                    }),
                    ..*old(self)
                })
                &&& final(mem_mngr).live_blob(a, v@)
                &&& variant_wf(*final(self), *final(mem_mngr))
                &&& decode_model(*final(self), *final(mem_mngr)) == ValueModel::AnsiString(v@)
                &&& final(mem_mngr).log() == old(mem_mngr).log() + encode_events(a, *old(self))
                &&& final(mem_mngr).count() == old(mem_mngr).count() + 1
                &&& final(mem_mngr).alloc_count() == old(mem_mngr).alloc_count() + 1
                &&& owns_buffer(*old(self)) ==> !final(mem_mngr).live(buffer_addr(*old(self)))
                    && final(mem_mngr).free_count() == old(mem_mngr).free_count() + 1
                &&& !owns_buffer(*old(self)) ==> final(mem_mngr).free_count() == old(
                    mem_mngr,
                ).free_count()
                &&& forall|x: usize|
                    old(mem_mngr).addr_valid(x) && !(owns_buffer(*old(self)) && x == buffer_addr(
                        *old(self),
                    )) ==> #[trigger] final(mem_mngr).same_buffer(*old(mem_mngr), x)
            }),
    {
        let owns = match self.vt {
            VariantType::WStr | VariantType::PStr | VariantType::Blob => true,
            _ => false,
        };
        let old_addr = match self.vt {
            VariantType::Blob => self.value.data_blob.ptr,
            _ => self.value.data_str.ptr,
        };
        let a = match mem_mngr.alloc_blob(v.len()) {
            Ok(a) => a,
            Err(e) => {
                return Err(e);
            },
        };
        let ghost mem_after_alloc = *mem_mngr;
        mem_mngr.write_blob(a, v);
        let ghost mem_after_write = *mem_mngr;
        if owns {
            proof {
                assert(old(mem_mngr).live(old_addr));
                old(mem_mngr).lemma_buffer_facts(old_addr);
                assert(mem_after_alloc.same_buffer(*old(mem_mngr), old_addr));
                assert(mem_after_write.same_buffer(mem_after_alloc, old_addr));
            }
            mem_mngr.free_memory(old_addr);
        }
        self.value.data_str = DataStr { ptr: a, len: v.len() as u32 };
        self.vt = VariantType::PStr;
        proof {
            if owns {
                assert(mem_mngr.same_buffer(mem_after_write, a));
            }
            assert(mem_mngr.live_blob(a, v@));
            assert(mem_mngr.log() =~= old(mem_mngr).log() + encode_events(a, *old(self)));
            assert forall|x: usize|
                old(mem_mngr).addr_valid(x) && !(owns_buffer(*old(self)) && x == buffer_addr(
                    *old(self),
                )) implies #[trigger] mem_mngr.same_buffer(*old(mem_mngr), x) by {
                assert(mem_after_alloc.same_buffer(*old(mem_mngr), x));
                assert(mem_after_write.same_buffer(mem_after_alloc, x));
                if owns {
                    assert(mem_mngr.same_buffer(mem_after_write, x));
                }
            }
        }
        Ok(self.value.data_str.len)
    }

    /// Encodes `value` into this slot via the gateway.
    ///
    /// Inline payloads never touch the gateway.  Buffer-backed payloads
    /// (`String`, `AnsiString`, `Blob`) follow the protocol of
    /// `update_to_str` / `update_to_ansi` / `update_to_blob`: allocate the
    /// new buffer, write it in full, free the previously owned buffer
    /// exactly once and only then, and retag the slot last; on allocation
    /// failure nothing observable is mutated and the failure is reported.
    /// Whenever the call succeeds, the slot decodes back to exactly `value`
    /// (byte-exact for strings and blobs) and stays tag/payload consistent.
    pub fn update_from_return(&mut self, mem_mngr: &mut MemoryManager, value: &ParamValue) -> (r:
        Result<(), MemoryError>)
        requires
            old(mem_mngr).wf(),
            variant_wf(*old(self), *old(mem_mngr)),
            payload_len(value@) <= u32::MAX,
        ensures
            final(mem_mngr).wf(),
            final(mem_mngr).limit_spec() == old(mem_mngr).limit_spec(),
            !needs_buffer(value@) ==> r == Ok::<(), MemoryError>(()) && *final(mem_mngr) == *old(
                mem_mngr,
            ),
            !needs_buffer(value@) && !(value@ is ClsId) ==> *final(self) == encode_scalar_slot(
                *old(self),
                value@,
            ),
            value@ matches ValueModel::ClsId(b) ==> ({
                &&& final(self).vt == VariantType::ClsID
                &&& final(self).value.cls_id@ == b
                &&& final(self).elements == old(self).elements
                &&& final(self).value == (VariantValue {
                    cls_id: final(self).value.cls_id,
                    ..old(self).value
                })
            }),
            needs_buffer(value@) && !old(mem_mngr).can_alloc() ==> ({
                &&& r == Err::<(), MemoryError>(MemoryError::AllocationFailed {
                    size: payload_len(value@) as usize,
                })
                &&& *final(self) == *old(self)
                &&& *final(mem_mngr) == *old(mem_mngr)
            }),
            needs_buffer(value@) && old(mem_mngr).can_alloc() ==> ({
                let a = old(mem_mngr).next_addr() as usize;
                &&& r == Ok::<(), MemoryError>(())
                &&& final(mem_mngr).log() == old(mem_mngr).log() + encode_events(a, *old(self))
                &&& final(mem_mngr).count() == old(mem_mngr).count() + 1
                &&& final(mem_mngr).alloc_count() == old(mem_mngr).alloc_count() + 1
                &&& owns_buffer(*old(self)) ==> !final(mem_mngr).live(buffer_addr(*old(self)))
                    && final(mem_mngr).free_count() == old(mem_mngr).free_count() + 1
                &&& !owns_buffer(*old(self)) ==> final(mem_mngr).free_count() == old(
                    mem_mngr,
                ).free_count()
                &&& forall|x: usize|
                    old(mem_mngr).addr_valid(x) && !(owns_buffer(*old(self)) && x == buffer_addr(
                        *old(self),
                    )) ==> #[trigger] final(mem_mngr).same_buffer(*old(mem_mngr), x)
            }),
            r is Ok ==> variant_wf(*final(self), *final(mem_mngr)) && decode_model(
                *final(self),
                *final(mem_mngr),
            ) == value@,
    {
        match value {
            ParamValue::Empty => {
                self.vt = VariantType::Empty;
                Ok(())
            },
            ParamValue::Null => {
                self.update_to_null();
                Ok(())
            },
            ParamValue::Bool(v) => {
                self.update_to_bool(*v);
                Ok(())
            },
            ParamValue::I8(v) => {
                self.update_to_i8(*v);
                Ok(())
            },
            ParamValue::I16(v) => {
                self.update_to_i16(*v);
                Ok(())
            },
            ParamValue::I32(v) => {
                self.update_to_i32(*v);
                Ok(())
            },
            ParamValue::I64(v) => {
                self.update_to_i64(*v);
                Ok(())
            },
            ParamValue::U8(v) => {
                self.update_to_u8(*v);
                Ok(())
            },
            ParamValue::U16(v) => {
                self.update_to_u16(*v);
                Ok(())
            },
            ParamValue::U32(v) => {
                self.update_to_u32(*v);
                Ok(())
            },
            ParamValue::U64(v) => {
                self.update_to_u64(*v);
                Ok(())
            },
            ParamValue::F32(v) => {
                self.update_to_f32(*v);
                Ok(())
            },
            ParamValue::F64(v) => {
                self.update_to_f64(*v);
                Ok(())
            },
            ParamValue::Date(v) => {
                self.update_to_date(*v);
                Ok(())
            },
            ParamValue::DateDouble(v) => {
                self.update_to_date_double(*v);
                Ok(())
            },
            ParamValue::String(v) => {
                match self.update_to_str(mem_mngr, v.as_slice()) {
                    Ok(_) => Ok(()),
                    Err(e) => Err(MemoryError::AllocationFailed { size: e.size }),
                }
            },
            ParamValue::AnsiString(v) => {
                match self.update_to_ansi(mem_mngr, v.as_slice()) {
                    Ok(_) => Ok(()),
                    Err(e) => Err(MemoryError::AllocationFailed { size: e.size }),
                }
            },
            ParamValue::Blob(v) => {
                match self.update_to_blob(mem_mngr, v.as_slice()) {
                    Ok(_) => Ok(()),
                    Err(e) => Err(MemoryError::AllocationFailed { size: e.size }),
                }
            },
            ParamValue::Error(v) => {
                self.update_to_error(*v);
                Ok(())
            },
            ParamValue::HResult(v) => {
                self.update_to_hresult(*v);
                Ok(())
            },
            ParamValue::ClsId(v) => {
                self.update_to_cls_id(*v);
                Ok(())
            },
        }
    }

}

} // verus!
