//! Tests for the marshaling engine: encode into a host-owned slot via the
//! gateway, decode back, and the buffer ownership protocol.

use native_api_1c_core::errors::MemoryError;
use native_api_1c_core::ffi::memory_manager::MemoryManager;
use native_api_1c_core::ffi::provided_types::{decode, TVariant, Tm, VariantType};
use native_api_1c_core::interface::ParamValue;

fn roundtrip(value: ParamValue) {
    let mut mem = MemoryManager::new();
    let mut slot = TVariant::default();
    slot.update_from_return(&mut mem, &value).unwrap();
    assert_eq!(decode(&slot, &mem), value);
}

#[test]
fn test_roundtrip_every_variant() {
    roundtrip(ParamValue::Empty);
    roundtrip(ParamValue::Null);
    roundtrip(ParamValue::Bool(true));
    roundtrip(ParamValue::I8(-8));
    roundtrip(ParamValue::I16(-16));
    roundtrip(ParamValue::I32(-32));
    roundtrip(ParamValue::I64(-64));
    roundtrip(ParamValue::U8(8));
    roundtrip(ParamValue::U16(16));
    roundtrip(ParamValue::U32(32));
    roundtrip(ParamValue::U64(64));
    roundtrip(ParamValue::F32(1.5f32.to_bits()));
    roundtrip(ParamValue::F64(2.5f64.to_bits()));
    roundtrip(ParamValue::Date(Tm {
        sec: 1,
        min: 2,
        hour: 3,
        mday: 4,
        mon: 5,
        year: 106,
        wday: 0,
        yday: 100,
        isdst: 0,
        gmtoff: 0,
        zone: 0,
    }));
    roundtrip(ParamValue::DateDouble(44197.5f64.to_bits()));
    roundtrip(ParamValue::String(vec![0x0048, 0x0069])); // "Hi"
    roundtrip(ParamValue::AnsiString(vec![0x48, 0x69]));
    roundtrip(ParamValue::Blob(vec![1, 2, 3, 4]));
    roundtrip(ParamValue::Error(-1));
    roundtrip(ParamValue::HResult(-2));
    roundtrip(ParamValue::ClsId([9; 16]));
}

#[test]
fn test_roundtrip_string_byte_exact() {
    let units: Vec<u16> = "héllo wörld".encode_utf16().collect();
    roundtrip(ParamValue::String(units));
}

#[test]
fn test_roundtrip_empty_string_and_blob() {
    roundtrip(ParamValue::String(vec![]));
    roundtrip(ParamValue::Blob(vec![]));
}

#[test]
fn test_encode_string_over_blob_frees_old_buffer() {
    // Encoding "héllo" into a slot that previously held a 64-byte blob
    // frees the 64-byte buffer exactly once and allocates a new buffer
    // sized to the string's UTF-16 code-unit count.
    let mut mem = MemoryManager::new();
    let mut slot = TVariant::default();

    let blob = ParamValue::Blob(vec![0u8; 64]);
    slot.update_from_return(&mut mem, &blob).unwrap();
    let blob_addr = slot.value.data_blob.ptr;
    assert_eq!(slot.value.data_blob.len, 64);
    assert!(mem.live_at(blob_addr));
    assert_eq!(mem.allocations(), 1);
    assert_eq!(mem.frees(), 0);

    let units: Vec<u16> = "héllo".encode_utf16().collect();
    assert_eq!(units.len(), 5);
    let string = ParamValue::String(units.clone());
    slot.update_from_return(&mut mem, &string).unwrap();

    assert_eq!(slot.vt, VariantType::WStr);
    assert_eq!(slot.value.data_str.len, 5);
    assert!(!mem.live_at(blob_addr), "old blob buffer must be freed");
    assert!(mem.live_at(slot.value.data_str.ptr));
    assert_eq!(mem.allocations(), 2);
    assert_eq!(mem.frees(), 1, "the old buffer is freed exactly once");
    assert_eq!(decode(&slot, &mem), string);
}

#[test]
fn test_encode_string_over_string_frees_old_buffer() {
    let mut mem = MemoryManager::new();
    let mut slot = TVariant::default();

    slot.update_from_return(&mut mem, &ParamValue::String(vec![1, 2, 3])).unwrap();
    let first_addr = slot.value.data_str.ptr;

    slot.update_from_return(&mut mem, &ParamValue::String(vec![4, 5])).unwrap();
    assert!(!mem.live_at(first_addr));
    assert_eq!(mem.frees(), 1);
    assert_eq!(decode(&slot, &mem), ParamValue::String(vec![4, 5]));
}

#[test]
fn test_encode_scalar_leaves_gateway_alone() {
    let mut mem = MemoryManager::new();
    let mut slot = TVariant::default();
    slot.update_from_return(&mut mem, &ParamValue::I32(5)).unwrap();
    assert_eq!(mem.allocations(), 0);
    assert_eq!(mem.frees(), 0);
}

#[test]
fn test_allocation_failure_leaves_slot_untouched() {
    // One allocation is allowed; the second fails, and the slot must keep
    // its previous buffer and contents.
    let mut mem = MemoryManager::with_allocation_limit(1);
    let mut slot = TVariant::default();

    let first = ParamValue::Blob(vec![7, 8, 9]);
    slot.update_from_return(&mut mem, &first).unwrap();
    let first_addr = slot.value.data_blob.ptr;

    let second = ParamValue::String(vec![1, 2]);
    let result = slot.update_from_return(&mut mem, &second);
    assert_eq!(result, Err(MemoryError::AllocationFailed { size: 2 }));

    // Prior slot state is fully preserved.
    assert_eq!(slot.vt, VariantType::Blob);
    assert_eq!(slot.value.data_blob.ptr, first_addr);
    assert!(mem.live_at(first_addr));
    assert_eq!(mem.frees(), 0);
    assert_eq!(decode(&slot, &mem), first);
}

#[test]
fn test_update_to_str_returns_length() {
    let mut mem = MemoryManager::new();
    let mut slot = TVariant::default();
    let n = slot.update_to_str(&mut mem, &[10, 20, 30]).unwrap();
    assert_eq!(n, 3);
    assert_eq!(slot.vt, VariantType::WStr);
}

#[test]
fn test_update_to_blob_returns_length() {
    let mut mem = MemoryManager::new();
    let mut slot = TVariant::default();
    let n = slot.update_to_blob(&mut mem, &[1, 2, 3, 4]).unwrap();
    assert_eq!(n, 4);
    assert_eq!(slot.vt, VariantType::Blob);
}

#[test]
fn test_decode_scalar_ignores_buffer_tags() {
    // The gateway-free conversion only carries inline payloads.
    let mut mem = MemoryManager::new();
    let mut slot = TVariant::default();
    slot.update_to_str(&mut mem, &[1, 2]).unwrap();
    assert_eq!(ParamValue::from(&slot), ParamValue::Empty);
}
