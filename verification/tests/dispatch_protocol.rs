//! Scenario tests for the dispatch protocol: name resolution, routed
//! property access, argument validation and the host boolean boundary.

use native_api_1c_core::dispatch::{
    substitute_defaults, Description, Dispatcher, MethodDescriptor, ParamDescriptor,
    PropertyDescriptor,
};
use native_api_1c_core::ffi::provided_types::decode_all;
use native_api_1c_core::descriptors::ParamType;
use native_api_1c_core::errors::{MethodError, NativeApiError, ParameterError, PropertyError};
use native_api_1c_core::ffi::memory_manager::MemoryManager;
use native_api_1c_core::ffi::provided_types::{decode, TVariant, VariantType};
use native_api_1c_core::interface::{ParamValue, ParamValues};

fn utf16(s: &str) -> Vec<u16> {
    s.encode_utf16().collect()
}

/// A small component: stored property values, and a method that sums its
/// two integer arguments.
struct TestComponent {
    values: Vec<ParamValue>,
}

impl Description for TestComponent {
    fn read(&self, ordinal: usize) -> Result<ParamValue, NativeApiError> {
        Ok(self.values[ordinal].clone())
    }

    fn write(&mut self, ordinal: usize, val: &ParamValue) -> Result<(), NativeApiError> {
        self.values[ordinal] = val.clone();
        Ok(())
    }

    fn invoke(&mut self, ordinal: usize, args: &ParamValues) -> Result<ParamValue, NativeApiError> {
        match ordinal {
            0 | 1 => {
                let a = match *args.get(0) {
                    ParamValue::I32(v) => v,
                    _ => return Err(ParameterError::index_out_of_bounds(0).into()),
                };
                let b = match *args.get(1) {
                    ParamValue::I32(v) => v,
                    _ => return Err(ParameterError::index_out_of_bounds(1).into()),
                };
                Ok(ParamValue::I32(a + b))
            }
            _ => Err(MethodError::index_out_of_bounds(ordinal).into()),
        }
    }
}

fn test_dispatcher() -> Dispatcher<TestComponent> {
    let props = vec![
        PropertyDescriptor {
            ordinal: 0,
            aliases: vec![utf16("TestProp"), utf16("ТестСвойство")],
            readable: true,
            writable: true,
        },
        PropertyDescriptor {
            ordinal: 0, // renumbered at construction
            aliases: vec![utf16("ReadOnly")],
            readable: true,
            writable: false,
        },
    ];
    let methods = vec![
        MethodDescriptor {
            ordinal: 0,
            aliases: vec![utf16("TestMethod")],
            params: vec![
                ParamDescriptor { ty: ParamType::I32, default_value: None },
                ParamDescriptor { ty: ParamType::I32, default_value: None },
            ],
            return_type: Some(ParamType::I32),
        },
        MethodDescriptor {
            ordinal: 0, // renumbered at construction
            aliases: vec![utf16("WithDefault")],
            params: vec![
                ParamDescriptor { ty: ParamType::I32, default_value: None },
                ParamDescriptor {
                    ty: ParamType::I32,
                    default_value: Some(ParamValue::I32(20)),
                },
            ],
            return_type: Some(ParamType::I32),
        },
    ];
    let component = TestComponent {
        values: vec![ParamValue::I32(42), ParamValue::Bool(true)],
    };
    Dispatcher::new(props, methods, component, utf16("TestComponent"))
}

#[test]
fn test_read_write_property_scenario() {
    // One readable+writable property "TestProp" with default I32(42).
    let mut d = test_dispatcher();
    assert_eq!(d.read_property(0), Ok(ParamValue::I32(42)));
    assert_eq!(d.write_property(0, &ParamValue::I32(7)), Ok(()));
    assert_eq!(d.read_property(0), Ok(ParamValue::I32(7)));
}

#[test]
fn test_invoke_sum_scenario() {
    // "TestMethod" takes two I32 params and returns their sum.
    let mut d = test_dispatcher();
    let args = ParamValues::new(vec![ParamValue::I32(10), ParamValue::I32(20)]);
    assert_eq!(d.invoke(0, &args, false), Ok(Some(ParamValue::I32(30))));
    // The same call as a procedure succeeds with the result discarded.
    assert_eq!(d.invoke(0, &args, true), Ok(None));
}

#[test]
fn test_invoke_missing_required_scenario() {
    // Fewer arguments than required and no declared default.
    let mut d = test_dispatcher();
    let args = ParamValues::new(vec![ParamValue::I32(10)]);
    let r = d.invoke(0, &args, false);
    assert!(matches!(
        r,
        Err(NativeApiError::Parameter(ParameterError::MissingRequired { .. }))
    ));
}

#[test]
fn test_invoke_default_substitution() {
    // The omitted trailing parameter of "WithDefault" gets its default 20.
    let mut d = test_dispatcher();
    let args = ParamValues::new(vec![ParamValue::I32(1)]);
    assert_eq!(d.invoke(1, &args, false), Ok(Some(ParamValue::I32(21))));
}

#[test]
fn test_invoke_too_many_arguments() {
    let mut d = test_dispatcher();
    let args = ParamValues::new(vec![
        ParamValue::I32(1),
        ParamValue::I32(2),
        ParamValue::I32(3),
    ]);
    assert_eq!(
        d.invoke(0, &args, false),
        Err(NativeApiError::Parameter(ParameterError::TooMany { expected: 2, actual: 3 }))
    );
}

#[test]
fn test_invoke_bad_ordinal() {
    let mut d = test_dispatcher();
    let args = ParamValues::new(vec![]);
    assert_eq!(
        d.invoke(99, &args, false),
        Err(NativeApiError::Method(MethodError::IndexOutOfBounds { index: 99 }))
    );
}

#[test]
fn test_find_property_first_match_and_aliases() {
    let d = test_dispatcher();
    // Primary and localized aliases both resolve.
    assert_eq!(d.find_property(&utf16("TestProp")), Some(0));
    assert_eq!(d.find_property(&utf16("ТестСвойство")), Some(0));
    assert_eq!(d.find_property(&utf16("ReadOnly")), Some(1));
    // Unmatched and empty names resolve to nothing.
    assert_eq!(d.find_property(&utf16("Missing")), None);
    assert_eq!(d.find_property(&[]), None);
    // Matching is case-sensitive.
    assert_eq!(d.find_property(&utf16("testprop")), None);
}

#[test]
fn test_find_property_first_constructed_wins() {
    let props = vec![
        PropertyDescriptor {
            ordinal: 0,
            aliases: vec![utf16("Shared")],
            readable: true,
            writable: false,
        },
        PropertyDescriptor {
            ordinal: 1,
            aliases: vec![utf16("Shared"), utf16("Second")],
            readable: true,
            writable: false,
        },
    ];
    let d = Dispatcher::new(
        props,
        vec![],
        TestComponent { values: vec![ParamValue::Empty, ParamValue::Empty] },
        utf16("X"),
    );
    assert_eq!(d.find_property(&utf16("Shared")), Some(0));
    assert_eq!(d.find_property(&utf16("Second")), Some(1));
}

#[test]
fn test_find_method_resolution() {
    let d = test_dispatcher();
    assert_eq!(d.find_method(&utf16("TestMethod")), Some(0));
    assert_eq!(d.find_method(&utf16("WithDefault")), Some(1));
    assert_eq!(d.find_method(&utf16("Nope")), None);
    assert_eq!(d.find_method(&[]), None);
}

#[test]
fn test_name_enumeration_out_of_range() {
    // propertyName(ordinal, aliasIndex) is not-found when either index is
    // out of range; get/set on an out-of-range ordinal reports the error
    // without touching anything.
    let mut d = test_dispatcher();
    assert_eq!(d.property_name(0, 0), Some(utf16("TestProp")));
    assert_eq!(d.property_name(0, 1), Some(utf16("ТестСвойство")));
    assert_eq!(d.property_name(0, 2), None);
    assert_eq!(d.property_name(99, 0), None);
    assert_eq!(d.method_name(0, 0), Some(utf16("TestMethod")));
    assert_eq!(d.method_name(0, 5), None);
    assert_eq!(d.method_name(42, 0), None);

    assert_eq!(
        d.read_property(99),
        Err(NativeApiError::Property(PropertyError::IndexOutOfBounds { index: 99 }))
    );
    assert_eq!(
        d.write_property(99, &ParamValue::I32(0)),
        Err(NativeApiError::Property(PropertyError::IndexOutOfBounds { index: 99 }))
    );
}

#[test]
fn test_read_write_permissions() {
    let mut d = test_dispatcher();
    assert!(d.is_property_readable(1));
    assert!(!d.is_property_writable(1));
    assert!(!d.is_property_readable(99));
    assert_eq!(
        d.write_property(1, &ParamValue::Bool(false)),
        Err(NativeApiError::Property(PropertyError::NotWritable { index: 1 }))
    );
    // The value stays as it was.
    assert_eq!(d.read_property(1), Ok(ParamValue::Bool(true)));
}

#[test]
fn test_counts_and_parameter_queries() {
    let d = test_dispatcher();
    assert_eq!(d.property_count(), 2);
    assert_eq!(d.method_count(), 2);
    assert_eq!(d.parameter_count(0), 2);
    assert_eq!(d.parameter_count(99), 0);
    assert_eq!(d.parameter_default(0, 0), None);
    assert_eq!(d.parameter_default(1, 1), Some(ParamValue::I32(20)));
    assert_eq!(d.parameter_default(1, 9), None);
    assert!(d.has_return_value(0));
    assert!(!d.has_return_value(99));
}

#[test]
fn test_substitute_defaults_contents() {
    let m = MethodDescriptor {
        ordinal: 0,
        aliases: vec![utf16("M")],
        params: vec![
            ParamDescriptor { ty: ParamType::I32, default_value: None },
            ParamDescriptor { ty: ParamType::Bool, default_value: Some(ParamValue::Bool(true)) },
            ParamDescriptor { ty: ParamType::I32, default_value: Some(ParamValue::I32(5)) },
        ],
        return_type: Some(ParamType::I32),
    };
    // The result is the given arguments followed by the declared defaults.
    let full = substitute_defaults(&m, &ParamValues::new(vec![ParamValue::I32(9)])).unwrap();
    assert_eq!(full.len(), 3);
    assert_eq!(*full.get(0), ParamValue::I32(9));
    assert_eq!(*full.get(1), ParamValue::Bool(true));
    assert_eq!(*full.get(2), ParamValue::I32(5));

    // A full argument list passes through unchanged.
    let given = ParamValues::new(vec![
        ParamValue::I32(1),
        ParamValue::Bool(false),
        ParamValue::I32(2),
    ]);
    let full = substitute_defaults(&m, &given).unwrap();
    assert_eq!(full, given);

    // The first parameter declares no default, so it cannot be omitted.
    let r = substitute_defaults(&m, &ParamValues::new(vec![]));
    assert!(matches!(
        r,
        Err(NativeApiError::Parameter(ParameterError::MissingRequired { .. }))
    ));
}

#[test]
fn test_decode_all_contents() {
    let mut mem = MemoryManager::new();
    let mut a = TVariant::default();
    a.update_to_i32(3);
    let mut b = TVariant::default();
    b.update_to_str(&mut mem, &[0x0041, 0x0042]).unwrap();
    let decoded = decode_all(&vec![a, b], &mem);
    assert_eq!(decoded.len(), 2);
    assert_eq!(*decoded.get(0), ParamValue::I32(3));
    assert_eq!(*decoded.get(1), ParamValue::String(vec![0x0041, 0x0042]));
}

#[test]
fn test_host_boundary_read_and_call() {
    // The host boundary collapses errors to a boolean and encodes results
    // into the host-owned slot.
    let mut d = test_dispatcher();
    let mut mem = MemoryManager::new();
    let mut slot = TVariant::default();

    assert!(d.host_read_property(&mut mem, 0, &mut slot));
    assert_eq!(decode(&slot, &mem), ParamValue::I32(42));

    // Bad ordinal: sentinel false, slot untouched.
    assert!(!d.host_read_property(&mut mem, 99, &mut slot));
    assert_eq!(decode(&slot, &mem), ParamValue::I32(42));

    // Write through a wire record.
    let mut arg = TVariant::default();
    arg.update_to_i32(7);
    assert!(d.host_write_property(&mem, 0, &arg));
    assert_eq!(d.read_property(0), Ok(ParamValue::I32(7)));
    assert!(!d.host_write_property(&mem, 99, &arg));

    // Function call over wire records.
    let mut a = TVariant::default();
    a.update_to_i32(10);
    let mut b = TVariant::default();
    b.update_to_i32(20);
    let mut ret = TVariant::default();
    assert!(d.host_call_as_func(&mut mem, 0, &vec![a, b], &mut ret));
    assert_eq!(ret.vt, VariantType::Int32);
    assert_eq!(decode(&ret, &mem), ParamValue::I32(30));

    assert!(!d.host_call_as_func(&mut mem, 99, &vec![], &mut ret));
    assert!(d.host_call_as_proc(&mem, 0, &vec![a, b]));
    assert!(!d.host_call_as_proc(&mem, 99, &vec![]));
}
