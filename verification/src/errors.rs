//! Error taxonomy of the component core.
//!
//! Every internal layer reports one of these structured errors; only the
//! dispatch protocol collapses them into the host's boolean convention.

use vstd::prelude::*;

verus! {

/// Main error type of the component core.
#[derive(Debug, Clone, PartialEq)]
pub enum NativeApiError {
    /// Property-related errors
    Property(PropertyError),
    /// Method-related errors
    Method(MethodError),
    /// Memory allocation errors
    Memory(MemoryError),
    /// Initialization errors
    Initialization(InitializationError),
    /// Parameter validation errors
    Parameter(ParameterError),
    /// Type conversion errors
    TypeConversion(TypeConversionError),
    /// Generic operation errors
    Operation { message: String },
}

/// Property-related errors
#[derive(Debug, Clone, PartialEq)]
pub enum PropertyError {
    /// Property not found
    NotFound { name: String },
    /// Property index out of bounds
    IndexOutOfBounds { index: usize },
    /// Property is not readable
    NotReadable { index: usize },
    /// Property is not writable
    NotWritable { index: usize },
    /// Property value is invalid
    InvalidValue { message: String },
    /// Property alias not found
    AliasNotFound { alias: usize },
}

/// Method-related errors
#[derive(Debug, Clone, PartialEq)]
pub enum MethodError {
    /// Method not found
    NotFound { name: String },
    /// Method index out of bounds
    IndexOutOfBounds { index: usize },
    /// Method has no return value
    NoReturnValue { index: usize },
    /// Method parameter error
    ParameterError { message: String },
    /// Method execution failed
    ExecutionFailed { message: String },
    /// Method alias not found
    AliasNotFound { alias: usize },
}

/// Memory allocation errors
#[derive(Debug, Clone, PartialEq)]
pub enum MemoryError {
    /// Failed to allocate memory
    AllocationFailed { size: usize },
    /// Failed to free memory
    FreeFailed { address: Option<usize> },
    /// Invalid memory address
    InvalidAddress { address: Option<usize> },
    /// Memory corruption detected
    Corruption,
}

/// Initialization errors
#[derive(Debug, Clone, PartialEq)]
pub enum InitializationError {
    /// Connection failed
    ConnectionFailed { reason: String },
    /// Component already initialized
    AlreadyInitialized,
    /// Component not initialized
    NotInitialized,
    /// Invalid configuration
    InvalidConfig { message: String },
}

/// Parameter validation errors
#[derive(Debug, Clone, PartialEq)]
pub enum ParameterError {
    /// Parameter index out of bounds
    IndexOutOfBounds { index: usize },
    /// Parameter type mismatch
    TypeMismatch { expected: String, actual: String },
    /// Parameter value is invalid
    InvalidValue { message: String },
    /// Missing required parameter
    MissingRequired { name: String },
    /// Too many parameters
    TooMany { expected: usize, actual: usize },
}

/// Type conversion errors
#[derive(Debug, Clone, PartialEq)]
pub enum TypeConversionError {
    /// Failed to convert to string
    ToString { message: String },
    /// Failed to convert from string
    FromString { message: String },
    /// Failed to convert to number
    ToNumber { message: String },
    /// Failed to convert from number
    FromNumber { message: String },
    /// Failed to convert date/time
    DateTime { message: String },
    /// Unsupported type conversion
    Unsupported { from: String, to: String },
}

impl From<PropertyError> for NativeApiError {
    fn from(e: PropertyError) -> (r: NativeApiError) {
        NativeApiError::Property(e)
    }
}

impl vstd::std_specs::convert::FromSpecImpl<PropertyError> for NativeApiError {
    open spec fn obeys_from_spec() -> bool {
        true
    }

    open spec fn from_spec(e: PropertyError) -> NativeApiError {
        NativeApiError::Property(e)
    }
}

impl From<MethodError> for NativeApiError {
    fn from(e: MethodError) -> (r: NativeApiError) {
        NativeApiError::Method(e)
    }
}

impl vstd::std_specs::convert::FromSpecImpl<MethodError> for NativeApiError {
    open spec fn obeys_from_spec() -> bool {
        true
    }

    open spec fn from_spec(e: MethodError) -> NativeApiError {
        NativeApiError::Method(e)
    }
}

impl From<MemoryError> for NativeApiError {
    fn from(e: MemoryError) -> (r: NativeApiError) {
        NativeApiError::Memory(e)
    }
}

impl vstd::std_specs::convert::FromSpecImpl<MemoryError> for NativeApiError {
    open spec fn obeys_from_spec() -> bool {
        true
    }

    open spec fn from_spec(e: MemoryError) -> NativeApiError {
        NativeApiError::Memory(e)
    }
}

impl From<InitializationError> for NativeApiError {
    fn from(e: InitializationError) -> (r: NativeApiError) {
        NativeApiError::Initialization(e)
    }
}

impl vstd::std_specs::convert::FromSpecImpl<InitializationError> for NativeApiError {
    open spec fn obeys_from_spec() -> bool {
        true
    }

    open spec fn from_spec(e: InitializationError) -> NativeApiError {
        NativeApiError::Initialization(e)
    }
}

impl From<ParameterError> for NativeApiError {
    fn from(e: ParameterError) -> (r: NativeApiError) {
        NativeApiError::Parameter(e)
    }
}

impl vstd::std_specs::convert::FromSpecImpl<ParameterError> for NativeApiError {
    open spec fn obeys_from_spec() -> bool {
        true
    }

    open spec fn from_spec(e: ParameterError) -> NativeApiError {
        NativeApiError::Parameter(e)
    }
}

impl From<TypeConversionError> for NativeApiError {
    fn from(e: TypeConversionError) -> (r: NativeApiError) {
        NativeApiError::TypeConversion(e)
    }
}

impl vstd::std_specs::convert::FromSpecImpl<TypeConversionError> for NativeApiError {
    open spec fn obeys_from_spec() -> bool {
        true
    }

    open spec fn from_spec(e: TypeConversionError) -> NativeApiError {
        NativeApiError::TypeConversion(e)
    }
}

impl From<String> for NativeApiError {
    fn from(message: String) -> (r: NativeApiError) {
        NativeApiError::Operation { message }
    }
}

impl vstd::std_specs::convert::FromSpecImpl<String> for NativeApiError {
    open spec fn obeys_from_spec() -> bool {
        true
    }

    open spec fn from_spec(message: String) -> NativeApiError {
        NativeApiError::Operation { message }
    }
}

// Convenience type aliases
pub type NativeApiResult<T> = Result<T, NativeApiError>;

pub type PropertyResult<T> = Result<T, PropertyError>;

pub type MethodResult<T> = Result<T, MethodError>;

pub type MemoryResult<T> = Result<T, MemoryError>;

pub type InitializationResult<T> = Result<T, InitializationError>;

pub type ParameterResult<T> = Result<T, ParameterError>;

pub type TypeConversionResult<T> = Result<T, TypeConversionError>;

// Helper functions for common error patterns
impl NativeApiError {
    /// Create a generic operation error
    pub fn operation(message: String) -> (r: Self)
        ensures
            r == (NativeApiError::Operation { message }),
    {
        NativeApiError::Operation { message }
    }

    /// Create a property not found error
    pub fn property_not_found(name: String) -> (r: Self)
        ensures
            r == NativeApiError::Property(PropertyError::NotFound { name }),
    {
        NativeApiError::Property(PropertyError::NotFound { name })
    }

    /// Create a method not found error
    pub fn method_not_found(name: String) -> (r: Self)
        ensures
            r == NativeApiError::Method(MethodError::NotFound { name }),
    {
        NativeApiError::Method(MethodError::NotFound { name })
    }

    /// Create an index out of bounds error
    pub fn index_out_of_bounds(index: usize) -> (r: Self)
        ensures
            r == NativeApiError::Property(PropertyError::IndexOutOfBounds { index }),
    {
        NativeApiError::Property(PropertyError::IndexOutOfBounds { index })
    }

    /// Create a type conversion error
    pub fn type_conversion(message: String) -> (r: Self)
        ensures
            r == NativeApiError::TypeConversion(TypeConversionError::ToString { message }),
    {
        NativeApiError::TypeConversion(TypeConversionError::ToString { message })
    }
}

impl PropertyError {
    /// Create a property not found error
    pub fn not_found(name: String) -> (r: Self)
        ensures
            r == (PropertyError::NotFound { name }),
    {
        PropertyError::NotFound { name }
    }

    /// Create an index out of bounds error
    pub fn index_out_of_bounds(index: usize) -> (r: Self)
        ensures
            r == (PropertyError::IndexOutOfBounds { index }),
    {
        PropertyError::IndexOutOfBounds { index }
    }

    /// Create a not readable error
    pub fn not_readable(index: usize) -> (r: Self)
        ensures
            r == (PropertyError::NotReadable { index }),
    {
        PropertyError::NotReadable { index }
    }

    /// Create a not writable error
    pub fn not_writable(index: usize) -> (r: Self)
        ensures
            r == (PropertyError::NotWritable { index }),
    {
        PropertyError::NotWritable { index }
    }
}

impl MethodError {
    /// Create a method not found error
    pub fn not_found(name: String) -> (r: Self)
        ensures
            r == (MethodError::NotFound { name }),
    {
        MethodError::NotFound { name }
    }

    /// Create an index out of bounds error
    pub fn index_out_of_bounds(index: usize) -> (r: Self)
        ensures
            r == (MethodError::IndexOutOfBounds { index }),
    {
        MethodError::IndexOutOfBounds { index }
    }

    /// Create a no return value error
    pub fn no_return_value(index: usize) -> (r: Self)
        ensures
            r == (MethodError::NoReturnValue { index }),
    {
        MethodError::NoReturnValue { index }
    }
}

impl MemoryError {
    /// Create an allocation failed error
    pub fn allocation_failed(size: usize) -> (r: Self)
        ensures
            r == (MemoryError::AllocationFailed { size }),
    {
        MemoryError::AllocationFailed { size }
    }

    /// Create a free failed error
    pub fn free_failed(address: Option<usize>) -> (r: Self)
        ensures
            r == (MemoryError::FreeFailed { address }),
    {
        MemoryError::FreeFailed { address }
    }
}

impl InitializationError {
    /// Create a connection failed error
    pub fn connection_failed(reason: String) -> (r: Self)
        ensures
            r == (InitializationError::ConnectionFailed { reason }),
    {
        InitializationError::ConnectionFailed { reason }
    }

    /// Create an invalid config error
    pub fn invalid_config(message: String) -> (r: Self)
        ensures
            r == (InitializationError::InvalidConfig { message }),
    {
        InitializationError::InvalidConfig { message }
    }
}

impl ParameterError {
    /// Create an index out of bounds error
    pub fn index_out_of_bounds(index: usize) -> (r: Self)
        ensures
            r == (ParameterError::IndexOutOfBounds { index }),
    {
        ParameterError::IndexOutOfBounds { index }
    }

    /// Create a type mismatch error
    pub fn type_mismatch(expected: String, actual: String) -> (r: Self)
        ensures
            r == (ParameterError::TypeMismatch { expected, actual }),
    {
        ParameterError::TypeMismatch { expected, actual }
    }

    /// Create an invalid value error
    pub fn invalid_value(message: String) -> (r: Self)
        ensures
            r == (ParameterError::InvalidValue { message }),
    {
        ParameterError::InvalidValue { message }
    }
}

impl TypeConversionError {
    /// Create a to string error
    pub fn to_string(message: String) -> (r: Self)
        ensures
            r == (TypeConversionError::ToString { message }),
    {
        TypeConversionError::ToString { message }
    }

    /// Create a from string error
    pub fn from_string(message: String) -> (r: Self)
        ensures
            r == (TypeConversionError::FromString { message }),
    {
        TypeConversionError::FromString { message }
    }

    /// Create an unsupported conversion error
    pub fn unsupported(from: String, to: String) -> (r: Self)
        ensures
            r == (TypeConversionError::Unsupported { from, to }),
    {
        TypeConversionError::Unsupported { from, to }
    }
}

} // verus!
