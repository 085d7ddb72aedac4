//! Model of the host connection handle.
//!
//! The host hands the component an opaque connection object during
//! initialization.  The component never looks inside it; it only stores it
//! for the duration of the session.  The model keeps the handle as a plain
//! address-sized value.

use vstd::prelude::*;

verus! {

/// Opaque handle to the host connection, held for the whole session.
#[derive(Debug, Clone, Copy, PartialEq, Eq, Structural)]
pub struct Connection {
    handle: usize,
}

impl Connection {
    /// The raw handle value this connection wraps.
    pub closed spec fn handle_spec(&self) -> usize {
        self.handle
    }

    /// Wraps a raw host connection handle.
    pub fn new(handle: usize) -> (r: Connection)
        ensures
            r.handle_spec() == handle,
    {
        Connection { handle }
    }

    /// The raw handle value this connection wraps.
    pub fn handle_value(&self) -> (r: usize)
        ensures
            r == self.handle_spec(),
    {
        self.handle
    }
}

} // verus!
