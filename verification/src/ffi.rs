//! Models of the host-facing binary interface: the wire variant record, the
//! memory manager gateway, the host connection handle and string utilities.

pub mod connection;
pub mod memory_manager;
pub mod provided_types;
pub mod string_utils;
