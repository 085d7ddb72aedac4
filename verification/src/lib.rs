//! Core of a 1C:Enterprise Native API component: a safe tagged value model,
//! a model of the host's wire variant record and memory gateway, the
//! marshaling engine between the two, and the dispatch protocol that routes
//! property and method operations to a component description.

pub mod descriptors;
pub mod dispatch;
pub mod errors;
pub mod ffi;
pub mod interface;
pub mod safe_wrappers;
