//! What a type needs to be written to the log.
use vstd::prelude::*;

verus! {

/// A type that the log can print.
pub trait Format: core::fmt::Debug {}

} // verus!
