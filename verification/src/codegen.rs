//! Declaration-time descriptions of an extension and its methods.
//!
//! A build that shares a declaration implements these traits for it, so
//! that a guest-side stub and the host dispatcher resolve identical
//! identifiers and method metadata.

use vstd::prelude::*;

verus! {

/// A chain extension's stable description.
pub trait ExtensionDescription {
    /// Unique chain extension identifier.
    const ID: u16;
}

/// One method's stable description, selected by the dispatch tag
/// derived from the method's name alone; the identifier itself may be
/// overridden at declaration time.
pub trait MethodDescription<const METHOD_HASH: u32> {
    /// Unique chain extension method identifier.
    const ID: u16;

    /// The method's input tuple type, as required for calls.
    type Input;

    /// The method's output type, holding a call's result.
    type Output;
}

} // verus!
