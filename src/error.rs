use vstd::prelude::*;

verus! {

/// The one error of this crate: it carries no detail, so that no caller can
/// learn why an operation on key material failed.
#[derive(Clone, Copy, Debug, PartialEq, Eq, Structural)]
pub struct Unspecified;

} // verus!
