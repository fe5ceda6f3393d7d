//! The kind classification attached to a resolved type reference.

use vstd::prelude::*;

verus! {

/// The kind of declaration a resolved type reference points at.
#[derive(Debug, PartialEq, Eq, Clone, Copy, Structural)]
pub enum ResolvedTypeKind {
    Enum,
    Type,
    Component,
}

} // verus!
