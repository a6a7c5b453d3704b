//! The capability markers.
//!
//! A marker says of a type that its declaration carries a layout strategy.
//! Code that depends on the layout asks for the marker as a bound. A marker
//! has no behaviour of its own; implementing one is a claim about the
//! declaration, and a grant from [`crate::grantor`] is what backs the claim.

use vstd::prelude::*;

verus! {

/// Types declared with the layout `C`.
pub trait C {

}

/// Types declared with the layout `packed`.
pub trait Packed {

}

/// Types declared with the layout `transparent`.
pub trait Transparent {

}

/// Tagged unions declared with a primitive integer type for their tag.
///
/// Every value of such a type begins with its tag.
pub trait PrimitiveRepr {
    /// The primitive type of the tag.
    type Type;
}

} // verus!
