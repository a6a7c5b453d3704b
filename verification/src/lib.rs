//! Layout capabilities for type declarations.
//!
//! A type's layout in memory follows from the strategy that its declaration
//! names in a layout annotation: `#[repr(C)]`, `#[repr(packed)]`,
//! `#[repr(transparent)]`, or `#[repr(u8)]` and its like on a tagged union.
//! This crate decides from the text of a declaration which strategy it
//! carries, and issues a grant for a capability only where the declaration
//! bears it out.
//!
//! - [`declaration`] and [`annotation`] hold the declaration as it is read.
//! - [`content`] asks the two questions that matter of an annotation's
//!   rendered content.
//! - [`classifier`] finds the layout among the annotations.
//! - [`grantor`] turns a classification into a grant or a refusal;
//!   [`diagnostic`] says why a capability was refused.
//! - [`guarantees`] states what holds of every outcome.
//! - [`capability`] holds the markers that a grant entitles a type to.

pub mod annotation;
pub mod capability;
pub mod classifier;
pub mod content;
pub mod declaration;
pub mod diagnostic;
pub mod grantor;
pub mod guarantees;
pub mod strategy;

pub use annotation::{Annotation, AnnotationName, AnnotationStyle, NameSegment};
pub use capability::{Packed, PrimitiveRepr, Transparent, C};
pub use classifier::{find_repr_type, has_repr};
pub use declaration::{Declaration, DeclarationKind};
pub use diagnostic::{GrantError, StructuralViolation};
pub use grantor::{grant, primitive_repr, repr_c, repr_packed, repr_transparent, CapabilityGrant};
pub use strategy::{Capability, FixedLayout, LayoutStrategy};
