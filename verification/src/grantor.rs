//! The capability grantor.
//!
//! A grant certifies that a declaration carries a layout strategy. It is
//! issued from the declaration's own text and from nothing else, and only
//! the functions of this module issue one.

use crate::classifier::{carries_layout, declared_primitive, find_repr_type, has_repr};
use crate::declaration::{Declaration, DeclarationKind, DeclarationView};
use crate::diagnostic::{GrantError, StructuralViolation};
use crate::strategy::{Capability, FixedLayout, LayoutStrategy, LayoutStrategyView};
use vstd::prelude::*;

verus! {

/// The certificate that a declaration carries a layout strategy.
#[derive(Clone, Debug, PartialEq, Eq)]
pub struct CapabilityGrant {
    declaration: String,
    strategy: LayoutStrategy,
}

/// The mathematical value of a [`CapabilityGrant`].
pub struct CapabilityGrantView {
    /// The name of the declaration that holds the grant.
    pub declaration: Seq<char>,
    /// The strategy that the grant certifies.
    pub strategy: LayoutStrategyView,
}

impl View for CapabilityGrant {
    type V = CapabilityGrantView;

    closed spec fn view(&self) -> CapabilityGrantView {
        CapabilityGrantView { declaration: self.declaration@, strategy: self.strategy@ }
    }
}

impl CapabilityGrant {
    /// The name of the declaration that holds the grant.
    pub fn declaration(&self) -> (name: &str)
        ensures
            name@ == self@.declaration,
    {
        self.declaration.as_str()
    }

    /// The strategy that the grant certifies.
    pub fn strategy(&self) -> (strategy: &LayoutStrategy)
        ensures
            strategy@ == self@.strategy,
    {
        &self.strategy
    }
}

/// What asking for the tagged-discriminant capability comes to, by the kind
/// of the declaration alone: the violation, if the kind rules a tag out.
pub open spec fn structural_violation(kind: DeclarationKind) -> Option<StructuralViolation> {
    match kind {
        DeclarationKind::Record => Some(StructuralViolation::SingleRecord),
        DeclarationKind::RawUnion => Some(StructuralViolation::RawUnion),
        DeclarationKind::TaggedUnion { variants } => if variants == 0 {
            Some(StructuralViolation::ZeroVariants)
        } else {
            None
        },
    }
}

/// The outcome of asking for `capability` on `declaration`.
///
/// A fixed layout is granted when an annotation declares it, and refused as
/// a mismatch otherwise. The tagged-discriminant capability is refused on
/// structural grounds before any annotation is looked at; past that, it is
/// granted with the declared primitive type, or refused as a mismatch when
/// none is declared.
pub open spec fn certify(declaration: DeclarationView, capability: Capability) -> Result<
    CapabilityGrantView,
    GrantError,
> {
    match capability {
        Capability::Fixed(layout) => if carries_layout(
            declaration.annotations,
            layout.spec_keyword(),
        ) {
            Ok(
                CapabilityGrantView {
                    declaration: declaration.name,
                    strategy: LayoutStrategyView::Fixed(layout),
                },
            )
        } else {
            Err(GrantError::LayoutMismatch(capability))
        },
        Capability::PrimitiveTagged => match structural_violation(declaration.kind) {
            Some(violation) => Err(GrantError::StructuralPrerequisiteViolated(violation)),
            None => match declared_primitive(declaration.annotations) {
                Some(primitive) => Ok(
                    CapabilityGrantView {
                        declaration: declaration.name,
                        strategy: LayoutStrategyView::PrimitiveTagged(primitive),
                    },
                ),
                None => Err(GrantError::LayoutMismatch(capability)),
            },
        },
    }
}

/// The mathematical value of an outcome.
pub open spec fn outcome_view(outcome: Result<CapabilityGrant, GrantError>) -> Result<
    CapabilityGrantView,
    GrantError,
> {
    match outcome {
        Ok(grant) => Ok(grant@),
        Err(error) => Err(error),
    }
}

/// Grants the capability of the fixed layout `layout` to `input`, or
/// refuses.
fn grant_fixed(input: &Declaration, layout: FixedLayout) -> (outcome: Result<
    CapabilityGrant,
    GrantError,
>)
    ensures
        outcome_view(outcome) == certify(input@, Capability::Fixed(layout)),
{
    if has_repr(input.annotations.as_slice(), layout.keyword()) {
        Ok(
            CapabilityGrant {
                declaration: input.name.clone(),
                strategy: LayoutStrategy::Fixed(layout),
            },
        )
    } else {
        Err(GrantError::LayoutMismatch(Capability::Fixed(layout)))
    }
}

/// Grants the capability `C` to `input`, or refuses.
pub fn repr_c(input: &Declaration) -> (outcome: Result<CapabilityGrant, GrantError>)
    ensures
        outcome_view(outcome) == certify(input@, Capability::Fixed(FixedLayout::C)),
{
    grant_fixed(input, FixedLayout::C)
}

/// Grants the capability `Packed` to `input`, or refuses.
pub fn repr_packed(input: &Declaration) -> (outcome: Result<CapabilityGrant, GrantError>)
    ensures
        outcome_view(outcome) == certify(input@, Capability::Fixed(FixedLayout::Packed)),
{
    grant_fixed(input, FixedLayout::Packed)
}

/// Grants the capability `Transparent` to `input`, or refuses.
pub fn repr_transparent(input: &Declaration) -> (outcome: Result<CapabilityGrant, GrantError>)
    ensures
        outcome_view(outcome) == certify(input@, Capability::Fixed(FixedLayout::Transparent)),
{
    grant_fixed(input, FixedLayout::Transparent)
}

/// Grants the tagged-discriminant capability to `input`, or refuses.
pub fn primitive_repr(input: &Declaration) -> (outcome: Result<CapabilityGrant, GrantError>)
    ensures
        outcome_view(outcome) == certify(input@, Capability::PrimitiveTagged),
{
    match input.kind {
        DeclarationKind::Record => {
            return Err(
                GrantError::StructuralPrerequisiteViolated(StructuralViolation::SingleRecord),
            );
        },
        DeclarationKind::RawUnion => {
            return Err(GrantError::StructuralPrerequisiteViolated(StructuralViolation::RawUnion));
        },
        DeclarationKind::TaggedUnion { variants } => {
            if variants == 0 {
                return Err(
                    GrantError::StructuralPrerequisiteViolated(StructuralViolation::ZeroVariants),
                );
            }
        },
    }
    match find_repr_type(input.annotations.as_slice()) {
        Some(primitive) => Ok(
            CapabilityGrant {
                declaration: input.name.clone(),
                strategy: LayoutStrategy::PrimitiveTagged(primitive),
            },
        ),
        None => Err(GrantError::LayoutMismatch(Capability::PrimitiveTagged)),
    }
}

/// Grants `capability` to `declaration`, or refuses.
pub fn grant(declaration: &Declaration, capability: Capability) -> (outcome: Result<
    CapabilityGrant,
    GrantError,
>)
    ensures
        outcome_view(outcome) == certify(declaration@, capability),
{
    match capability {
        Capability::Fixed(layout) => grant_fixed(declaration, layout),
        Capability::PrimitiveTagged => primitive_repr(declaration),
    }
}

} // verus!
