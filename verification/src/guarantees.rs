//! What holds of every grant and of every refusal.

use crate::classifier::{
    declares_layout, declares_primitive, layout_annotations, lemma_carries_layout_ignores_others,
    lemma_declared_primitive_has_source, lemma_declared_primitive_ignores_others,
    lemma_first_primitive_decides,
};
use crate::content::{
    inner_text, lemma_inner_text_of_parenthesized, lemma_inner_text_round_trip, parenthesized,
};
use crate::declaration::{DeclarationKind, DeclarationView};
use crate::diagnostic::GrantError;
use crate::grantor::{
    certify, outcome_view, structural_violation, CapabilityGrant, CapabilityGrantView,
};
use crate::strategy::{Capability, FixedLayout, LayoutStrategyView};
use vstd::prelude::*;

verus! {

/// Whether the text of `declaration` bears out `grant`: the grant is in the
/// declaration's name, and
/// - for a fixed layout, some layout annotation has exactly the layout's
///   keyword in parentheses as its content;
/// - for a primitive tag, the declaration is a tagged union with at least
///   one variant, and the named type is the inner text of a layout
///   annotation whose content names a primitive type.
pub open spec fn justified(declaration: DeclarationView, grant: CapabilityGrantView) -> bool {
    &&& grant.declaration == declaration.name
    &&& match grant.strategy {
        LayoutStrategyView::Fixed(layout) => exists|i: int|
            0 <= i < declaration.annotations.len() && declares_layout(
                #[trigger] declaration.annotations[i],
                layout.spec_keyword(),
            ),
        LayoutStrategyView::PrimitiveTagged(primitive) => {
            &&& declaration.kind.has_tag()
            &&& exists|i: int|
                0 <= i < declaration.annotations.len() && declares_primitive(
                    #[trigger] declaration.annotations[i],
                ) && primitive == inner_text(declaration.annotations[i].content)
        },
    }
}

/// A fixed layout is granted if and only if some layout annotation of the
/// declaration has exactly the layout's keyword in parentheses as its
/// content; the grant then names the declaration and the layout.
pub proof fn lemma_fixed_layout_granted_iff_declared(
    declaration: DeclarationView,
    layout: FixedLayout,
)
    ensures
        certify(declaration, Capability::Fixed(layout)) is Ok <==> exists|i: int|
            0 <= i < declaration.annotations.len() && {
                let annotation = #[trigger] declaration.annotations[i];
                annotation.is_layout() && annotation.content == parenthesized(
                    layout.spec_keyword(),
                )
            },
        certify(declaration, Capability::Fixed(layout)) is Ok ==> certify(
            declaration,
            Capability::Fixed(layout),
        ) == Ok::<CapabilityGrantView, GrantError>(
            CapabilityGrantView {
                declaration: declaration.name,
                strategy: LayoutStrategyView::Fixed(layout),
            },
        ),
        certify(declaration, Capability::Fixed(layout)) is Err ==> certify(
            declaration,
            Capability::Fixed(layout),
        ) == Err::<CapabilityGrantView, GrantError>(
            GrantError::LayoutMismatch(Capability::Fixed(layout)),
        ),
{
}

/// Only layout annotations count. An annotation that is attached in another
/// style, that has a qualified name or arguments to its name, or that goes
/// by another name is as good as absent: with all of them taken away, the
/// outcome is the same.
pub proof fn lemma_only_layout_annotations_count(
    declaration: DeclarationView,
    capability: Capability,
)
    ensures
        certify(declaration, capability) == certify(
            DeclarationView {
                annotations: layout_annotations(declaration.annotations),
                ..declaration
            },
            capability,
        ),
{
    match capability {
        Capability::Fixed(layout) => {
            lemma_carries_layout_ignores_others(declaration.annotations, layout.spec_keyword());
        },
        Capability::PrimitiveTagged => {
            lemma_declared_primitive_ignores_others(declaration.annotations);
        },
    }
}

/// On a tagged union with at least one variant, the tagged-discriminant
/// capability is granted with the inner text of the first layout annotation
/// whose content names a primitive type: that content without its two
/// parentheses, and otherwise unchanged.
pub proof fn lemma_primitive_tag_is_inner_text(declaration: DeclarationView, first: int)
    requires
        declaration.kind.has_tag(),
        0 <= first < declaration.annotations.len(),
        declares_primitive(declaration.annotations[first]),
        forall|j: int| 0 <= j < first ==> !declares_primitive(#[trigger] declaration.annotations[j]),
    ensures
        certify(declaration, Capability::PrimitiveTagged) == Ok::<CapabilityGrantView, GrantError>(
            CapabilityGrantView {
                declaration: declaration.name,
                strategy: LayoutStrategyView::PrimitiveTagged(
                    inner_text(declaration.annotations[first].content),
                ),
            },
        ),
        parenthesized(inner_text(declaration.annotations[first].content))
            == declaration.annotations[first].content,
{
    lemma_first_primitive_decides(declaration.annotations, first);
    lemma_inner_text_round_trip(declaration.annotations[first].content);
}

/// Extraction is exact: where the first layout annotation that names a
/// primitive type has `inner` in parentheses as its content, the grant names
/// `inner`, character for character.
pub proof fn lemma_primitive_tag_is_exact(
    declaration: DeclarationView,
    first: int,
    inner: Seq<char>,
)
    requires
        declaration.kind.has_tag(),
        0 <= first < declaration.annotations.len(),
        declaration.annotations[first].is_layout(),
        declaration.annotations[first].content == parenthesized(inner),
        inner.len() >= 1,
        inner[0] == 'u' || inner[0] == 'i',
        forall|j: int| 0 <= j < first ==> !declares_primitive(#[trigger] declaration.annotations[j]),
    ensures
        certify(declaration, Capability::PrimitiveTagged) == Ok::<CapabilityGrantView, GrantError>(
            CapabilityGrantView {
                declaration: declaration.name,
                strategy: LayoutStrategyView::PrimitiveTagged(inner),
            },
        ),
{
    lemma_inner_text_of_parenthesized(inner);
    lemma_first_primitive_decides(declaration.annotations, first);
}

/// A single record or a raw-memory union never holds a grant for a
/// primitive tag, whatever its annotations and whatever was asked for; the
/// tagged-discriminant capability is refused to it on structural grounds.
pub proof fn lemma_untagged_kinds_hold_no_primitive_tag(
    declaration: DeclarationView,
    capability: Capability,
)
    requires
        declaration.kind is Record || declaration.kind is RawUnion,
    ensures
        certify(declaration, capability) matches Ok(grant) ==> !(grant.strategy is PrimitiveTagged),
        certify(declaration, Capability::PrimitiveTagged) matches Err(error)
            && error is StructuralPrerequisiteViolated,
{
}

/// A tagged union without variants never holds a grant for a primitive tag,
/// whatever its annotations and whatever was asked for; the
/// tagged-discriminant capability is refused to it on structural grounds.
pub proof fn lemma_zero_variants_hold_no_primitive_tag(
    declaration: DeclarationView,
    capability: Capability,
)
    requires
        declaration.kind == (DeclarationKind::TaggedUnion { variants: 0 }),
    ensures
        certify(declaration, capability) matches Ok(grant) ==> !(grant.strategy is PrimitiveTagged),
        certify(declaration, Capability::PrimitiveTagged) matches Err(error)
            && error is StructuralPrerequisiteViolated,
{
}

/// Every grant is borne out by the text of its declaration, and attests the
/// capability that was asked for.
pub proof fn lemma_every_grant_is_justified(
    declaration: DeclarationView,
    capability: Capability,
    grant: CapabilityGrantView,
)
    requires
        certify(declaration, capability) == Ok::<CapabilityGrantView, GrantError>(grant),
    ensures
        justified(declaration, grant),
        grant.strategy.capability() == capability,
{
    if capability is PrimitiveTagged {
        let first = lemma_declared_primitive_has_source(declaration.annotations);
        assert(declares_primitive(declaration.annotations[first]));
    }
}

/// A refusal as a mismatch means that no annotation declares the layout; a
/// refusal on structural grounds comes for the tagged-discriminant
/// capability alone, and exactly on the kinds without a tag.
pub proof fn lemma_refusals(declaration: DeclarationView, capability: Capability)
    ensures
        certify(declaration, capability) matches Err(GrantError::LayoutMismatch(of)) ==> of
            == capability,
        certify(declaration, capability) matches Err(
            GrantError::StructuralPrerequisiteViolated(violation),
        ) ==> capability is PrimitiveTagged && !declaration.kind.has_tag()
            && structural_violation(declaration.kind) == Some(violation),
        capability is PrimitiveTagged && !declaration.kind.has_tag() ==> (certify(
            declaration,
            capability,
        ) matches Err(error) && error is StructuralPrerequisiteViolated),
{
}

/// Asking again changes nothing: two runs on one declaration for one
/// capability end in the same grant or in the same refusal.
pub proof fn lemma_outcome_is_repeatable(
    declaration: DeclarationView,
    capability: Capability,
    first: Result<CapabilityGrant, GrantError>,
    second: Result<CapabilityGrant, GrantError>,
)
    requires
        outcome_view(first) == certify(declaration, capability),
        outcome_view(second) == certify(declaration, capability),
    ensures
        outcome_view(first) == outcome_view(second),
        first is Ok <==> second is Ok,
        first matches Err(refusal) ==> second == Err::<CapabilityGrant, GrantError>(refusal),
{
}

} // verus!
