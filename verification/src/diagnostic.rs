//! Why a capability was refused.

use crate::strategy::Capability;
use vstd::prelude::*;

verus! {

/// What disqualifies a declaration from the tagged-discriminant capability,
/// whatever its annotations say.
#[derive(Clone, Copy, Debug, PartialEq, Eq, Structural)]
pub enum StructuralViolation {
    /// The declaration is a single record.
    SingleRecord,
    /// The declaration is a raw-memory union.
    RawUnion,
    /// The declaration is a tagged union without variants.
    ZeroVariants,
}

/// A refusal. Every refusal is final: the declaration is fixed text, so
/// asking again gives the same answer.
#[derive(Clone, Copy, Debug, PartialEq, Eq, Structural)]
pub enum GrantError {
    /// No annotation of the declaration declares the layout that the
    /// capability attests.
    LayoutMismatch(Capability),
    /// The kind of the declaration, or its number of variants, rules the
    /// tagged-discriminant capability out.
    StructuralPrerequisiteViolated(StructuralViolation),
}

impl StructuralViolation {
    /// The disqualified declaration, in words.
    pub open spec fn spec_description(self) -> Seq<char> {
        match self {
            StructuralViolation::SingleRecord => "a single-record type"@,
            StructuralViolation::RawUnion => "a raw-memory-union type"@,
            StructuralViolation::ZeroVariants => "a zero-variant tagged union"@,
        }
    }

    /// The disqualified declaration, in words.
    pub fn description(self) -> (words: &'static str)
        ensures
            words@ == self.spec_description(),
    {
        match self {
            StructuralViolation::SingleRecord => "a single-record type",
            StructuralViolation::RawUnion => "a raw-memory-union type",
            StructuralViolation::ZeroVariants => "a zero-variant tagged union",
        }
    }
}

impl GrantError {
    /// The diagnostic text of the refusal.
    pub open spec fn spec_message(self) -> Seq<char> {
        match self {
            GrantError::LayoutMismatch(Capability::Fixed(layout)) => {
                "cannot grant capability `"@ + layout.spec_name()
                    + "` to a declaration without layout annotation `"@ + layout.spec_keyword()
                    + "`"@
            },
            GrantError::LayoutMismatch(Capability::PrimitiveTagged) => {
                "cannot grant the tagged-discriminant capability to a declaration without layout annotation `u*` or `i*`"@
            },
            GrantError::StructuralPrerequisiteViolated(violation) => {
                "cannot grant the tagged-discriminant capability to "@
                    + violation.spec_description()
            },
        }
    }

    /// The diagnostic text of the refusal.
    pub fn message(&self) -> (text: String)
        ensures
            text@ == self.spec_message(),
    {
        match self {
            GrantError::LayoutMismatch(Capability::Fixed(layout)) => {
                let mut text = String::from_str("cannot grant capability `");
                text.append(layout.name());
                text.append("` to a declaration without layout annotation `");
                text.append(layout.keyword());
                text.append("`");
                text
            },
            GrantError::LayoutMismatch(Capability::PrimitiveTagged) => {
                String::from_str(
                    "cannot grant the tagged-discriminant capability to a declaration without layout annotation `u*` or `i*`",
                )
            },
            GrantError::StructuralPrerequisiteViolated(violation) => {
                let mut text = String::from_str(
                    "cannot grant the tagged-discriminant capability to ",
                );
                text.append(violation.description());
                text
            },
        }
    }
}

} // verus!
