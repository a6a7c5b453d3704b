//! Type declarations as the classifier reads them.

use crate::annotation::{annotation_views, Annotation, AnnotationView};
use vstd::prelude::*;

verus! {

/// What kind of type a declaration defines.
#[derive(Clone, Copy, Debug, PartialEq, Eq, Structural)]
pub enum DeclarationKind {
    /// A single record: one fixed set of fields.
    Record,
    /// A tagged union: one of several variants at a time, told apart by a
    /// leading tag.
    TaggedUnion {
        /// The number of variants declared.
        variants: usize,
    },
    /// A raw-memory union: overlapping fields without a tag.
    RawUnion,
}

/// A named type definition with the annotations attached to it.
#[derive(Clone, Debug, PartialEq, Eq)]
pub struct Declaration {
    /// The name of the type.
    pub name: String,
    /// The kind of the type.
    pub kind: DeclarationKind,
    /// The annotations of the type, in the order they were written.
    pub annotations: Vec<Annotation>,
}

/// The mathematical value of a [`Declaration`].
pub struct DeclarationView {
    /// The name of the type.
    pub name: Seq<char>,
    /// The kind of the type.
    pub kind: DeclarationKind,
    /// The annotations of the type, in the order they were written.
    pub annotations: Seq<AnnotationView>,
}

impl View for Declaration {
    type V = DeclarationView;

    open spec fn view(&self) -> DeclarationView {
        DeclarationView {
            name: self.name@,
            kind: self.kind,
            annotations: annotation_views(self.annotations@),
        }
    }
}

impl DeclarationKind {
    /// Whether the kind is a tagged union with at least one variant, the
    /// only kind whose values begin with a tag.
    pub open spec fn has_tag(self) -> bool {
        self matches DeclarationKind::TaggedUnion { variants } && variants > 0
    }
}

} // verus!
