//! Annotations attached to a declaration.
//!
//! An annotation has a style, a name and a content. The name is a path of
//! segments, as in `#[repr(C)]` (one segment, `repr`) or
//! `#[::tool::skip]` (a leading separator and two segments). The content is
//! what follows the name, rendered as text.

use vstd::prelude::*;

verus! {

/// Where an annotation is attached.
#[derive(Clone, Copy, Debug, PartialEq, Eq, Structural)]
pub enum AnnotationStyle {
    /// Written before the declaration, applying to the whole of it.
    Outer,
    /// Written inside the item that it applies to.
    Inner,
}

/// One segment of an annotation's name.
#[derive(Clone, Debug, PartialEq, Eq)]
pub struct NameSegment {
    /// The identifier of the segment.
    pub ident: String,
    /// Whether arguments are attached to the identifier.
    pub has_arguments: bool,
}

/// The name of an annotation: a path, possibly qualified.
#[derive(Clone, Debug, PartialEq, Eq)]
pub struct AnnotationName {
    /// Whether the path begins with a separator.
    pub leading_separator: bool,
    /// The segments of the path, in order.
    pub segments: Vec<NameSegment>,
}

/// A piece of metadata attached to a declaration.
#[derive(Clone, Debug, PartialEq, Eq)]
pub struct Annotation {
    /// Where the annotation is attached.
    pub style: AnnotationStyle,
    /// The name of the annotation.
    pub name: AnnotationName,
    /// What follows the name, rendered as text.
    pub content: String,
}

/// The mathematical value of a [`NameSegment`].
pub struct NameSegmentView {
    /// The identifier of the segment.
    pub ident: Seq<char>,
    /// Whether arguments are attached to the identifier.
    pub has_arguments: bool,
}

/// The mathematical value of an [`AnnotationName`].
pub struct AnnotationNameView {
    /// Whether the path begins with a separator.
    pub leading_separator: bool,
    /// The segments of the path, in order.
    pub segments: Seq<NameSegmentView>,
}

/// The mathematical value of an [`Annotation`].
pub struct AnnotationView {
    /// Where the annotation is attached.
    pub style: AnnotationStyle,
    /// The name of the annotation.
    pub name: AnnotationNameView,
    /// What follows the name, rendered as text.
    pub content: Seq<char>,
}

impl View for NameSegment {
    type V = NameSegmentView;

    open spec fn view(&self) -> NameSegmentView {
        NameSegmentView { ident: self.ident@, has_arguments: self.has_arguments }
    }
}

impl View for AnnotationName {
    type V = AnnotationNameView;

    open spec fn view(&self) -> AnnotationNameView {
        AnnotationNameView {
            leading_separator: self.leading_separator,
            segments: self.segments@.map_values(|segment: NameSegment| segment@),
        }
    }
}

impl View for Annotation {
    type V = AnnotationView;

    open spec fn view(&self) -> AnnotationView {
        AnnotationView { style: self.style, name: self.name@, content: self.content@ }
    }
}

/// The values of a sequence of annotations, in the same order.
pub open spec fn annotation_views(annotations: Seq<Annotation>) -> Seq<AnnotationView> {
    annotations.map_values(|annotation: Annotation| annotation@)
}

/// The word that names a layout annotation.
pub const LAYOUT_KEYWORD: &'static str = "repr";

impl AnnotationNameView {
    /// Whether the name is the single, unqualified word `word`, without
    /// arguments.
    pub open spec fn is_plain_word(self, word: Seq<char>) -> bool {
        &&& !self.leading_separator
        &&& self.segments.len() == 1
        &&& !self.segments[0].has_arguments
        &&& self.segments[0].ident == word
    }
}

impl AnnotationView {
    /// Whether this is a layout annotation: attached to the whole
    /// declaration and named by the layout keyword alone.
    pub open spec fn is_layout(self) -> bool {
        &&& self.style == AnnotationStyle::Outer
        &&& self.name.is_plain_word(LAYOUT_KEYWORD@)
    }
}

impl AnnotationName {
    /// Whether the name is the single, unqualified word `word`, without
    /// arguments.
    pub fn is_plain_word(&self, word: &str) -> (plain: bool)
        ensures
            plain == self@.is_plain_word(word@),
    {
        if self.leading_separator {
            return false;
        }
        if self.segments.len() != 1 {
            return false;
        }
        let segment = &self.segments[0];
        assert(self@.segments[0] == segment@);
        if segment.has_arguments {
            return false;
        }
        segment.ident == String::from_str(word)
    }
}

impl Annotation {
    /// Whether this is a layout annotation: attached to the whole
    /// declaration and named by the layout keyword alone.
    pub fn is_layout(&self) -> (layout: bool)
        ensures
            layout == self@.is_layout(),
    {
        match self.style {
            AnnotationStyle::Outer => self.name.is_plain_word(LAYOUT_KEYWORD),
            AnnotationStyle::Inner => false,
        }
    }
}

} // verus!
