//! The layout classifier.
//!
//! Classification looks at the annotations of a declaration in the order
//! they were written and at nothing else. Only layout annotations count:
//! those attached to the whole declaration and named by the layout keyword
//! alone. Their content is compared as text.

use crate::annotation::{annotation_views, Annotation, AnnotationView};
use crate::content::{
    inner_text, is_parenthesized, names_primitive, parenthesized, primitive_type_name,
};
use vstd::prelude::*;

verus! {

/// Whether `annotation` declares the layout `layout`: a layout annotation
/// whose content is exactly `layout` in parentheses.
pub open spec fn declares_layout(annotation: AnnotationView, layout: Seq<char>) -> bool {
    annotation.is_layout() && annotation.content == parenthesized(layout)
}

/// Whether some annotation among `annotations` declares the layout `layout`.
pub open spec fn carries_layout(annotations: Seq<AnnotationView>, layout: Seq<char>) -> bool {
    exists|i: int| 0 <= i < annotations.len() && declares_layout(#[trigger] annotations[i], layout)
}

/// Whether `annotation` declares a primitive layout: a layout annotation
/// whose content names a primitive type.
pub open spec fn declares_primitive(annotation: AnnotationView) -> bool {
    annotation.is_layout() && names_primitive(annotation.content)
}

/// The primitive type that `annotations` declare: the one named by the first
/// annotation that declares a primitive layout, if there is any.
pub open spec fn declared_primitive(annotations: Seq<AnnotationView>) -> Option<Seq<char>>
    decreases annotations.len(),
{
    if annotations.len() == 0 {
        None
    } else if declares_primitive(annotations[0]) {
        Some(inner_text(annotations[0].content))
    } else {
        declared_primitive(annotations.drop_first())
    }
}

/// The first annotation that declares a primitive layout decides: the type
/// is the inner text of its content, whatever follows it.
pub proof fn lemma_first_primitive_decides(annotations: Seq<AnnotationView>, first: int)
    requires
        0 <= first < annotations.len(),
        declares_primitive(annotations[first]),
        forall|j: int| 0 <= j < first ==> !declares_primitive(#[trigger] annotations[j]),
    ensures
        declared_primitive(annotations) == Some(inner_text(annotations[first].content)),
    decreases annotations.len(),
{
    if first > 0 {
        let rest = annotations.drop_first();
        assert(!declares_primitive(annotations[0]));
        assert forall|j: int| 0 <= j < first - 1 implies !declares_primitive(
            #[trigger] rest[j],
        ) by {
            assert(rest[j] == annotations[j + 1]);
        }
        lemma_first_primitive_decides(rest, first - 1);
    }
}

/// A declared primitive type comes from the first annotation that declares a
/// primitive layout.
pub proof fn lemma_declared_primitive_has_source(annotations: Seq<AnnotationView>) -> (first: int)
    requires
        declared_primitive(annotations) is Some,
    ensures
        0 <= first < annotations.len(),
        declares_primitive(annotations[first]),
        forall|j: int| 0 <= j < first ==> !declares_primitive(#[trigger] annotations[j]),
        declared_primitive(annotations) == Some(inner_text(annotations[first].content)),
    decreases annotations.len(),
{
    if declares_primitive(annotations[0]) {
        0
    } else {
        let rest = annotations.drop_first();
        let later = lemma_declared_primitive_has_source(rest);
        assert(rest[later] == annotations[later + 1]);
        assert forall|j: int| 0 <= j < later + 1 implies !declares_primitive(
            #[trigger] annotations[j],
        ) by {
            if j > 0 {
                assert(rest[j - 1] == annotations[j]);
            }
        }
        later + 1
    }
}

/// No primitive type is declared exactly when no annotation declares a
/// primitive layout.
pub proof fn lemma_no_primitive_declared(annotations: Seq<AnnotationView>)
    ensures
        declared_primitive(annotations) is None <==> forall|i: int|
            0 <= i < annotations.len() ==> !declares_primitive(#[trigger] annotations[i]),
    decreases annotations.len(),
{
    if annotations.len() > 0 {
        let rest = annotations.drop_first();
        lemma_no_primitive_declared(rest);
        if !declares_primitive(annotations[0]) {
            if declared_primitive(rest) is None {
                assert forall|i: int| 0 <= i < annotations.len() implies !declares_primitive(
                    #[trigger] annotations[i],
                ) by {
                    if i > 0 {
                        assert(rest[i - 1] == annotations[i]);
                    }
                }
            } else {
                let k = choose|k: int| 0 <= k < rest.len() && declares_primitive(#[trigger] rest[k]);
                assert(annotations[k + 1] == rest[k]);
            }
        }
    }
}

/// The layout annotations among `annotations`, in the same order.
pub open spec fn layout_annotations(annotations: Seq<AnnotationView>) -> Seq<AnnotationView> {
    annotations.filter(|annotation: AnnotationView| annotation.is_layout())
}

/// Whether a layout is carried depends on the layout annotations alone.
pub proof fn lemma_carries_layout_ignores_others(
    annotations: Seq<AnnotationView>,
    layout: Seq<char>,
)
    ensures
        carries_layout(layout_annotations(annotations), layout) == carries_layout(
            annotations,
            layout,
        ),
{
    let is_layout = |annotation: AnnotationView| annotation.is_layout();
    let kept = annotations.filter(is_layout);
    if carries_layout(kept, layout) {
        let i = choose|i: int| 0 <= i < kept.len() && declares_layout(#[trigger] kept[i], layout);
        assert(kept.contains(kept[i]));
        annotations.lemma_filter_contains_rev(is_layout, kept[i]);
        let j = choose|j: int| 0 <= j < annotations.len() && annotations[j] == kept[i];
        assert(declares_layout(annotations[j], layout));
    }
    if carries_layout(annotations, layout) {
        let j = choose|j: int|
            0 <= j < annotations.len() && declares_layout(#[trigger] annotations[j], layout);
        assert(is_layout(annotations[j]));
        annotations.lemma_filter_contains(is_layout, j);
        let i = choose|i: int| 0 <= i < kept.len() && kept[i] == annotations[j];
        assert(declares_layout(kept[i], layout));
    }
}

/// Which primitive type is declared depends on the layout annotations alone.
pub proof fn lemma_declared_primitive_ignores_others(annotations: Seq<AnnotationView>)
    ensures
        declared_primitive(layout_annotations(annotations)) == declared_primitive(annotations),
    decreases annotations.len(),
{
    let is_layout = |annotation: AnnotationView| annotation.is_layout();
    let kept = annotations.filter(is_layout);
    annotations.lemma_filter_eq_filter_alt(is_layout);
    if annotations.len() > 0 {
        let rest = annotations.drop_first();
        lemma_declared_primitive_ignores_others(rest);
        if is_layout(annotations[0]) {
            assert(kept.drop_first() =~= rest.filter(is_layout));
        }
    }
}

/// Whether one of `attrs` declares the layout `repr`.
pub fn has_repr(attrs: &[Annotation], repr: &str) -> (found: bool)
    ensures
        found == carries_layout(annotation_views(attrs@), repr@),
{
    let ghost views = annotation_views(attrs@);
    let mut index: usize = 0;
    while index < attrs.len()
        invariant
            index <= attrs.len(),
            views == annotation_views(attrs@),
            forall|j: int| 0 <= j < index ==> !declares_layout(#[trigger] views[j], repr@),
        decreases attrs.len() - index,
    {
        let attr = &attrs[index];
        assert(views[index as int] == attr@);
        if attr.is_layout() && is_parenthesized(attr.content.as_str(), repr) {
            return true;
        }
        index += 1;
    }
    false
}

/// The primitive type that `attributes` declare, if they declare one.
pub fn find_repr_type(attributes: &[Annotation]) -> (found: Option<String>)
    ensures
        match found {
            Some(primitive) => declared_primitive(annotation_views(attributes@)) == Some(
                primitive@,
            ),
            None => declared_primitive(annotation_views(attributes@)) is None,
        },
{
    let ghost views = annotation_views(attributes@);
    let mut index: usize = 0;
    while index < attributes.len()
        invariant
            index <= attributes.len(),
            views == annotation_views(attributes@),
            forall|j: int| 0 <= j < index ==> !declares_primitive(#[trigger] views[j]),
        decreases attributes.len() - index,
    {
        let attr = &attributes[index];
        assert(views[index as int] == attr@);
        if attr.is_layout() {
            if let Some(primitive) = primitive_type_name(attr.content.as_str()) {
                proof {
                    lemma_first_primitive_decides(views, index as int);
                }
                return Some(primitive);
            }
        }
        index += 1;
    }
    proof {
        lemma_no_primitive_declared(views);
    }
    None
}

} // verus!
