use repr_trait::annotation::LAYOUT_KEYWORD;
use repr_trait::{Annotation, AnnotationName, AnnotationStyle, NameSegment};

fn name(leading_separator: bool, segments: &[(&str, bool)]) -> AnnotationName {
    AnnotationName {
        leading_separator,
        segments: segments
            .iter()
            .map(|(ident, has_arguments)| NameSegment {
                ident: ident.to_string(),
                has_arguments: *has_arguments,
            })
            .collect(),
    }
}

fn annotation(style: AnnotationStyle, name: AnnotationName) -> Annotation {
    Annotation { style, name, content: "(C)".to_string() }
}

#[test]
fn layout_keyword_is_repr() {
    assert_eq!(LAYOUT_KEYWORD, "repr");
}

#[test]
fn plain_word_is_one_bare_segment() {
    assert!(name(false, &[("repr", false)]).is_plain_word("repr"));
    assert!(name(false, &[("doc", false)]).is_plain_word("doc"));
    assert!(name(false, &[("", false)]).is_plain_word(""));
}

#[test]
fn plain_word_compares_the_whole_identifier() {
    assert!(!name(false, &[("repr", false)]).is_plain_word("rep"));
    assert!(!name(false, &[("repr", false)]).is_plain_word("repr_c"));
    assert!(!name(false, &[("Repr", false)]).is_plain_word("repr"));
    assert!(!name(false, &[("r#repr", false)]).is_plain_word("repr"));
    assert!(!name(false, &[("repr", false)]).is_plain_word(""));
}

#[test]
fn plain_word_is_not_qualified() {
    assert!(!name(true, &[("repr", false)]).is_plain_word("repr"));
    assert!(!name(false, &[("core", false), ("repr", false)]).is_plain_word("repr"));
    assert!(!name(false, &[("repr", false), ("repr", false)]).is_plain_word("repr"));
    assert!(!name(false, &[]).is_plain_word("repr"));
    assert!(!name(false, &[]).is_plain_word(""));
}

#[test]
fn plain_word_bears_no_arguments() {
    assert!(!name(false, &[("repr", true)]).is_plain_word("repr"));
}

#[test]
fn layout_annotation_is_outer_and_named_repr() {
    assert!(annotation(AnnotationStyle::Outer, name(false, &[("repr", false)])).is_layout());
    assert!(!annotation(AnnotationStyle::Inner, name(false, &[("repr", false)])).is_layout());
    assert!(!annotation(AnnotationStyle::Outer, name(true, &[("repr", false)])).is_layout());
    assert!(!annotation(AnnotationStyle::Outer, name(false, &[("repr", true)])).is_layout());
    assert!(!annotation(AnnotationStyle::Outer, name(false, &[("derive", false)])).is_layout());
    assert!(!annotation(AnnotationStyle::Outer, name(false, &[("a", false), ("repr", false)]))
        .is_layout());
}

#[test]
fn layout_annotation_is_judged_by_name_and_style_alone() {
    let mut layout = annotation(AnnotationStyle::Outer, name(false, &[("repr", false)]));
    for content in ["(C)", "", "(u8)", "= 3", "anything at all"] {
        layout.content = content.to_string();
        assert!(layout.is_layout());
    }
}
