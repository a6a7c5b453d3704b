use repr_trait::{
    primitive_repr, repr_c, repr_packed, repr_transparent, Annotation, AnnotationName,
    AnnotationStyle, Capability, Declaration, DeclarationKind, FixedLayout, GrantError,
    LayoutStrategy, NameSegment, StructuralViolation,
};
use syn::parse::Parser;
use syn::{AttrStyle, Attribute, Data, DeriveInput};

fn annotation_of(attr: &Attribute) -> Annotation {
    Annotation {
        style: match attr.style {
            AttrStyle::Outer => AnnotationStyle::Outer,
            AttrStyle::Inner(_) => AnnotationStyle::Inner,
        },
        name: AnnotationName {
            leading_separator: attr.path.leading_colon.is_some(),
            segments: attr
                .path
                .segments
                .iter()
                .map(|segment| NameSegment {
                    ident: segment.ident.to_string(),
                    has_arguments: !segment.arguments.is_empty(),
                })
                .collect(),
        },
        content: attr.tokens.to_string(),
    }
}

fn read(source: &str) -> Declaration {
    let input: DeriveInput = syn::parse_str(source).unwrap();
    Declaration {
        name: input.ident.to_string(),
        kind: match &input.data {
            Data::Struct(_) => DeclarationKind::Record,
            Data::Enum(data) => DeclarationKind::TaggedUnion { variants: data.variants.len() },
            Data::Union(_) => DeclarationKind::RawUnion,
        },
        annotations: input.attrs.iter().map(annotation_of).collect(),
    }
}

fn mismatch(layout: FixedLayout) -> GrantError {
    GrantError::LayoutMismatch(Capability::Fixed(layout))
}

#[test]
fn test_compilation() {
    let packed_fail = read("struct NotPacked(u32, u8);");
    assert_eq!(repr_packed(&packed_fail), Err(mismatch(FixedLayout::Packed)));
    let packed_pass = read("#[derive(Default)] #[repr(packed)] struct PackedData(u32, u8);");
    assert_eq!(
        repr_packed(&packed_pass).unwrap().strategy(),
        &LayoutStrategy::Fixed(FixedLayout::Packed)
    );

    let transparent_fail = read("struct NotTransparent(u32);");
    assert_eq!(repr_transparent(&transparent_fail), Err(mismatch(FixedLayout::Transparent)));
    let transparent_pass = read("#[repr(transparent)] struct TransparentData(u32);");
    assert_eq!(
        repr_transparent(&transparent_pass).unwrap().strategy(),
        &LayoutStrategy::Fixed(FixedLayout::Transparent)
    );

    let c_fail = read("struct NotC { first: u32, second: u8 }");
    assert_eq!(repr_c(&c_fail), Err(mismatch(FixedLayout::C)));
    let c_pass = read("#[repr(C)] struct CData { first: u32, second: u8 }");
    assert_eq!(repr_c(&c_pass).unwrap().strategy(), &LayoutStrategy::Fixed(FixedLayout::C));

    let primitive_repr_fail = read("enum NoPrimitive { First, Second }");
    assert_eq!(
        primitive_repr(&primitive_repr_fail),
        Err(GrantError::LayoutMismatch(Capability::PrimitiveTagged))
    );

    let zero_variants_fail = read("#[repr(u8)] enum ZeroVariants {}");
    assert_eq!(
        primitive_repr(&zero_variants_fail),
        Err(GrantError::StructuralPrerequisiteViolated(StructuralViolation::ZeroVariants))
    );
}

#[test]
fn parsed_simple_enum_is_tagged_with_i64() {
    let input = read("#[repr(i64)] enum SimpleEnum { A, B, C }");
    assert_eq!(input.kind, DeclarationKind::TaggedUnion { variants: 3 });
    let granted = primitive_repr(&input).unwrap();
    assert_eq!(granted.declaration(), "SimpleEnum");
    assert_eq!(granted.strategy(), &LayoutStrategy::PrimitiveTagged("i64".to_string()));
}

#[test]
fn parsed_complex_enum_is_tagged_with_usize() {
    let input =
        read("#[repr(usize)] enum ComplexEnum { Unit, Tuple(u64) = 154, Struct { _a: bool } }");
    assert_eq!(input.kind, DeclarationKind::TaggedUnion { variants: 3 });
    let granted = primitive_repr(&input).unwrap();
    assert_eq!(granted.declaration(), "ComplexEnum");
    assert_eq!(granted.strategy(), &LayoutStrategy::PrimitiveTagged("usize".to_string()));
}

#[test]
fn parsed_layout_annotation_renders_in_parentheses() {
    let input = read("#[repr(C)] struct S;");
    assert_eq!(input.annotations.len(), 1);
    assert_eq!(input.annotations[0].style, AnnotationStyle::Outer);
    assert!(!input.annotations[0].name.leading_separator);
    assert_eq!(
        input.annotations[0].name.segments,
        vec![NameSegment { ident: "repr".to_string(), has_arguments: false }]
    );
    assert_eq!(input.annotations[0].content, "(C)");
}

#[test]
fn parsed_annotations_keep_their_order() {
    let input = read("/// Text.\n#[derive(Clone)] #[repr(u8)] #[repr(i16)] enum E { A }");
    let names: Vec<String> = input
        .annotations
        .iter()
        .map(|annotation| annotation.name.segments[0].ident.clone())
        .collect();
    assert_eq!(names, vec!["doc", "derive", "repr", "repr"]);
    let granted = primitive_repr(&input).unwrap();
    assert_eq!(granted.strategy(), &LayoutStrategy::PrimitiveTagged("u8".to_string()));
}

#[test]
fn parsed_list_of_layouts_matches_no_fixed_layout() {
    let input = read("#[repr(C, packed)] struct S { a: u8 }");
    assert_eq!(input.annotations[0].content, "(C , packed)");
    assert_eq!(repr_c(&input), Err(mismatch(FixedLayout::C)));
    assert_eq!(repr_packed(&input), Err(mismatch(FixedLayout::Packed)));
}

#[test]
fn parsed_list_counts_as_primitive_by_its_first_word_alone() {
    let leading = read("#[repr(u8, C)] enum E { A }");
    assert_eq!(
        primitive_repr(&leading).unwrap().strategy(),
        &LayoutStrategy::PrimitiveTagged("u8 , C".to_string())
    );
    let trailing = read("#[repr(C, u8)] enum E { A }");
    assert_eq!(
        primitive_repr(&trailing),
        Err(GrantError::LayoutMismatch(Capability::PrimitiveTagged))
    );
}

#[test]
fn parsed_qualified_annotation_is_no_layout_annotation() {
    let nested = read("#[core::repr(C)] struct S;");
    assert_eq!(nested.annotations[0].name.segments.len(), 2);
    assert_eq!(repr_c(&nested), Err(mismatch(FixedLayout::C)));

    let rooted = read("#[::repr(C)] struct S;");
    assert!(rooted.annotations[0].name.leading_separator);
    assert_eq!(repr_c(&rooted), Err(mismatch(FixedLayout::C)));
}

#[test]
fn parsed_annotation_of_another_shape_is_no_layout() {
    let assigned = read("#[repr = \"C\"] struct S;");
    assert_eq!(repr_c(&assigned), Err(mismatch(FixedLayout::C)));
    let bracketed = read("#[repr[C]] struct S;");
    assert_eq!(repr_c(&bracketed), Err(mismatch(FixedLayout::C)));
    let bare = read("#[repr] struct S;");
    assert_eq!(bare.annotations[0].content, "");
    assert_eq!(repr_c(&bare), Err(mismatch(FixedLayout::C)));
    let lower = read("#[repr(c)] struct S;");
    assert_eq!(repr_c(&lower), Err(mismatch(FixedLayout::C)));
}

#[test]
fn parsed_inner_annotation_is_no_layout_annotation() {
    let attrs = Attribute::parse_inner.parse_str("#![repr(C)]").unwrap();
    let inner = annotation_of(&attrs[0]);
    assert_eq!(inner.style, AnnotationStyle::Inner);
    assert_eq!(inner.content, "(C)");
    let input = Declaration {
        name: "S".to_string(),
        kind: DeclarationKind::Record,
        annotations: vec![inner],
    };
    assert_eq!(repr_c(&input), Err(mismatch(FixedLayout::C)));
}

#[test]
fn parsed_record_and_union_hold_no_primitive_tag() {
    let record = read("#[repr(u8)] struct S { a: u8 }");
    assert_eq!(
        primitive_repr(&record),
        Err(GrantError::StructuralPrerequisiteViolated(StructuralViolation::SingleRecord))
    );
    let union = read("#[repr(u8)] union U { a: u8, b: u16 }");
    assert_eq!(union.kind, DeclarationKind::RawUnion);
    assert_eq!(
        primitive_repr(&union),
        Err(GrantError::StructuralPrerequisiteViolated(StructuralViolation::RawUnion))
    );
}

#[test]
fn parsed_source_spacing_is_no_part_of_the_content() {
    let spaced = read("#[repr( C )] struct S;");
    assert_eq!(spaced.annotations[0].content, "(C)");
    assert_eq!(repr_c(&spaced).unwrap().strategy(), &LayoutStrategy::Fixed(FixedLayout::C));
    let spaced = read("# [ repr ( u8 ) ] enum E { A }");
    assert_eq!(spaced.annotations[0].content, "(u8)");
    assert_eq!(
        primitive_repr(&spaced).unwrap().strategy(),
        &LayoutStrategy::PrimitiveTagged("u8".to_string())
    );
}

#[test]
fn parsed_raw_identifier_is_another_name() {
    let raw = read("#[r#repr(C)] struct S;");
    assert_eq!(raw.annotations[0].name.segments[0].ident, "r#repr");
    assert_eq!(repr_c(&raw), Err(mismatch(FixedLayout::C)));
}
