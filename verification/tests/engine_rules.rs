use better_default_derive::bounds::{add_trait_bounds, type_ident, uses_as_field_type, DEFAULT_BOUND};
use better_default_derive::constructor::{struct_case, synthesize, Constructor, FieldInit, Target};
use better_default_derive::error::{DeriveError, ErrorSite};
use better_default_derive::selector::{enum_case, has_default_attr, select_default, DEFAULT_MARKER};
use better_default_derive::syntax::{
    Attribute, Body, Declaration, Field, FieldShape, GenericParam, Path, PathSegment, TypeExpr,
    TypeKind, Variant,
};

fn segment(ident: &str, has_arguments: bool) -> PathSegment {
    PathSegment { ident: ident.to_string(), has_arguments }
}

fn path(leading_colon: bool, segments: Vec<PathSegment>) -> Path {
    Path { leading_colon, segments }
}

fn path_type(tokens: &str, qualified: bool, path: Path) -> TypeExpr {
    TypeExpr { tokens: tokens.to_string(), kind: TypeKind::Path { qualified, path } }
}

fn attr(name: &str) -> Attribute {
    Attribute { path: Path::from_ident(name) }
}

fn unit(name: &str, attrs: Vec<Attribute>) -> Variant {
    Variant { attrs, ident: name.to_string(), fields: FieldShape::Unit }
}

fn marked(name: &str) -> Variant {
    unit(name, vec![attr("default")])
}

fn plain(name: &str) -> Variant {
    unit(name, vec![])
}

fn positional(types: Vec<TypeExpr>) -> FieldShape {
    FieldShape::Positional(types.into_iter().map(|ty| Field { ident: None, ty }).collect())
}

fn param(name: &str, bounds: &[&str]) -> GenericParam {
    GenericParam { ident: name.to_string(), bounds: bounds.iter().map(|b| b.to_string()).collect() }
}

fn enum_of(variants: Vec<Variant>) -> Declaration {
    Declaration { ident: "E".to_string(), generics: vec![], body: Body::Enum(variants) }
}

fn run(decl: Declaration) -> Result<better_default_derive::engine::DefaultImpl, DeriveError> {
    assert!(decl.is_constructible());
    better_default_derive::engine::derive(decl)
}

#[test]
fn the_marker_is_the_word_default() {
    assert_eq!(DEFAULT_MARKER, "default");
    assert_eq!(DEFAULT_BOUND, "::std::default::Default");
}

#[test]
fn a_path_is_an_ident_only_when_it_is_nothing_else() {
    assert!(Path::from_ident("default").is_ident("default"));
    assert!(!Path::from_ident("default").is_ident("Default"));
    assert!(!Path::from_ident("r#default").is_ident("default"));
    assert!(!path(true, vec![segment("default", false)]).is_ident("default"));
    assert!(!path(false, vec![segment("default", true)]).is_ident("default"));
    assert!(!path(false, vec![segment("a", false), segment("default", false)]).is_ident("default"));
    assert!(!path(false, vec![]).is_ident("default"));
    assert_eq!(Path::from_ident("x").get_ident(), Some(&"x".to_string()));
    assert_eq!(path(true, vec![segment("x", false)]).get_ident(), None);
}

#[test]
fn only_the_first_attribute_marks_a_variant() {
    assert_eq!(has_default_attr(&plain("A")), None);
    assert_eq!(has_default_attr(&marked("A")), Some(true));
    assert_eq!(has_default_attr(&unit("A", vec![attr("doc")])), Some(false));
    assert_eq!(has_default_attr(&unit("A", vec![attr("doc"), attr("default")])), Some(false));
    assert_eq!(has_default_attr(&unit("A", vec![attr("default"), attr("doc")])), Some(true));
}

#[test]
fn a_marker_behind_another_attribute_is_not_seen() {
    let hidden = unit("A", vec![attr("doc"), attr("default")]);
    assert_eq!(run(enum_of(vec![hidden, plain("B")])), Err(DeriveError::MissingDefaultMarker));
}

#[test]
fn a_union_is_refused() {
    let decl = Declaration { ident: "U".to_string(), generics: vec![], body: Body::Union };
    let error = run(decl).unwrap_err();
    assert_eq!(error, DeriveError::UnsupportedShape);
    assert_eq!(error.site(), ErrorSite::Declaration);
    assert_eq!(error.message(), "#[derive(Default)] is not supported for unions");
}

#[test]
fn an_empty_enum_is_refused() {
    let error = run(enum_of(vec![])).unwrap_err();
    assert_eq!(error, DeriveError::EmptyEnum);
    assert_eq!(error.site(), ErrorSite::Declaration);
    assert_eq!(error.message(), "#[derive(Default)] is not supported for empty enums");
    assert_eq!(select_default(&vec![]), Err(DeriveError::EmptyEnum));
}

#[test]
fn an_enum_without_a_marker_is_refused() {
    let error = run(enum_of(vec![plain("A"), plain("B")])).unwrap_err();
    assert_eq!(error, DeriveError::MissingDefaultMarker);
    assert_eq!(error.site(), ErrorSite::Declaration);
    assert_eq!(error.message(), "expected one variant with #[default]");
}

#[test]
fn a_duplicate_is_reported_at_the_second_marked_variant() {
    let variants = vec![plain("A"), marked("B"), plain("C"), marked("D"), marked("E")];
    let error = select_default(&variants).unwrap_err();
    assert_eq!(error, DeriveError::DuplicateDefaultMarker { first: 1, second: 3 });
    assert_eq!(error.site(), ErrorSite::Variant(3));
    assert_eq!(run(enum_of(variants)), Err(error));
}

#[test]
fn the_one_marked_variant_is_selected_wherever_it_stands() {
    assert_eq!(select_default(&vec![marked("A")]), Ok(0));
    assert_eq!(select_default(&vec![plain("A"), plain("B"), marked("C")]), Ok(2));
    assert_eq!(select_default(&vec![plain("A"), marked("B"), plain("C")]), Ok(1));
}

#[test]
fn enum_case_hands_back_the_fields_of_the_default_variant() {
    let fields = positional(vec![TypeExpr::from_ident("u8")]);
    let variants = vec![
        plain("A"),
        Variant { attrs: vec![attr("default")], ident: "B".to_string(), fields: fields.clone() },
    ];
    let (constructor, constructed) = enum_case(&variants).unwrap();
    assert_eq!(constructed, fields);
    assert_eq!(
        constructor,
        Constructor::Tuple(
            Target::SelfVariant { position: 1, ident: "B".to_string() },
            vec![TypeExpr::from_ident("u8")]
        )
    );
}

#[test]
fn struct_case_hands_back_the_fields_of_the_struct() {
    let fields = positional(vec![TypeExpr::from_ident("u8")]);
    let (constructor, constructed) = struct_case("Foo", &fields);
    assert_eq!(constructed, fields);
    assert_eq!(constructor.to_source(), "Foo(u8::default())");
}

#[test]
fn a_shape_without_fields_still_has_its_brackets() {
    let tuple = synthesize(Target::Type("Foo".to_string()), &FieldShape::Positional(vec![]));
    assert_eq!(tuple, Constructor::Tuple(Target::Type("Foo".to_string()), vec![]));
    assert_eq!(tuple.to_source(), "Foo()");
    let record = synthesize(Target::Type("Foo".to_string()), &FieldShape::Named(vec![]));
    assert_eq!(record, Constructor::Record(Target::Type("Foo".to_string()), vec![]));
    assert_eq!(record.to_source(), "Foo {}");
}

#[test]
fn a_type_is_written_as_it_was_declared() {
    let shape = FieldShape::Named(vec![
        Field { ident: Some("a".to_string()), ty: TypeExpr::other("(u8, u8)") },
        Field {
            ident: Some("b".to_string()),
            ty: path_type(
                "std::string::String",
                false,
                path(false, vec![segment("std", false), segment("string", false), segment("String", false)]),
            ),
        },
        Field { ident: Some("c".to_string()), ty: TypeExpr::from_ident("T") },
    ]);
    let constructor =
        synthesize(Target::SelfVariant { position: 2, ident: "V".to_string() }, &shape);
    assert_eq!(
        constructor.to_source(),
        "Self::V { a: (u8, u8)::default(), b: std::string::String::default(), c: T::default() }"
    );
    match constructor {
        Constructor::Record(_, inits) => assert_eq!(
            inits[0],
            FieldInit { name: "a".to_string(), ty: TypeExpr::other("(u8, u8)") }
        ),
        other => panic!("not a record: {:?}", other),
    }
}

#[test]
fn named_fields_need_names() {
    let nameless = FieldShape::Named(vec![Field { ident: None, ty: TypeExpr::from_ident("u8") }]);
    assert!(!nameless.is_well_formed());
    assert!(positional(vec![TypeExpr::from_ident("u8")]).is_well_formed());
    assert!(FieldShape::Unit.is_well_formed());
    assert!(FieldShape::Named(vec![]).is_well_formed());

    let as_struct =
        Declaration { ident: "S".to_string(), generics: vec![], body: Body::Struct(nameless.clone()) };
    assert!(!as_struct.is_constructible());

    // Fields that are never constructed are never looked at.
    let unselected = Variant { attrs: vec![], ident: "B".to_string(), fields: nameless.clone() };
    let decl = enum_of(vec![marked("A"), unselected]);
    assert!(decl.is_constructible());
    assert_eq!(run(decl).unwrap().body.to_source(), "Self::A");

    let selected = Variant { attrs: vec![attr("default")], ident: "A".to_string(), fields: nameless };
    assert!(!enum_of(vec![selected]).is_constructible());
}

#[test]
fn the_ident_of_a_type_is_its_bare_name() {
    assert_eq!(type_ident(&TypeExpr::from_ident("T")), Some(&"T".to_string()));
    assert_eq!(type_ident(&TypeExpr::other("&T")), None);
    let vec_of_t = path_type("Vec<T>", false, path(false, vec![segment("Vec", true)]));
    assert_eq!(type_ident(&vec_of_t), None);
    let with_arguments = path_type("T<u8>", false, path(false, vec![segment("T", true)]));
    assert_eq!(type_ident(&with_arguments), None);
    let longer = path_type("a::T", false, path(false, vec![segment("a", false), segment("T", false)]));
    assert_eq!(type_ident(&longer), None);
    let qualified = path_type(
        "<T as Trait>::Item",
        true,
        path(false, vec![segment("Trait", false), segment("Item", false)]),
    );
    assert_eq!(type_ident(&qualified), None);
    let qualified_single = path_type("<T>::Item", true, path(false, vec![segment("Item", false)]));
    assert_eq!(type_ident(&qualified_single), None);
    let rooted = path_type("::T", false, path(true, vec![segment("T", false)]));
    assert_eq!(type_ident(&rooted), None);
    let no_segments = path_type("", false, path(false, vec![]));
    assert_eq!(type_ident(&no_segments), None);
}

#[test]
fn a_parameter_is_bounded_only_when_it_is_a_field_type() {
    let shape = positional(vec![
        TypeExpr::from_ident("A"),
        path_type("Vec<B>", false, path(false, vec![segment("Vec", true)])),
        path_type("m::C", false, path(false, vec![segment("m", false), segment("C", false)])),
        TypeExpr::other("&D"),
        TypeExpr::from_ident("u8"),
        TypeExpr::from_ident("A"),
    ]);
    assert!(uses_as_field_type(&shape, &"A".to_string()));
    assert!(!uses_as_field_type(&shape, &"B".to_string()));
    assert!(!uses_as_field_type(&shape, &"Vec".to_string()));
    assert!(uses_as_field_type(&shape, &"u8".to_string()));
    assert!(!uses_as_field_type(&FieldShape::Unit, &"A".to_string()));

    let mut generics = vec![
        param("A", &["Clone"]),
        param("B", &[]),
        param("C", &["Copy"]),
        param("D", &[]),
        param("E", &[]),
    ];
    add_trait_bounds(&mut generics, &shape);
    assert_eq!(
        generics,
        vec![
            param("A", &["Clone", "::std::default::Default"]),
            param("B", &[]),
            param("C", &["Copy"]),
            param("D", &[]),
            param("E", &[]),
        ]
    );
}

#[test]
fn only_the_default_variant_decides_the_bounds() {
    let decl = Declaration {
        ident: "Either".to_string(),
        generics: vec![param("L", &[]), param("R", &[])],
        body: Body::Enum(vec![
            Variant {
                attrs: vec![attr("default")],
                ident: "Left".to_string(),
                fields: positional(vec![TypeExpr::from_ident("L")]),
            },
            Variant {
                attrs: vec![],
                ident: "Right".to_string(),
                fields: positional(vec![TypeExpr::from_ident("R")]),
            },
        ]),
    };
    let generated = run(decl).unwrap();
    assert_eq!(generated.generics, vec![param("L", &["::std::default::Default"]), param("R", &[])]);
}

#[test]
fn a_failed_derivation_adds_no_bounds_and_gives_no_impl() {
    let decl = Declaration {
        ident: "E".to_string(),
        generics: vec![param("T", &[])],
        body: Body::Enum(vec![Variant {
            attrs: vec![],
            ident: "A".to_string(),
            fields: positional(vec![TypeExpr::from_ident("T")]),
        }]),
    };
    assert_eq!(run(decl), Err(DeriveError::MissingDefaultMarker));
}

#[test]
fn a_clone_equals_what_it_was_cloned_from() {
    let variant = Variant {
        attrs: vec![attr("default")],
        ident: "A".to_string(),
        fields: FieldShape::Named(vec![Field {
            ident: Some("x".to_string()),
            ty: path_type("Vec<T>", false, path(false, vec![segment("Vec", true)])),
        }]),
    };
    assert_eq!(variant.clone(), variant);
    let generic = param("T", &["Clone"]);
    assert_eq!(generic.clone(), generic);
}

#[test]
fn a_name_with_arguments_or_a_leading_colon_earns_no_bound() {
    let with_arguments = positional(vec![path_type("V<u8>", false, path(false, vec![segment("V", true)]))]);
    let mut generics = vec![param("V", &[])];
    add_trait_bounds(&mut generics, &with_arguments);
    assert_eq!(generics, vec![param("V", &[])]);

    let rooted = positional(vec![path_type("::V", false, path(true, vec![segment("V", false)]))]);
    add_trait_bounds(&mut generics, &rooted);
    assert_eq!(generics, vec![param("V", &[])]);

    let decl = Declaration {
        ident: "E".to_string(),
        generics: vec![param("V", &[])],
        body: Body::Enum(vec![Variant {
            attrs: vec![attr("default")],
            ident: "A".to_string(),
            fields: with_arguments,
        }]),
    };
    let generated = run(decl).unwrap();
    assert_eq!(generated.generics, vec![param("V", &[])]);
    assert_eq!(generated.body.to_source(), "Self::A(V<u8>::default())");
}
