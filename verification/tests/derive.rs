use errorstack::derive::{expand, ErrorSite};
use errorstack::fields::{parse_fields, FieldsError};
use errorstack::model::{FieldDef, FieldsDef, GenericArg, ItemDef, PathEnd, TypeDef, VariantDef};
use errorstack::plan::{plan_fields, SourceFill, StackLink};

// ── Models of the test error types ──

fn path_ty(text: &str, last: &str) -> TypeDef {
    TypeDef {
        text: text.to_string(),
        path_end: Some(PathEnd { ident: last.to_string(), angle_args: None }),
    }
}

fn option_ty(inner: &str) -> TypeDef {
    TypeDef {
        text: format!("Option<{inner}>"),
        path_end: Some(PathEnd {
            ident: "Option".to_string(),
            angle_args: Some(vec![GenericArg::Type(inner.to_string())]),
        }),
    }
}

fn location_ty() -> TypeDef {
    TypeDef { text: "&'static std::panic::Location<'static>".to_string(), path_end: None }
}

fn field(name: &str, ty: TypeDef, attrs: &[&str]) -> FieldDef {
    FieldDef { name: name.to_string(), ty, attrs: attrs.iter().map(|a| a.to_string()).collect() }
}

fn loc_field() -> FieldDef {
    field("location", location_ty(), &["location"])
}

fn variant(name: &str, fields: Vec<FieldDef>) -> VariantDef {
    VariantDef { name: name.to_string(), fields: FieldsDef::Named(fields) }
}

fn my_error() -> ItemDef {
    ItemDef::Enum {
        name: "MyError".to_string(),
        variants: vec![
            variant(
                "Io",
                vec![
                    field("path", path_ty("String", "String"), &[]),
                    field("source", path_ty("std::io::Error", "Error"), &[]),
                    loc_field(),
                ],
            ),
            variant("NotFound", vec![field("id", path_ty("String", "String"), &[]), loc_field()]),
            variant(
                "Inner",
                vec![field("source", path_ty("InnerError", "InnerError"), &["stack_source"]), loc_field()],
            ),
            variant("Bare", vec![field("message", path_ty("String", "String"), &[])]),
        ],
    }
}

fn inner_error() -> ItemDef {
    ItemDef::Struct {
        name: "InnerError".to_string(),
        fields: FieldsDef::Named(vec![field("detail", path_ty("String", "String"), &[]), loc_field()]),
    }
}

fn optional_source_error() -> ItemDef {
    ItemDef::Enum {
        name: "OptionalSourceError".to_string(),
        variants: vec![
            variant(
                "MaybeIo",
                vec![
                    field("path", path_ty("String", "String"), &[]),
                    field("source", option_ty("std::io::Error"), &[]),
                    loc_field(),
                ],
            ),
            variant("MaybeInner", vec![field("source", option_ty("InnerError"), &["stack_source"]), loc_field()]),
        ],
    }
}

fn optional_struct_error() -> ItemDef {
    ItemDef::Struct {
        name: "OptionalStructError".to_string(),
        fields: FieldsDef::Named(vec![
            field("detail", path_ty("String", "String"), &[]),
            field("source", option_ty("InnerError"), &["stack_source"]),
            loc_field(),
        ]),
    }
}

fn expanded(item: &ItemDef) -> String {
    match expand(item) {
        Ok(s) => s,
        Err(f) => panic!("expansion failed: {}", f.message),
    }
}

// ── Tests ──

#[test]
fn constructor_with_source() {
    let out = expanded(&my_error());
    assert!(
        out.contains(
            "pub(crate) fn io(path: String) -> impl ::std::ops::FnOnce(std::io::Error) -> Self {\n\
             let location = ::std::panic::Location::caller();\n\
             move |source| Self::Io { source, path, location: location, }\n}\n"
        ),
        "should produce Io variant with correct path"
    );
}

#[test]
fn constructor_without_source() {
    let out = expanded(&my_error());
    assert!(
        out.contains(
            "pub(crate) fn not_found(id: String) -> Self {\n\
             let location = ::std::panic::Location::caller();\n\
             Self::NotFound { id, location: location, }\n}\n"
        ),
        "should produce NotFound variant with correct id"
    );
}

#[test]
fn location_captured() {
    let out = expanded(&my_error());
    assert!(
        out.contains("#[track_caller]\npub(crate) fn not_found("),
        "constructor should capture its caller's location"
    );
    assert!(
        out.contains("Self::NotFound { location, .. } => Some(location),\n"),
        "location should return the captured location"
    );
}

#[test]
fn location_optional() {
    let out = expanded(&my_error());
    assert!(
        out.contains("Self::Bare { .. } => None,\n}\n}\nfn stack_source"),
        "variant without #[location] should return None"
    );
    assert!(
        out.contains("pub(crate) fn bare(message: String) -> Self {\nSelf::Bare { message, }\n}\n"),
        "constructor without location should not capture one"
    );
}

#[test]
fn next_stack() {
    let out = expanded(&my_error());
    assert!(
        out.contains("Self::Inner { source, .. } => Some(source as &dyn ::errorstack::ErrorStack),\n"),
        "should return Some for #[stack_source]"
    );
}

#[test]
fn next_plain() {
    let out = expanded(&my_error());
    assert!(
        out.contains("match self {\nSelf::Io { .. } => None,\n"),
        "should return None without #[stack_source]"
    );
}

#[test]
fn next_stack_boxed() {
    let item = ItemDef::Enum {
        name: "BoxedError".to_string(),
        variants: vec![variant(
            "Boxed",
            vec![
                field(
                    "source",
                    TypeDef {
                        text: "Box<dyn ErrorStack + Send + Sync>".to_string(),
                        path_end: Some(PathEnd {
                            ident: "Box".to_string(),
                            angle_args: Some(vec![GenericArg::Type("dyn ErrorStack + Send + Sync".to_string())]),
                        }),
                    },
                    &["stack_source"],
                ),
                loc_field(),
            ],
        )],
    };
    let out = expanded(&item);
    assert!(
        out.contains("Self::Boxed { source, .. } => Some(source as &dyn ::errorstack::ErrorStack),\n"),
        "boxed #[stack_source] should return Some"
    );
    // The box itself is handed out as the next link, so the boxed error's
    // own `location` is what a walk reads; the boxed error records one.
    let inner = expanded(&inner_error());
    assert!(
        inner.contains("fn location(&self) -> Option<&'static ::std::panic::Location<'static>> {\nSome(self.location)\n}"),
        "boxed source should preserve location"
    );
}

#[test]
fn source_by_attribute() {
    let item = ItemDef::Enum {
        name: "AttrSourceError".to_string(),
        variants: vec![variant(
            "Wrapped",
            vec![field("cause", path_ty("std::io::Error", "Error"), &["source"]), loc_field()],
        )],
    };
    let out = expanded(&item);
    assert!(
        out.contains(
            "pub(crate) fn wrapped() -> impl ::std::ops::FnOnce(std::io::Error) -> Self {\n\
             let location = ::std::panic::Location::caller();\n\
             move |cause| Self::Wrapped { cause, location: location, }\n}\n"
        ),
        "should produce Wrapped variant via #[source] attribute"
    );
    assert!(
        out.contains("Self::Wrapped { .. } => None,\n}\n}\n}\n"),
        "#[source] without #[stack_source] should return None"
    );
}

#[test]
fn multiple_variants() {
    let out = expanded(&my_error());
    assert!(out.contains("pub(crate) fn io("), "io variant");
    assert!(out.contains("pub(crate) fn not_found("), "not_found variant");
    assert!(out.contains("pub(crate) fn inner("), "inner variant");
    assert!(out.contains("pub(crate) fn bare("), "bare variant");
}

#[test]
fn struct_error() {
    let out = expanded(&inner_error());
    assert_eq!(
        out,
        "impl InnerError {\n\
         #[doc = \"Constructs a [`InnerError`].\"]\n\
         #[track_caller]\n\
         pub(crate) fn new(detail: String) -> Self {\n\
         let location = ::std::panic::Location::caller();\n\
         Self { detail, location: location, }\n\
         }\n\
         }\n\
         impl ::errorstack::ErrorStack for InnerError {\n\
         fn location(&self) -> Option<&'static ::std::panic::Location<'static>> {\n\
         Some(self.location)\n\
         }\n\
         fn stack_source(&self) -> Option<&dyn ::errorstack::ErrorStack> {\n\
         None\n\
         }\n\
         }\n",
        "struct should have location"
    );
}

#[test]
fn location_through_closure() {
    let out = expanded(&my_error());
    let capture = out.find("let location = ::std::panic::Location::caller();\nmove |source| Self::Io");
    assert!(capture.is_some(), "location should be captured before the closure is returned");
}

#[test]
fn stack_source_implies_source() {
    let item = ItemDef::Enum {
        name: "ImpliedSourceError".to_string(),
        variants: vec![variant(
            "Implied",
            vec![field("cause", path_ty("InnerError", "InnerError"), &["stack_source"]), loc_field()],
        )],
    };
    let out = expanded(&item);
    assert!(
        out.contains("Self::Implied { cause, .. } => Some(cause as &dyn ::errorstack::ErrorStack),\n"),
        "#[stack_source] should imply source and enable typed chain walking"
    );
    assert!(out.contains("pub(crate) fn implied() -> impl ::std::ops::FnOnce(InnerError) -> Self"));
}

#[test]
fn optional_source_enum() {
    let out = expanded(&optional_source_error());
    assert!(
        out.contains(
            "pub(crate) fn maybe_io(path: String) -> Self {\n\
             let location = ::std::panic::Location::caller();\n\
             Self::MaybeIo { source: ::std::option::Option::None, path, location: location, }\n}\n"
        ),
        "sourceless constructor should set source to None"
    );
    assert!(
        out.contains(
            "pub(crate) fn maybe_io_with(path: String) -> impl ::std::ops::FnOnce(std::io::Error) -> Self {\n\
             let location = ::std::panic::Location::caller();\n\
             move |source| Self::MaybeIo { source: ::std::option::Option::Some(source), path, location: location, }\n}\n"
        ),
        "_with constructor should wrap source in Some"
    );
    assert!(
        out.contains(
            "pub(crate) fn maybe_inner() -> Self {\n\
             let location = ::std::panic::Location::caller();\n\
             Self::MaybeInner { source: ::std::option::Option::None, location: location, }\n}\n"
        ) && out.contains(
            "Self::MaybeInner { source, .. } => source.as_ref().map(|s| s as &dyn ::errorstack::ErrorStack),\n"
        ),
        "optional stack_source should return None when source is absent"
    );
    assert!(
        out.contains(
            "pub(crate) fn maybe_inner_with() -> impl ::std::ops::FnOnce(InnerError) -> Self {\n\
             let location = ::std::panic::Location::caller();\n\
             move |source| Self::MaybeInner { source: ::std::option::Option::Some(source), location: location, }\n}\n"
        ) && out.contains(
            "Self::MaybeInner { source, .. } => source.as_ref().map(|s| s as &dyn ::errorstack::ErrorStack),\n"
        ),
        "optional stack_source should return Some when source is present"
    );
}

#[test]
fn optional_source_struct() {
    let out = expanded(&optional_struct_error());
    assert!(
        out.contains(
            "pub(crate) fn new(detail: String) -> Self {\n\
             let location = ::std::panic::Location::caller();\n\
             Self { source: ::std::option::Option::None, detail, location: location, }\n}\n"
        ),
        "struct new() should set optional source to None"
    );
    assert!(
        out.contains("pub(crate) fn new_with(detail: String) -> impl ::std::ops::FnOnce(InnerError) -> Self {\n"),
        "struct new_with() should enable stack_source"
    );
    assert!(out.contains("self.source.as_ref().map(|s| s as &dyn ::errorstack::ErrorStack)"));
}

#[test]
fn optional_source_location() {
    let out = expanded(&optional_source_error());
    assert!(
        out.contains("pub(crate) fn maybe_io(path: String) -> Self {\nlet location = ::std::panic::Location::caller();\n"),
        "sourceless constructor should capture location"
    );
    assert!(
        out.contains(
            "-> impl ::std::ops::FnOnce(std::io::Error) -> Self {\nlet location = ::std::panic::Location::caller();\nmove |source|"
        ),
        "_with constructor should capture location at outer call site"
    );
}

// ── Refused inputs ──

#[test]
fn tuple_variant_refused() {
    let item = ItemDef::Enum {
        name: "AppError".to_string(),
        variants: vec![VariantDef { name: "Failure".to_string(), fields: FieldsDef::Unnamed }],
    };
    let err = expand(&item).unwrap_err();
    assert_eq!(err.site, ErrorSite::Variant(0));
    assert_eq!(
        err.message,
        "ErrorStack derive requires named (struct) variants; found tuple variant `Failure`"
    );
}

#[test]
fn unit_variant_refused() {
    let item = ItemDef::Enum {
        name: "AppError".to_string(),
        variants: vec![
            variant("Fine", vec![]),
            VariantDef { name: "Empty".to_string(), fields: FieldsDef::Unit },
        ],
    };
    let err = expand(&item).unwrap_err();
    assert_eq!(err.site, ErrorSite::Variant(1));
    assert_eq!(err.message, "ErrorStack derive requires named (struct) variants; found unit variant `Empty`");
}

#[test]
fn union_refused() {
    let err = expand(&ItemDef::Union { name: "Payload".to_string() }).unwrap_err();
    assert_eq!(err.site, ErrorSite::ItemName);
    assert_eq!(err.message, "ErrorStack derive is not supported on unions");
}

#[test]
fn unnamed_struct_refused() {
    let item = ItemDef::Struct { name: "Tuple".to_string(), fields: FieldsDef::Unnamed };
    let err = expand(&item).unwrap_err();
    assert_eq!(err.site, ErrorSite::ItemName);
    assert_eq!(err.message, "ErrorStack derive requires named fields");
}

#[test]
fn multiple_sources_refused() {
    let item = ItemDef::Enum {
        name: "AppError".to_string(),
        variants: vec![variant(
            "Conflict",
            vec![
                field("source", path_ty("std::io::Error", "Error"), &[]),
                field("other", path_ty("std::io::Error", "Error"), &["source"]),
            ],
        )],
    };
    let err = expand(&item).unwrap_err();
    assert_eq!(err.site, ErrorSite::Field { variant: Some(0), field: 1 });
    assert_eq!(err.message, "variant `Conflict` has multiple source fields");
}

#[test]
fn multiple_locations_refused() {
    let item = ItemDef::Enum {
        name: "AppError".to_string(),
        variants: vec![variant(
            "Conflict",
            vec![field("loc1", location_ty(), &["location"]), field("loc2", location_ty(), &["location"])],
        )],
    };
    let err = expand(&item).unwrap_err();
    assert_eq!(err.site, ErrorSite::Field { variant: Some(0), field: 1 });
    assert_eq!(err.message, "variant `Conflict` has multiple location fields");
}

#[test]
fn struct_clash_points_at_struct() {
    let item = ItemDef::Struct {
        name: "Twice".to_string(),
        fields: FieldsDef::Named(vec![
            field("a", path_ty("E", "E"), &["stack_source"]),
            field("source", path_ty("E", "E"), &[]),
        ]),
    };
    let err = expand(&item).unwrap_err();
    assert_eq!(err.site, ErrorSite::Field { variant: None, field: 1 });
    assert_eq!(err.message, "variant `Twice` has multiple source fields");
}

#[test]
fn first_refused_variant_wins() {
    let item = ItemDef::Enum {
        name: "AppError".to_string(),
        variants: vec![
            variant("Ok", vec![]),
            VariantDef { name: "Tup".to_string(), fields: FieldsDef::Unnamed },
            VariantDef { name: "Un".to_string(), fields: FieldsDef::Unit },
        ],
    };
    let err = expand(&item).unwrap_err();
    assert_eq!(err.site, ErrorSite::Variant(1));
}

// ── Field classification and plans ──

#[test]
fn classification_roles() {
    let fields = vec![
        field("path", path_ty("String", "String"), &[]),
        field("location", location_ty(), &["location"]),
        field("source", path_ty("InnerError", "InnerError"), &["stack_source"]),
        field("code", path_ty("u32", "u32"), &["doc"]),
    ];
    let parsed = parse_fields(&fields).unwrap();
    assert_eq!(parsed.source, Some(2));
    assert_eq!(parsed.location, Some(1));
    assert!(parsed.stack_source);
    assert_eq!(parsed.user_fields, vec![0, 3]);
}

#[test]
fn classification_first_clash() {
    let fields = vec![
        field("a", location_ty(), &["location"]),
        field("b", location_ty(), &["location"]),
        field("source", path_ty("E", "E"), &[]),
        field("c", path_ty("E", "E"), &["source"]),
    ];
    assert_eq!(parse_fields(&fields), Err(FieldsError::MultipleLocations(1)));
}

#[test]
fn source_attribute_wins_over_location() {
    let fields = vec![field("cause", path_ty("E", "E"), &["location", "source"]), loc_field()];
    let parsed = parse_fields(&fields).unwrap();
    assert_eq!(parsed.source, Some(0));
    assert_eq!(parsed.location, Some(1));
}

#[test]
fn plan_for_optional_source() {
    let fields = vec![field("source", option_ty("InnerError"), &["stack_source"]), loc_field()];
    let parsed = parse_fields(&fields).unwrap();
    let plan = plan_fields(&fields, &parsed, "maybe_inner".to_string());
    assert_eq!(plan.constructors.len(), 2);
    assert_eq!(plan.constructors[0].name, "maybe_inner");
    assert_eq!(plan.constructors[0].source, SourceFill::Empty(0));
    assert_eq!(plan.constructors[1].name, "maybe_inner_with");
    assert_eq!(plan.constructors[1].source, SourceFill::Wrapped(0));
    assert_eq!(plan.location, Some(1));
    assert_eq!(plan.stack, StackLink::Optional(0));
}

#[test]
fn plan_for_plain_source() {
    let fields = vec![field("source", path_ty("std::io::Error", "Error"), &[])];
    let parsed = parse_fields(&fields).unwrap();
    let plan = plan_fields(&fields, &parsed, "io".to_string());
    assert_eq!(plan.constructors.len(), 1);
    assert_eq!(plan.constructors[0].source, SourceFill::Taken(0));
    assert_eq!(plan.location, None);
    assert_eq!(plan.stack, StackLink::Unlinked);
}

#[test]
fn option_with_two_arguments_is_not_optional() {
    let ty = TypeDef {
        text: "Option<A, B>".to_string(),
        path_end: Some(PathEnd {
            ident: "Option".to_string(),
            angle_args: Some(vec![GenericArg::Type("A".to_string()), GenericArg::Type("B".to_string())]),
        }),
    };
    let fields = vec![field("source", ty, &[])];
    let parsed = parse_fields(&fields).unwrap();
    let plan = plan_fields(&fields, &parsed, "x".to_string());
    assert_eq!(plan.constructors.len(), 1);
    assert_eq!(plan.constructors[0].source, SourceFill::Taken(0));
}

#[test]
fn constructor_names_are_snake_case() {
    let item = ItemDef::Enum {
        name: "E".to_string(),
        variants: vec![variant("XMLHttpRequest", vec![]), variant("Bare", vec![])],
    };
    let out = expanded(&item);
    assert!(out.contains("pub(crate) fn xml_http_request() -> Self {\nSelf::XMLHttpRequest { }\n}\n"));
    assert!(out.contains("#[doc = \"Constructs a [`XMLHttpRequest`](Self::XMLHttpRequest) error.\"]"));
}

#[test]
fn empty_enum_expansion() {
    let item = ItemDef::Enum { name: "Never".to_string(), variants: vec![] };
    assert_eq!(
        expanded(&item),
        "impl Never {\n}\nimpl ::errorstack::ErrorStack for Never {\n\
         fn location(&self) -> Option<&'static ::std::panic::Location<'static>> {\nmatch self {\n}\n}\n\
         fn stack_source(&self) -> Option<&dyn ::errorstack::ErrorStack> {\nmatch self {\n}\n}\n}\n"
    );
}
