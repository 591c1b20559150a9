use async_graphql_extras::attr::{AttrTokens, Attribute};
use async_graphql_extras::generate::{
    generate_input_struct, generate_output_struct, graphql_object, input_struct_name, Expansion,
    InputError, InputObject, IntoImpl,
};
use async_graphql_extras::item::{Field, Fields, ItemStruct, Type};
use async_graphql_extras::options::{GraphqlObjectFieldArgs, GraphqlObjectMetaArgs};
use async_graphql_extras::path::{Path, PathArguments, PathSegment};

type Args = Result<GraphqlObjectFieldArgs, String>;

fn attr(name: &str, tokens: &str) -> Attribute {
    Attribute {
        path: Path::from_ident(name.to_string()),
        tokens: AttrTokens::Source(tokens.to_string()),
    }
}

fn ty(name: &str) -> Type {
    Type::Path(Path::from_ident(name.to_string()))
}

fn field(name: &str, of: &str, attrs: Vec<Attribute>) -> Field {
    Field { attrs, vis: String::new(), ident: Some(name.to_string()), ty: ty(of) }
}

fn plain() -> Args {
    Ok(GraphqlObjectFieldArgs { input_type: None })
}

fn retarget(name: &str) -> Args {
    Ok(GraphqlObjectFieldArgs { input_type: Some(Path::from_ident(name.to_string())) })
}

fn simple_object() -> Attribute {
    attr("derive", "(::async_graphql::SimpleObject)")
}

fn input_object() -> Attribute {
    attr("derive", "(::async_graphql::InputObject)")
}

fn doc(text: &str) -> Attribute {
    Attribute {
        path: Path::from_ident("doc".to_string()),
        tokens: AttrTokens::Assigned(text.to_string()),
    }
}

/// `/// Information about the user`
/// `pub struct UserData { username: String, display_name: String,`
/// `#[graphql_object(input_type = "InputFavorites")] favorites: Favorites }`
fn user_data() -> ItemStruct {
    ItemStruct {
        attrs: vec![attr("doc", "= \" Information about the user\"")],
        vis: "pub".to_string(),
        ident: "UserData".to_string(),
        generics: String::new(),
        where_clause: String::new(),
        fields: Fields::Named(vec![
            field("username", "String", vec![]),
            field("display_name", "String", vec![]),
            field(
                "favorites",
                "Favorites",
                vec![attr("graphql_object", "(input_type = \"InputFavorites\")")],
            ),
        ]),
    }
}

fn user_data_args() -> Vec<Args> {
    vec![plain(), plain(), retarget("InputFavorites")]
}

fn user_data_stripped_fields() -> Vec<Field> {
    vec![
        field("username", "String", vec![]),
        field("display_name", "String", vec![]),
        field("favorites", "Favorites", vec![]),
    ]
}

fn user_data_input_fields() -> Vec<Field> {
    vec![
        field("username", "String", vec![]),
        field("display_name", "String", vec![]),
        field("favorites", "InputFavorites", vec![]),
    ]
}

fn names(list: &[&str]) -> Vec<String> {
    list.iter().map(|s| s.to_string()).collect()
}

#[test]
fn default_options_set_nothing() {
    let options = GraphqlObjectMetaArgs::default();
    assert_eq!(
        options,
        GraphqlObjectMetaArgs {
            input_type_doc: None,
            input_type_name: None,
            skip_derive_simple_object: false,
        }
    );
}

#[test]
fn output_struct_gets_the_derive_and_loses_field_options() {
    let out = generate_output_struct(&user_data(), &GraphqlObjectMetaArgs::default());
    assert_eq!(
        out,
        ItemStruct {
            attrs: vec![simple_object(), attr("doc", "= \" Information about the user\"")],
            vis: "pub".to_string(),
            ident: "UserData".to_string(),
            generics: String::new(),
            where_clause: String::new(),
            fields: Fields::Named(user_data_stripped_fields()),
        }
    );
}

#[test]
fn output_struct_without_the_derive() {
    let options = GraphqlObjectMetaArgs {
        input_type_doc: None,
        input_type_name: None,
        skip_derive_simple_object: true,
    };
    let out = generate_output_struct(&user_data(), &options);
    assert_eq!(out.attrs, vec![attr("doc", "= \" Information about the user\"")]);
    assert_eq!(out.fields, Fields::Named(user_data_stripped_fields()));
    assert_eq!(out.ident, "UserData");
}

#[test]
fn output_struct_ignores_the_input_options() {
    let options = GraphqlObjectMetaArgs {
        input_type_doc: Some("Input".to_string()),
        input_type_name: Some("Other".to_string()),
        skip_derive_simple_object: false,
    };
    assert_eq!(
        generate_output_struct(&user_data(), &options),
        generate_output_struct(&user_data(), &GraphqlObjectMetaArgs::default())
    );
}

#[test]
fn output_struct_keeps_what_it_does_not_read() {
    let reference = ItemStruct {
        attrs: vec![attr("graphql_object", "(on_the_struct)"), attr("derive", "(Clone)")],
        vis: "pub(crate)".to_string(),
        ident: "Pair".to_string(),
        generics: "<'a, T: Clone>".to_string(),
        where_clause: "where T: Default".to_string(),
        fields: Fields::Named(vec![Field {
            attrs: vec![
                attr("serde", "(rename = \"l\")"),
                attr("graphql_object", "(input_type = \"X\")"),
                attr("doc", "= \" left\""),
            ],
            vis: "pub".to_string(),
            ident: Some("left".to_string()),
            ty: Type::Other("&'a T".to_string()),
        }]),
    };
    let out = generate_output_struct(&reference, &GraphqlObjectMetaArgs::default());
    assert_eq!(
        out,
        ItemStruct {
            // Only fields lose the attribute: one on the struct itself stays.
            attrs: vec![
                simple_object(),
                attr("graphql_object", "(on_the_struct)"),
                attr("derive", "(Clone)"),
            ],
            vis: "pub(crate)".to_string(),
            ident: "Pair".to_string(),
            generics: "<'a, T: Clone>".to_string(),
            where_clause: "where T: Default".to_string(),
            fields: Fields::Named(vec![Field {
                attrs: vec![attr("serde", "(rename = \"l\")"), attr("doc", "= \" left\"")],
                vis: "pub".to_string(),
                ident: Some("left".to_string()),
                ty: Type::Other("&'a T".to_string()),
            }]),
        }
    );
}

#[test]
fn output_struct_of_a_tuple_struct() {
    let reference = ItemStruct {
        attrs: vec![],
        vis: String::new(),
        ident: "Meters".to_string(),
        generics: String::new(),
        where_clause: String::new(),
        fields: Fields::Unnamed(vec![Field {
            attrs: vec![attr("graphql_object", "")],
            vis: "pub".to_string(),
            ident: None,
            ty: ty("u32"),
        }]),
    };
    let out = generate_output_struct(&reference, &GraphqlObjectMetaArgs::default());
    assert_eq!(out.attrs, vec![simple_object()]);
    assert_eq!(
        out.fields,
        Fields::Unnamed(vec![Field {
            attrs: vec![],
            vis: "pub".to_string(),
            ident: None,
            ty: ty("u32"),
        }])
    );
}

#[test]
fn output_struct_of_a_unit_struct() {
    let reference = ItemStruct {
        attrs: vec![],
        vis: String::new(),
        ident: "Marker".to_string(),
        generics: String::new(),
        where_clause: String::new(),
        fields: Fields::Unit,
    };
    let out = generate_output_struct(&reference, &GraphqlObjectMetaArgs::default());
    assert_eq!(out.attrs, vec![simple_object()]);
    assert_eq!(out.fields, Fields::Unit);
    assert_eq!(out.fields.len(), 0);
}

#[test]
fn input_struct_with_default_options() {
    let args = user_data_args();
    let r = generate_input_struct(&user_data(), &GraphqlObjectMetaArgs::default(), &args);
    assert_eq!(
        r,
        Ok(InputObject {
            item: ItemStruct {
                attrs: vec![input_object(), attr("doc", "= \" Information about the user\"")],
                vis: "pub".to_string(),
                ident: "UserDataInput".to_string(),
                generics: String::new(),
                where_clause: String::new(),
                fields: Fields::Named(user_data_input_fields()),
            },
            conversion: IntoImpl {
                source: "UserDataInput".to_string(),
                target: "UserData".to_string(),
                fields: names(&["username", "display_name", "favorites"]),
            },
        })
    );
}

#[test]
fn input_struct_under_a_given_name() {
    let options = GraphqlObjectMetaArgs {
        input_type_doc: None,
        input_type_name: Some("InputFavorites".to_string()),
        skip_derive_simple_object: false,
    };
    let reference = ItemStruct {
        attrs: vec![],
        vis: "pub".to_string(),
        ident: "Favorites".to_string(),
        generics: String::new(),
        where_clause: String::new(),
        fields: Fields::Named(vec![field("food", "String", vec![])]),
    };
    let args = vec![plain()];
    let object = generate_input_struct(&reference, &options, &args).unwrap();
    assert_eq!(object.item.ident, "InputFavorites");
    assert_eq!(object.item.attrs, vec![input_object()]);
    assert_eq!(object.item.fields, Fields::Named(vec![field("food", "String", vec![])]));
    assert_eq!(
        object.conversion,
        IntoImpl {
            source: "InputFavorites".to_string(),
            target: "Favorites".to_string(),
            fields: names(&["food"]),
        }
    );
}

#[test]
fn input_struct_ignores_the_skip_flag() {
    let options = GraphqlObjectMetaArgs {
        input_type_doc: None,
        input_type_name: None,
        skip_derive_simple_object: true,
    };
    let args = user_data_args();
    let skipped = generate_input_struct(&user_data(), &options, &args);
    let kept = generate_input_struct(&user_data(), &GraphqlObjectMetaArgs::default(), &args);
    assert_eq!(skipped, kept);
    assert_eq!(skipped.unwrap().item.attrs[0], input_object());
}

#[test]
fn input_doc_replaces_the_first_doc_only() {
    let options = GraphqlObjectMetaArgs {
        input_type_doc: Some("Input for user information data".to_string()),
        input_type_name: None,
        skip_derive_simple_object: false,
    };
    let mut reference = user_data();
    reference.attrs = vec![
        attr("derive", "(Debug)"),
        attr("doc", "= \" Information about the user\""),
        attr("doc", "= \" and a second line\""),
    ];
    let args = user_data_args();
    let object = generate_input_struct(&reference, &options, &args).unwrap();
    assert_eq!(
        object.item.attrs,
        vec![
            input_object(),
            attr("derive", "(Debug)"),
            Attribute {
                path: Path::from_ident("doc".to_string()),
                tokens: AttrTokens::Assigned("Input for user information data".to_string()),
            },
            attr("doc", "= \" and a second line\""),
        ]
    );
    // The struct that is sent out keeps its own documentation.
    let out = generate_output_struct(&reference, &options);
    assert_eq!(
        out.attrs,
        vec![
            simple_object(),
            attr("derive", "(Debug)"),
            attr("doc", "= \" Information about the user\""),
            attr("doc", "= \" and a second line\""),
        ]
    );
}

#[test]
fn input_doc_without_a_doc_attribute_adds_one() {
    let options = GraphqlObjectMetaArgs {
        input_type_doc: Some("Input".to_string()),
        input_type_name: None,
        skip_derive_simple_object: false,
    };
    let mut reference = user_data();
    reference.attrs = vec![attr("derive", "(Debug)")];
    let args = user_data_args();
    let object = generate_input_struct(&reference, &options, &args).unwrap();
    assert_eq!(
        object.item.attrs,
        vec![input_object(), attr("derive", "(Debug)"), doc("Input")]
    );
    // The struct that is sent out gets no documentation from it.
    let out = generate_output_struct(&reference, &options);
    assert_eq!(out.attrs, vec![simple_object(), attr("derive", "(Debug)")]);
}

#[test]
fn input_doc_on_a_struct_without_attributes() {
    let options = GraphqlObjectMetaArgs {
        input_type_doc: Some("Input for user information data".to_string()),
        input_type_name: None,
        skip_derive_simple_object: false,
    };
    let mut reference = user_data();
    reference.attrs = vec![];
    let args = user_data_args();
    let object = generate_input_struct(&reference, &options, &args).unwrap();
    assert_eq!(
        object.item.attrs,
        vec![input_object(), doc("Input for user information data")]
    );
}

#[test]
fn without_input_doc_no_documentation_is_added() {
    let mut reference = user_data();
    reference.attrs = vec![attr("derive", "(Debug)")];
    let args = user_data_args();
    let object =
        generate_input_struct(&reference, &GraphqlObjectMetaArgs::default(), &args).unwrap();
    assert_eq!(object.item.attrs, vec![input_object(), attr("derive", "(Debug)")]);
}

#[test]
fn input_doc_passes_over_a_qualified_doc_path() {
    let options = GraphqlObjectMetaArgs {
        input_type_doc: Some("Input".to_string()),
        input_type_name: None,
        skip_derive_simple_object: false,
    };
    let qualified = Attribute {
        path: Path {
            leading_colon: false,
            segments: vec![
                PathSegment { ident: "core".to_string(), arguments: PathArguments::Absent },
                PathSegment { ident: "doc".to_string(), arguments: PathArguments::Absent },
            ],
        },
        tokens: AttrTokens::Source("= \"x\"".to_string()),
    };
    let mut reference = user_data();
    reference.attrs = vec![qualified.clone(), attr("doc", "= \"y\"")];
    let args = user_data_args();
    let object = generate_input_struct(&reference, &options, &args).unwrap();
    assert_eq!(
        object.item.attrs,
        vec![
            input_object(),
            qualified,
            Attribute {
                path: Path::from_ident("doc".to_string()),
                tokens: AttrTokens::Assigned("Input".to_string()),
            },
        ]
    );
}

#[test]
fn input_type_may_be_any_path() {
    let path = Path {
        leading_colon: true,
        segments: vec![
            PathSegment { ident: "inputs".to_string(), arguments: PathArguments::Absent },
            PathSegment {
                ident: "Wrapper".to_string(),
                arguments: PathArguments::AngleBracketed("<InputFavorites>".to_string()),
            },
        ],
    };
    let reference = ItemStruct {
        attrs: vec![],
        vis: String::new(),
        ident: "Holder".to_string(),
        generics: String::new(),
        where_clause: String::new(),
        fields: Fields::Named(vec![Field {
            attrs: vec![attr("graphql_object", "(input_type = \"...\")")],
            vis: "pub".to_string(),
            ident: Some("inner".to_string()),
            ty: Type::Other("[Favorites; 2]".to_string()),
        }]),
    };
    let args: Vec<Args> = vec![Ok(GraphqlObjectFieldArgs { input_type: Some(path.clone()) })];
    let object =
        generate_input_struct(&reference, &GraphqlObjectMetaArgs::default(), &args).unwrap();
    assert_eq!(
        object.item.fields,
        Fields::Named(vec![Field {
            attrs: vec![],
            vis: "pub".to_string(),
            ident: Some("inner".to_string()),
            ty: Type::Path(path),
        }])
    );
}

#[test]
fn a_field_without_input_type_keeps_its_type() {
    let reference = ItemStruct {
        attrs: vec![],
        vis: String::new(),
        ident: "Holder".to_string(),
        generics: String::new(),
        where_clause: String::new(),
        fields: Fields::Named(vec![Field {
            attrs: vec![],
            vis: String::new(),
            ident: Some("inner".to_string()),
            ty: Type::Other("(u8, u8)".to_string()),
        }]),
    };
    let args = vec![plain()];
    let object =
        generate_input_struct(&reference, &GraphqlObjectMetaArgs::default(), &args).unwrap();
    assert_eq!(object.item.fields, reference.fields);
}

#[test]
fn refused_field_options_stop_the_input_struct() {
    let args: Vec<Args> = vec![plain(), Err("unknown field: `nested`".to_string()), plain()];
    let r = generate_input_struct(&user_data(), &GraphqlObjectMetaArgs::default(), &args);
    assert_eq!(r, Err(InputError::Refused(&"unknown field: `nested`".to_string())));
}

#[test]
fn the_first_refusal_is_the_one_reported() {
    let args: Vec<Args> =
        vec![Err("first".to_string()), Err("second".to_string()), Err("third".to_string())];
    let r = generate_input_struct(&user_data(), &GraphqlObjectMetaArgs::default(), &args);
    assert_eq!(r, Err(InputError::Refused(&"first".to_string())));

    let args: Vec<Args> = vec![plain(), retarget("X"), Err("last".to_string())];
    let r = generate_input_struct(&user_data(), &GraphqlObjectMetaArgs::default(), &args);
    assert_eq!(r, Err(InputError::Refused(&"last".to_string())));
}

#[test]
fn a_refusal_on_a_tuple_struct_is_reported() {
    let reference = ItemStruct {
        attrs: vec![],
        vis: String::new(),
        ident: "Meters".to_string(),
        generics: String::new(),
        where_clause: String::new(),
        fields: Fields::Unnamed(vec![Field {
            attrs: vec![attr("graphql_object", "(nested)")],
            vis: String::new(),
            ident: None,
            ty: ty("u32"),
        }]),
    };
    let args: Vec<Args> = vec![Err("unknown field: `nested`".to_string())];
    let r = generate_input_struct(&reference, &GraphqlObjectMetaArgs::default(), &args);
    assert_eq!(r, Err(InputError::Refused(&"unknown field: `nested`".to_string())));
}

#[test]
fn input_struct_of_a_unit_struct() {
    let reference = ItemStruct {
        attrs: vec![attr("doc", "= \" Marks a thing\"")],
        vis: "pub".to_string(),
        ident: "Marker".to_string(),
        generics: String::new(),
        where_clause: String::new(),
        fields: Fields::Unit,
    };
    let args: Vec<Args> = vec![];
    let object =
        generate_input_struct(&reference, &GraphqlObjectMetaArgs::default(), &args).unwrap();
    assert_eq!(object.item.ident, "MarkerInput");
    assert_eq!(object.item.fields, Fields::Unit);
    assert_eq!(
        object.conversion,
        IntoImpl {
            source: "MarkerInput".to_string(),
            target: "Marker".to_string(),
            fields: vec![],
        }
    );
}

#[test]
fn input_struct_of_an_empty_tuple_struct() {
    let reference = ItemStruct {
        attrs: vec![],
        vis: String::new(),
        ident: "Nothing".to_string(),
        generics: String::new(),
        where_clause: String::new(),
        fields: Fields::Unnamed(vec![]),
    };
    let args: Vec<Args> = vec![];
    let object =
        generate_input_struct(&reference, &GraphqlObjectMetaArgs::default(), &args).unwrap();
    assert_eq!(object.item.fields, Fields::Unnamed(vec![]));
    assert_eq!(object.conversion.fields, Vec::<String>::new());
}

#[test]
fn input_name_of_a_raw_identifier() {
    let reference = ItemStruct {
        attrs: vec![],
        vis: String::new(),
        ident: "r#type".to_string(),
        generics: String::new(),
        where_clause: String::new(),
        fields: Fields::Named(vec![field("r#fn", "u8", vec![])]),
    };
    let args = vec![plain()];
    let object =
        generate_input_struct(&reference, &GraphqlObjectMetaArgs::default(), &args).unwrap();
    assert_eq!(object.item.ident, "r#typeInput");
    assert_eq!(object.conversion.source, "r#typeInput");
    assert_eq!(object.conversion.target, "r#type");
    assert_eq!(object.conversion.fields, names(&["r#fn"]));
}

#[test]
fn the_reference_struct_is_left_alone() {
    let reference = user_data();
    let args = user_data_args();
    let options = GraphqlObjectMetaArgs {
        input_type_doc: Some("doc".to_string()),
        input_type_name: Some("Name".to_string()),
        skip_derive_simple_object: false,
    };
    let _ = generate_output_struct(&reference, &options);
    let _ = generate_input_struct(&reference, &options, &args);
    assert_eq!(reference, user_data());
    assert_eq!(args, user_data_args());
}

#[test]
fn graphql_object_gives_both_sides() {
    let args = user_data_args();
    let options = GraphqlObjectMetaArgs::default();
    let expansion = graphql_object(&options, &user_data(), &args);
    assert_eq!(
        expansion,
        Expansion {
            output: generate_output_struct(&user_data(), &options),
            input: generate_input_struct(&user_data(), &options, &args),
        }
    );
    assert_eq!(expansion.output.ident, "UserData");
    assert_eq!(expansion.output.attrs[0], simple_object());
    let input = expansion.input.unwrap();
    assert_eq!(input.item.ident, "UserDataInput");
    assert_eq!(input.item.attrs[0], input_object());
    assert_eq!(input.item.fields, Fields::Named(user_data_input_fields()));
    assert_eq!(input.conversion.fields, names(&["username", "display_name", "favorites"]));
}

#[test]
fn graphql_object_keeps_the_output_beside_a_refusal() {
    let args: Vec<Args> = vec![plain(), plain(), Err("unknown field: `nested`".to_string())];
    let options = GraphqlObjectMetaArgs {
        input_type_doc: None,
        input_type_name: None,
        skip_derive_simple_object: true,
    };
    let expansion = graphql_object(&options, &user_data(), &args);
    assert_eq!(
        expansion.output,
        ItemStruct {
            attrs: vec![attr("doc", "= \" Information about the user\"")],
            vis: "pub".to_string(),
            ident: "UserData".to_string(),
            generics: String::new(),
            where_clause: String::new(),
            fields: Fields::Named(user_data_stripped_fields()),
        }
    );
    assert_eq!(
        expansion.input,
        Err(InputError::Refused(&"unknown field: `nested`".to_string()))
    );
}

#[test]
fn both_sides_have_the_same_field_names() {
    let args = user_data_args();
    let expansion = graphql_object(&GraphqlObjectMetaArgs::default(), &user_data(), &args);
    let input = expansion.input.unwrap();
    let sent = match &expansion.output.fields {
        Fields::Named(list) => list.iter().map(|f| f.ident.clone()).collect::<Vec<_>>(),
        _ => panic!("named fields expected"),
    };
    let taken = match &input.item.fields {
        Fields::Named(list) => list.iter().map(|f| f.ident.clone()).collect::<Vec<_>>(),
        _ => panic!("named fields expected"),
    };
    assert_eq!(sent, taken);
    assert_eq!(
        taken,
        input.conversion.fields.iter().map(|n| Some(n.clone())).collect::<Vec<_>>()
    );
}

#[test]
fn item_clones_are_equal() {
    let reference = user_data();
    assert_eq!(reference.clone(), reference);
    assert_eq!(reference.fields.clone(), reference.fields);
    assert_eq!(Fields::Unit.clone(), Fields::Unit);
    assert_eq!(Type::Other("[u8; 4]".to_string()).clone(), Type::Other("[u8; 4]".to_string()));
}

fn unnamed(of: &str) -> Field {
    Field { attrs: vec![], vis: String::new(), ident: None, ty: ty(of) }
}

fn tuple_struct(fields: Vec<Field>) -> ItemStruct {
    ItemStruct {
        attrs: vec![],
        vis: "pub".to_string(),
        ident: "Point".to_string(),
        generics: String::new(),
        where_clause: String::new(),
        fields: Fields::Unnamed(fields),
    }
}

#[test]
fn fields_len_counts_the_fields() {
    assert_eq!(user_data().fields.len(), 3);
    assert_eq!(Fields::Unit.len(), 0);
    assert_eq!(Fields::Unnamed(vec![]).len(), 0);
    assert_eq!(Fields::Unnamed(vec![unnamed("u8"), unnamed("u8")]).len(), 2);
}

#[test]
fn a_tuple_struct_gives_no_input_struct() {
    let reference = tuple_struct(vec![unnamed("i32")]);
    let args = vec![plain()];
    let r = generate_input_struct(&reference, &GraphqlObjectMetaArgs::default(), &args);
    assert_eq!(r, Err(InputError::UnnamedField(0)));
}

#[test]
fn the_first_field_without_a_name_is_reported() {
    let reference = ItemStruct {
        attrs: vec![],
        vis: String::new(),
        ident: "Mixed".to_string(),
        generics: String::new(),
        where_clause: String::new(),
        fields: Fields::Named(vec![
            field("a", "u8", vec![]),
            field("b", "u8", vec![]),
            unnamed("u8"),
            field("c", "u8", vec![]),
            unnamed("u16"),
        ]),
    };
    let args = vec![plain(), retarget("X"), plain(), plain(), plain()];
    let r = generate_input_struct(&reference, &GraphqlObjectMetaArgs::default(), &args);
    assert_eq!(r, Err(InputError::UnnamedField(2)));
}

#[test]
fn a_refusal_comes_before_a_missing_name() {
    let reference = tuple_struct(vec![unnamed("i32"), unnamed("i32")]);
    let args: Vec<Args> = vec![plain(), Err("unknown field: `nested`".to_string())];
    let r = generate_input_struct(&reference, &GraphqlObjectMetaArgs::default(), &args);
    assert_eq!(r, Err(InputError::Refused(&"unknown field: `nested`".to_string())));
}

#[test]
fn graphql_object_on_a_tuple_struct_keeps_the_output() {
    let reference = tuple_struct(vec![Field {
        attrs: vec![attr("graphql_object", "(input_type = \"X\")")],
        vis: "pub".to_string(),
        ident: None,
        ty: ty("i32"),
    }]);
    let args = vec![retarget("X")];
    let expansion = graphql_object(&GraphqlObjectMetaArgs::default(), &reference, &args);
    assert_eq!(
        expansion.output,
        ItemStruct {
            attrs: vec![simple_object()],
            vis: "pub".to_string(),
            ident: "Point".to_string(),
            generics: String::new(),
            where_clause: String::new(),
            fields: Fields::Unnamed(vec![Field {
                attrs: vec![],
                vis: "pub".to_string(),
                ident: None,
                ty: ty("i32"),
            }]),
        }
    );
    assert_eq!(expansion.input, Err(InputError::UnnamedField(0)));
}

#[test]
fn input_struct_name_appends_input() {
    assert_eq!(input_struct_name(&user_data(), &GraphqlObjectMetaArgs::default()), "UserDataInput");
    let mut reference = user_data();
    reference.ident = String::new();
    assert_eq!(input_struct_name(&reference, &GraphqlObjectMetaArgs::default()), "Input");
}

#[test]
fn input_struct_name_takes_the_given_name_as_it_is() {
    let options = GraphqlObjectMetaArgs {
        input_type_doc: None,
        input_type_name: Some("NewUser".to_string()),
        skip_derive_simple_object: false,
    };
    assert_eq!(input_struct_name(&user_data(), &options), "NewUser");
    let options = GraphqlObjectMetaArgs {
        input_type_doc: None,
        input_type_name: Some(String::new()),
        skip_derive_simple_object: false,
    };
    assert_eq!(input_struct_name(&user_data(), &options), "");
}
