//! The two declarations and the conversion that come out of one struct.

use vstd::prelude::*;
use crate::attr::{
    find_ident, first_with_ident, has_ident, lemma_first_with_ident,
    lemma_first_with_ident_found, lemma_first_with_ident_is, lemma_without_ident_has_none,
    without_ident, AttrTokens, AttrTokensView, Attribute, AttributeView,
};
use crate::item::{Field, FieldView, Fields, FieldsView, ItemStruct, ItemStructView, Type, TypeView};
use crate::options::{GraphqlObjectFieldArgs, GraphqlObjectMetaArgs, GraphqlObjectMetaArgsView};
use crate::path::{Path, PathView};
use crate::utils::strip_annotations_with_path;
use crate::views;

verus! {

/// The name of the attribute that carries a field's options.
pub open spec fn marker() -> Seq<char> {
    "graphql_object"@
}

/// The attribute `#[derive what]`.
pub open spec fn derive_attr(what: Seq<char>) -> AttributeView {
    AttributeView { path: PathView::of_ident("derive"@), tokens: AttrTokensView::Source(what) }
}

/// The derive that makes a struct a GraphQL object.
pub open spec fn derive_simple_object() -> AttributeView {
    derive_attr("(::async_graphql::SimpleObject)"@)
}

/// The derive that makes a struct a GraphQL input object.
pub open spec fn derive_input_object() -> AttributeView {
    derive_attr("(::async_graphql::InputObject)"@)
}

/// A field as the output struct has it: without its option attributes.
pub open spec fn output_field(field: FieldView) -> FieldView {
    FieldView { attrs: without_ident(field.attrs, marker()), ..field }
}

/// The struct that is sent out: the declaration itself with the option
/// attributes taken off its fields and, unless the options say otherwise,
/// the derive of `SimpleObject` in front.
pub open spec fn output_struct(
    reference: ItemStructView,
    options: GraphqlObjectMetaArgsView,
) -> ItemStructView {
    ItemStructView {
        attrs: if options.skip_derive_simple_object {
            reference.attrs
        } else {
            seq![derive_simple_object()] + reference.attrs
        },
        fields: reference.fields.with_list(
            reference.fields.list().map_values(|f: FieldView| output_field(f)),
        ),
        ..reference
    }
}

/// The name of the input struct: the one the options give, else the
/// struct's own name followed by `Input`.
pub open spec fn input_name(reference: ItemStructView, options: GraphqlObjectMetaArgsView) -> Seq<
    char,
> {
    match options.input_type_name {
        Some(name) => name,
        None => reference.ident + "Input"@,
    }
}

/// The attribute `#[doc = "text"]`.
pub open spec fn doc_attr(text: Seq<char>) -> AttributeView {
    AttributeView { path: PathView::of_ident("doc"@), tokens: AttrTokensView::Assigned(text) }
}

/// The attributes with `doc` as their documentation: assigned to the first
/// attribute named `doc`, or, where none is named so, in a new attribute
/// behind the others.
pub open spec fn with_doc(attrs: Seq<AttributeView>, doc: Seq<char>) -> Seq<AttributeView> {
    let k = first_with_ident(attrs, "doc"@);
    if k < attrs.len() {
        attrs.update(k, attrs[k].assigned(doc))
    } else {
        attrs.push(doc_attr(doc))
    }
}

/// A field as the input struct has it: without its option attributes, and
/// with the type that its options name in place of its own.
pub open spec fn input_field(field: FieldView, input_type: Option<PathView>) -> FieldView {
    FieldView {
        attrs: without_ident(field.attrs, marker()),
        ty: match input_type {
            Some(path) => TypeView::Path(path),
            None => field.ty,
        },
        ..field
    }
}

/// The fields of `list` as the input struct has them, each with the entry
/// of `input_types` at its place.
pub open spec fn input_field_list(
    list: Seq<FieldView>,
    input_types: Seq<Option<PathView>>,
) -> Seq<FieldView> {
    Seq::new(list.len(), |i: int| input_field(list[i], input_types[i]))
}

/// The struct that is taken in: the declaration under its input name, with
/// the derive of `InputObject` in front, the documentation the options give,
/// and each field as `input_field` has it. `input_types` holds, field by
/// field, the type that the field's options name.
pub open spec fn input_struct(
    reference: ItemStructView,
    options: GraphqlObjectMetaArgsView,
    input_types: Seq<Option<PathView>>,
) -> ItemStructView {
    ItemStructView {
        attrs: seq![derive_input_object()] + match options.input_type_doc {
            Some(doc) => with_doc(reference.attrs, doc),
            None => reference.attrs,
        },
        ident: input_name(reference, options),
        fields: reference.fields.with_list(
            input_field_list(reference.fields.list(), input_types),
        ),
        ..reference
    }
}

/// An implementation of `Into<target>` for `source` that builds a `target`
/// from `source`, field by field: each listed field of the result is the
/// field of that name of `source`, converted by `into`.
#[derive(Debug, PartialEq, Eq)]
pub struct IntoImpl {
    pub source: String,
    pub target: String,
    pub fields: Vec<String>,
}

/// The mathematical value of an [`IntoImpl`].
pub struct IntoImplView {
    pub source: Seq<char>,
    pub target: Seq<char>,
    pub fields: Seq<Seq<char>>,
}

impl View for IntoImpl {
    type V = IntoImplView;

    open spec fn view(&self) -> IntoImplView {
        IntoImplView { source: self.source@, target: self.target@, fields: views(self.fields@) }
    }
}

/// The conversion from the input struct to the struct itself, over the
/// names of all fields in their order.
pub open spec fn conversion(
    reference: ItemStructView,
    options: GraphqlObjectMetaArgsView,
) -> IntoImplView {
    IntoImplView {
        source: input_name(reference, options),
        target: reference.ident,
        fields: reference.fields.list().map_values(|f: FieldView| f.ident.unwrap()),
    }
}

/// The input side of a struct: its declaration, and the conversion into the
/// struct it was made from.
#[derive(Debug, PartialEq, Eq)]
pub struct InputObject {
    pub item: ItemStruct,
    pub conversion: IntoImpl,
}

/// The mathematical value of an [`InputObject`].
pub struct InputObjectView {
    pub item: ItemStructView,
    pub conversion: IntoImplView,
}

impl View for InputObject {
    type V = InputObjectView;

    open spec fn view(&self) -> InputObjectView {
        InputObjectView { item: self.item@, conversion: self.conversion@ }
    }
}

/// Why no input struct was generated.
#[derive(Debug, PartialEq, Eq)]
pub enum InputError<'a, E> {
    /// The options of a field were refused; this is what reading them gave.
    Refused(&'a E),
    /// The field at this place has no name, so the conversion cannot name
    /// it: the struct is a tuple struct.
    UnnamedField(usize),
}

/// Whether field `i` is the first that has no name.
pub open spec fn first_unnamed_at(list: Seq<FieldView>, i: int) -> bool {
    &&& 0 <= i < list.len()
    &&& list[i].ident is None
    &&& forall|j: int| 0 <= j < i ==> (#[trigger] list[j]).ident is Some
}

/// Whether the options of every field were read without complaint.
pub open spec fn all_accepted<E>(field_args: Seq<Result<GraphqlObjectFieldArgs, E>>) -> bool {
    forall|i: int| 0 <= i < field_args.len() ==> (#[trigger] field_args[i]) is Ok
}

/// Whether field `i` is the first whose options were refused.
pub open spec fn first_refused_at<E>(
    field_args: Seq<Result<GraphqlObjectFieldArgs, E>>,
    i: int,
) -> bool {
    &&& 0 <= i < field_args.len()
    &&& field_args[i] is Err
    &&& forall|j: int| 0 <= j < i ==> (#[trigger] field_args[j]) is Ok
}

/// Whether `complaint` is what reading the options of the first refused
/// field gave.
pub open spec fn refused_first<E>(
    field_args: Seq<Result<GraphqlObjectFieldArgs, E>>,
    complaint: E,
) -> bool {
    exists|i: int| #[trigger]
        first_refused_at(field_args, i) && field_args[i] == Err::<GraphqlObjectFieldArgs, E>(
            complaint,
        )
}

/// The input type that the options of one field name, if they were read
/// and name one.
pub open spec fn named_type<E>(args: Result<GraphqlObjectFieldArgs, E>) -> Option<PathView> {
    match args {
        Ok(a) => a@.input_type,
        Err(_) => None,
    }
}

/// Field by field, the input type that the field's options name.
pub open spec fn input_types<E>(field_args: Seq<Result<GraphqlObjectFieldArgs, E>>) -> Seq<
    Option<PathView>,
> {
    field_args.map_values(|args: Result<GraphqlObjectFieldArgs, E>| named_type(args))
}

fn name_attribute() -> (name: String)
    ensures
        name@ == marker(),
{
    "graphql_object".to_owned()
}

fn derive_of(what: &str) -> (attr: Attribute)
    ensures
        attr@ == derive_attr(what@),
{
    Attribute { path: Path::from_ident("derive".to_owned()), tokens: AttrTokens::Source(what.to_owned()) }
}

fn output_fields(list: &Vec<Field>) -> (out: Vec<Field>)
    ensures
        views(out@) == views(list@).map_values(|f: FieldView| output_field(f)),
{
    let mut out: Vec<Field> = Vec::new();
    let mut i: usize = 0;
    while i < list.len()
        invariant
            i <= list.len(),
            out.len() == i,
            forall|j: int| 0 <= j < i ==> (#[trigger] out[j])@ == output_field(list[j]@),
        decreases list.len() - i,
    {
        let mut field = list[i].clone();
        strip_annotations_with_path(name_attribute(), &mut field.attrs);
        out.push(field);
        i += 1;
    }
    assert(views(out@) =~= views(list@).map_values(|f: FieldView| output_field(f)));
    out
}

/// Generates the struct that is sent out as a GraphQL object.
pub fn generate_output_struct(
    reference_struct: &ItemStruct,
    options: &GraphqlObjectMetaArgs,
) -> (out: ItemStruct)
    ensures
        out@ == output_struct(reference_struct@, options@),
{
    let mut attrs = reference_struct.attrs.clone();
    assert(views(attrs@) =~= views(reference_struct.attrs@));
    if !options.skip_derive_simple_object {
        attrs.insert(0, derive_of("(::async_graphql::SimpleObject)"));
        assert(views(attrs@) =~= seq![derive_simple_object()] + reference_struct@.attrs);
    }
    let fields = match &reference_struct.fields {
        Fields::Named(list) => Fields::Named(output_fields(list)),
        Fields::Unnamed(list) => Fields::Unnamed(output_fields(list)),
        Fields::Unit => Fields::Unit,
    };
    ItemStruct {
        attrs,
        vis: reference_struct.vis.clone(),
        ident: reference_struct.ident.clone(),
        generics: reference_struct.generics.clone(),
        where_clause: reference_struct.where_clause.clone(),
        fields,
    }
}

/// The name under which the input struct is declared.
pub fn input_struct_name(reference_struct: &ItemStruct, options: &GraphqlObjectMetaArgs) -> (name:
    String)
    ensures
        name@ == input_name(reference_struct@, options@),
{
    match &options.input_type_name {
        Some(name) => name.clone(),
        None => {
            let mut name = reference_struct.ident.clone();
            name.append("Input");
            name
        },
    }
}

fn input_fields<'a, E>(
    list: &Vec<Field>,
    field_args: &'a Vec<Result<GraphqlObjectFieldArgs, E>>,
) -> (r: Result<Vec<Field>, &'a E>)
    requires
        field_args.len() == list.len(),
    ensures
        r is Ok <==> all_accepted(field_args@),
        r matches Ok(out) ==> views(out@) == input_field_list(
            views(list@),
            input_types(field_args@),
        ),
        r matches Err(e) ==> refused_first(field_args@, *e),
{
    let mut out: Vec<Field> = Vec::new();
    let mut i: usize = 0;
    while i < list.len()
        invariant
            i <= list.len(),
            field_args.len() == list.len(),
            out.len() == i,
            forall|j: int| 0 <= j < i ==> (#[trigger] field_args[j]) is Ok,
            forall|j: int|
                0 <= j < i ==> (#[trigger] out[j])@ == input_field(
                    list[j]@,
                    named_type(field_args[j]),
                ),
        decreases list.len() - i,
    {
        let args = match &field_args[i] {
            Ok(args) => args,
            Err(e) => {
                assert(first_refused_at(field_args@, i as int));
                return Err(e);
            },
        };
        let field = &list[i];
        // A field that names an input type takes that type in place of its own.
        let ty = match &args.input_type {
            Some(path) => Type::Path(path.clone()),
            None => field.ty.clone(),
        };
        let mut attrs = field.attrs.clone();
        assert(views(attrs@) =~= views(field.attrs@));
        strip_annotations_with_path(name_attribute(), &mut attrs);
        let ident = match &field.ident {
            Some(name) => Some(name.clone()),
            None => None,
        };
        out.push(Field { attrs, vis: field.vis.clone(), ident, ty });
        i += 1;
    }
    assert(views(out@) =~= input_field_list(views(list@), input_types(field_args@)));
    Ok(out)
}

fn field_names(list: &Vec<Field>) -> (r: Result<Vec<String>, usize>)
    ensures
        r is Ok <==> forall|i: int| 0 <= i < list.len() ==> (#[trigger] views(list@)[i]).ident is Some,
        r matches Ok(names) ==> views(names@) == views(list@).map_values(
            |f: FieldView| f.ident.unwrap(),
        ),
        r matches Err(i) ==> first_unnamed_at(views(list@), i as int),
{
    let mut names: Vec<String> = Vec::new();
    let mut i: usize = 0;
    while i < list.len()
        invariant
            i <= list.len(),
            names.len() == i,
            forall|j: int| 0 <= j < i ==> (#[trigger] views(list@)[j]).ident is Some,
            forall|j: int| 0 <= j < i ==> (#[trigger] names[j])@ == list[j]@.ident.unwrap(),
        decreases list.len() - i,
    {
        match &list[i].ident {
            Some(name) => {
                names.push(name.clone());
                assert(views(list@)[i as int].ident is Some);
            },
            None => {
                assert(views(list@)[i as int].ident is None);
                return Err(i);
            },
        }
        i += 1;
    }
    assert(views(names@) =~= views(list@).map_values(|f: FieldView| f.ident.unwrap()));
    Ok(names)
}

/// Generates the struct that is taken in as a GraphQL input object, and the
/// conversion from it into the struct it was made from.
///
/// `field_args` holds, for each field in order, what reading that field's
/// options gave. The first field whose options were refused decides: its
/// complaint is the result, and nothing is generated.
///
/// The conversion names every field. Where all options were read and a field
/// has no name, the place of the first such field is the result, and nothing
/// is generated.
pub fn generate_input_struct<'a, E>(
    reference_struct: &ItemStruct,
    options: &GraphqlObjectMetaArgs,
    field_args: &'a Vec<Result<GraphqlObjectFieldArgs, E>>,
) -> (r: Result<InputObject, InputError<'a, E>>)
    requires
        field_args.len() == reference_struct@.fields.list().len(),
    ensures
        r is Ok <==> all_accepted(field_args@) && reference_struct@.fields.all_named(),
        r matches Ok(object) ==> object@.item == input_struct(
            reference_struct@,
            options@,
            input_types(field_args@),
        ) && object@.conversion == conversion(reference_struct@, options@),
        r matches Err(InputError::Refused(e)) ==> refused_first(field_args@, *e),
        r matches Err(InputError::UnnamedField(i)) ==> all_accepted(field_args@)
            && first_unnamed_at(reference_struct@.fields.list(), i as int),
{
    let ident = input_struct_name(reference_struct, options);

    // The documentation the options give goes to the first `doc` attribute,
    // or to one of its own.
    let mut attrs = reference_struct.attrs.clone();
    assert(views(attrs@) =~= views(reference_struct.attrs@));
    if let Some(input_doc) = &options.input_type_doc {
        proof {
            lemma_first_with_ident_found(reference_struct@.attrs, "doc"@);
        }
        let tokens = AttrTokens::Assigned(input_doc.clone());
        if let Some(k) = find_ident(&attrs, &"doc".to_owned()) {
            let doc = Attribute { path: attrs[k].path.clone(), tokens };
            attrs.set(k, doc);
        } else {
            attrs.push(Attribute { path: Path::from_ident("doc".to_owned()), tokens });
        }
        assert(views(attrs@) =~= with_doc(reference_struct@.attrs, input_doc@));
    }
    let ghost documented = views(attrs@);
    attrs.insert(0, derive_of("(::async_graphql::InputObject)"));
    assert(views(attrs@) =~= seq![derive_input_object()] + documented);

    let fields = match &reference_struct.fields {
        Fields::Named(list) => match input_fields(list, field_args) {
            Ok(list) => Fields::Named(list),
            Err(e) => {
                assert(field_args@[choose|i: int| first_refused_at(field_args@, i)] is Err);
                return Err(InputError::Refused(e));
            },
        },
        Fields::Unnamed(list) => match input_fields(list, field_args) {
            Ok(list) => Fields::Unnamed(list),
            Err(e) => {
                assert(field_args@[choose|i: int| first_refused_at(field_args@, i)] is Err);
                return Err(InputError::Refused(e));
            },
        },
        Fields::Unit => Fields::Unit,
    };

    let named = match &reference_struct.fields {
        Fields::Named(list) => field_names(list),
        Fields::Unnamed(list) => field_names(list),
        Fields::Unit => Ok(Vec::new()),
    };
    let names = match named {
        Ok(names) => names,
        Err(i) => {
            assert(reference_struct@.fields.list()[i as int].ident is None);
            return Err(InputError::UnnamedField(i));
        },
    };
    assert(views(names@) =~= conversion(reference_struct@, options@).fields);

    let item = ItemStruct {
        attrs,
        vis: reference_struct.vis.clone(),
        ident: ident.clone(),
        generics: reference_struct.generics.clone(),
        where_clause: reference_struct.where_clause.clone(),
        fields,
    };
    Ok(InputObject {
        item,
        conversion: IntoImpl { source: ident, target: reference_struct.ident.clone(), fields: names },
    })
}

/// What stands in place of a struct that carries the attribute: the output
/// struct, and behind it the input side or the reason why it was not
/// generated.
#[derive(Debug, PartialEq, Eq)]
pub struct Expansion<'a, E> {
    pub output: ItemStruct,
    pub input: Result<InputObject, InputError<'a, E>>,
}

/// Derives from one struct both a GraphQL object and a GraphQL input object.
///
/// `options` are the options written on the struct, and `field_args` holds,
/// for each field in order, what reading that field's options gave. The
/// output struct is generated in any case; the input side is what
/// `generate_input_struct` gives.
pub fn graphql_object<'a, E>(
    options: &GraphqlObjectMetaArgs,
    reference_struct: &ItemStruct,
    field_args: &'a Vec<Result<GraphqlObjectFieldArgs, E>>,
) -> (out: Expansion<'a, E>)
    requires
        field_args.len() == reference_struct@.fields.list().len(),
    ensures
        out.output@ == output_struct(reference_struct@, options@),
        out.input is Ok <==> all_accepted(field_args@) && reference_struct@.fields.all_named(),
        out.input matches Ok(object) ==> object@.item == input_struct(
            reference_struct@,
            options@,
            input_types(field_args@),
        ) && object@.conversion == conversion(reference_struct@, options@),
        out.input matches Err(InputError::Refused(e)) ==> refused_first(field_args@, *e),
        out.input matches Err(InputError::UnnamedField(i)) ==> all_accepted(field_args@)
            && first_unnamed_at(reference_struct@.fields.list(), i as int),
{
    let output = generate_output_struct(reference_struct, options);
    let input = generate_input_struct(reference_struct, options, field_args);
    Expansion { output, input }
}

/// Which reason is given follows from the readings and the names alone: a
/// refused reading comes before a missing name, and each of the two is
/// reported by one first place only.
pub proof fn lemma_one_reason<E>(
    field_args: Seq<Result<GraphqlObjectFieldArgs, E>>,
    list: Seq<FieldView>,
    i: int,
    j: int,
)
    ensures
        first_refused_at(field_args, i) ==> !all_accepted(field_args),
        first_refused_at(field_args, i) && first_refused_at(field_args, j) ==> i == j,
        first_unnamed_at(list, i) && first_unnamed_at(list, j) ==> i == j,
        !all_accepted(field_args) ==> exists|k: int| first_refused_at(field_args, k),
{
    if first_refused_at(field_args, i) {
        assert(field_args[i] is Err);
    }
    if first_refused_at(field_args, i) && first_refused_at(field_args, j) {
        if i < j {
            assert(field_args[i] is Ok);
        }
        if j < i {
            assert(field_args[j] is Ok);
        }
    }
    if first_unnamed_at(list, i) && first_unnamed_at(list, j) {
        if i < j {
            assert(list[i].ident is Some);
        }
        if j < i {
            assert(list[j].ident is Some);
        }
    }
    if !all_accepted(field_args) {
        lemma_some_first_refused(field_args, field_args.len() as int);
    }
}

proof fn lemma_some_first_refused<E>(field_args: Seq<Result<GraphqlObjectFieldArgs, E>>, n: int)
    requires
        0 <= n <= field_args.len(),
        exists|k: int| 0 <= k < n && (#[trigger] field_args[k]) is Err,
    ensures
        exists|k: int| first_refused_at(field_args, k),
    decreases n,
{
    if exists|k: int| 0 <= k < n - 1 && (#[trigger] field_args[k]) is Err {
        lemma_some_first_refused(field_args, n - 1);
    } else {
        assert(first_refused_at(field_args, n - 1));
    }
}

/// Whether field `i` of the output struct and of the input struct is field
/// `i` of the struct they were made from: with its name and visibility, and
/// without its option attributes. The field of the output struct keeps its
/// type; the one of the input struct has the type its options name, or else
/// keeps its own.
pub open spec fn corresponds_at(
    reference: ItemStructView,
    options: GraphqlObjectMetaArgsView,
    input_types: Seq<Option<PathView>>,
    i: int,
) -> bool {
    let field = reference.fields.list()[i];
    let sent = output_struct(reference, options).fields.list()[i];
    let taken = input_struct(reference, options, input_types).fields.list()[i];
    &&& sent.ident == field.ident
    &&& sent.vis == field.vis
    &&& sent.ty == field.ty
    &&& taken.ident == field.ident
    &&& taken.vis == field.vis
    &&& taken.ty == match input_types[i] {
        Some(path) => TypeView::Path(path),
        None => field.ty,
    }
    &&& taken.attrs == sent.attrs
    &&& !has_ident(sent.attrs, marker())
}

/// The output struct and the input struct have the fields of the struct
/// they were made from: as many, in the same order, and each as
/// `corresponds_at` says. No field carries an option attribute any more.
pub proof fn lemma_fields_correspond(
    reference: ItemStructView,
    options: GraphqlObjectMetaArgsView,
    input_types: Seq<Option<PathView>>,
)
    ensures
        output_struct(reference, options).fields.list().len() == reference.fields.list().len(),
        input_struct(reference, options, input_types).fields.list().len()
            == reference.fields.list().len(),
        forall|i: int|
            0 <= i < reference.fields.list().len() ==> #[trigger] corresponds_at(
                reference,
                options,
                input_types,
                i,
            ),
{
    assert forall|i: int| 0 <= i < reference.fields.list().len() implies #[trigger] corresponds_at(
        reference,
        options,
        input_types,
        i,
    ) by {
        lemma_without_ident_has_none(reference.fields.list()[i].attrs, marker());
    }
}

/// The conversion goes from the input struct to the struct it was made from
/// and names each field of the input struct once, in order.
pub proof fn lemma_conversion_names_every_field(
    reference: ItemStructView,
    options: GraphqlObjectMetaArgsView,
    input_types: Seq<Option<PathView>>,
)
    requires
        reference.fields.all_named(),
    ensures
        conversion(reference, options).source == input_struct(reference, options, input_types).ident,
        conversion(reference, options).target == output_struct(reference, options).ident,
        conversion(reference, options).fields.len() == input_struct(
            reference,
            options,
            input_types,
        ).fields.list().len(),
        forall|i: int|
            0 <= i < conversion(reference, options).fields.len() ==> input_struct(
                reference,
                options,
                input_types,
            ).fields.list()[i].ident == Some(#[trigger] conversion(reference, options).fields[i]),
{
    assert forall|i: int| 0 <= i < conversion(reference, options).fields.len() implies input_struct(
        reference,
        options,
        input_types,
    ).fields.list()[i].ident == Some(#[trigger] conversion(reference, options).fields[i]) by {
        assert(reference.fields.list()[i].ident is Some);
    }
}

/// What is generated from a struct whose names fit its way of writing is
/// again such a struct, on both sides.
pub proof fn lemma_generated_well_formed(
    reference: ItemStructView,
    options: GraphqlObjectMetaArgsView,
    input_types: Seq<Option<PathView>>,
)
    requires
        reference.fields.well_formed(),
    ensures
        output_struct(reference, options).fields.well_formed(),
        input_struct(reference, options, input_types).fields.well_formed(),
{
    lemma_fields_correspond(reference, options, input_types);
    let list = reference.fields.list();
    let sent = output_struct(reference, options).fields.list();
    let taken = input_struct(reference, options, input_types).fields.list();
    assert forall|i: int| 0 <= i < list.len() implies (#[trigger] sent[i]).ident == list[i].ident by {
        assert(corresponds_at(reference, options, input_types, i));
    }
    assert forall|i: int| 0 <= i < list.len() implies (#[trigger] taken[i]).ident
        == list[i].ident by {
        assert(corresponds_at(reference, options, input_types, i));
    }
}

/// After the documentation is set there is a `doc` attribute, and the first
/// one holds the text. Where there was one before, it is that one, and
/// nothing else has changed; where there was none, the new one stands
/// behind the others.
pub proof fn lemma_with_doc_sets_first_doc(attrs: Seq<AttributeView>, doc: Seq<char>)
    ensures
        has_ident(with_doc(attrs, doc), "doc"@),
        with_doc(attrs, doc)[first_with_ident(with_doc(attrs, doc), "doc"@)].tokens
            == AttrTokensView::Assigned(doc),
        first_with_ident(with_doc(attrs, doc), "doc"@) == first_with_ident(attrs, "doc"@),
        has_ident(attrs, "doc"@) ==> with_doc(attrs, doc).len() == attrs.len(),
        has_ident(attrs, "doc"@) ==> forall|i: int|
            0 <= i < attrs.len() ==> (#[trigger] with_doc(attrs, doc)[i]).path == attrs[i].path,
        has_ident(attrs, "doc"@) ==> forall|i: int|
            0 <= i < attrs.len() && i != first_with_ident(attrs, "doc"@) ==> #[trigger] with_doc(
                attrs,
                doc,
            )[i] == attrs[i],
        !has_ident(attrs, "doc"@) ==> with_doc(attrs, doc) == attrs.push(doc_attr(doc)),
{
    lemma_first_with_ident(attrs, "doc"@);
    lemma_first_with_ident_found(attrs, "doc"@);
    let k = first_with_ident(attrs, "doc"@);
    let set = with_doc(attrs, doc);
    assert(doc_attr(doc).path.segments[0].arguments is Absent);
    assert(doc_attr(doc).path.is_ident("doc"@));
    assert forall|j: int| 0 <= j < k implies !(#[trigger] set[j]).path.is_ident("doc"@) by {
        assert(set[j] == attrs[j]);
    }
    assert(set[k].path.is_ident("doc"@));
    lemma_first_with_ident_is(set, "doc"@, k);
    lemma_first_with_ident_found(set, "doc"@);
}

} // verus!
