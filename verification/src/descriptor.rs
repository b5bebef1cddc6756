//! The description of a record: its name and its named, typed, annotated fields.

use vstd::prelude::*;

verus! {

/// A place in the source text. It is carried into errors and never interpreted.
#[derive(Clone, Copy, Debug, PartialEq, Eq)]
pub struct Position {
    pub line: usize,
    pub column: usize,
}

/// One token of an annotation.
#[derive(Clone, Debug, PartialEq, Eq)]
pub enum Token {
    /// An identifier or keyword, as written.
    Ident(String),
    /// A single punctuation character.
    Punct(char),
    /// A literal, as written, quotes and escapes included.
    Literal(String),
    /// A delimited group of tokens.
    Group,
}

/// What a [`Token`] is in contracts.
pub enum TokenModel {
    Ident(Seq<char>),
    Punct(char),
    Literal(Seq<char>),
    Group,
}

impl View for Token {
    type V = TokenModel;

    open spec fn view(&self) -> TokenModel {
        match *self {
            Token::Ident(text) => TokenModel::Ident(text@),
            Token::Punct(c) => TokenModel::Punct(c),
            Token::Literal(text) => TokenModel::Literal(text@),
            Token::Group => TokenModel::Group,
        }
    }
}

/// The models of a vector of tokens.
pub open spec fn token_models(tokens: Vec<Token>) -> Seq<TokenModel> {
    tokens@.map_values(|t: Token| t@)
}

/// The three forms in which an annotation is written.
#[derive(Clone, Copy, Debug, PartialEq, Eq)]
pub enum AnnotationForm {
    /// A name alone: `name`.
    Word,
    /// A name and tokens in brackets: `name(tokens)`.
    List,
    /// A name and a value: `name = value`.
    NameValue,
}

/// One annotation of a field, not yet parsed: its name as written, its
/// form, and, for a list, the tokens in its brackets.
#[derive(Clone, Debug, PartialEq, Eq)]
pub struct RawAnnotation {
    pub name: String,
    pub form: AnnotationForm,
    pub tokens: Vec<Token>,
    pub position: Position,
}

/// What a [`RawAnnotation`] is in contracts.
pub struct RawAnnotationModel {
    pub name: Seq<char>,
    pub form: AnnotationForm,
    pub tokens: Seq<TokenModel>,
    pub position: Position,
}

impl View for RawAnnotation {
    type V = RawAnnotationModel;

    open spec fn view(&self) -> RawAnnotationModel {
        RawAnnotationModel {
            name: self.name@,
            form: self.form,
            tokens: token_models(self.tokens),
            position: self.position,
        }
    }
}

/// A declared type, as far as the shape of a field depends on it: the outer
/// name and the single generic argument, where there is exactly one.
#[derive(Debug, PartialEq, Eq)]
pub struct TypeExpression {
    pub name: String,
    pub argument: Option<Box<TypeExpression>>,
}

/// What a [`TypeExpression`] is in contracts.
pub struct TypeModel {
    pub name: Seq<char>,
    pub argument: Option<Box<TypeModel>>,
}

/// The model of a type, by recursion on its generic argument.
pub open spec fn type_model(ty: TypeExpression) -> TypeModel
    decreases ty,
{
    TypeModel {
        name: ty.name@,
        argument: match ty.argument {
            Some(inner) => Some(Box::new(type_model(*inner))),
            None => None,
        },
    }
}

/// How deep the generic arguments of a type are nested.
pub open spec fn nesting(ty: TypeModel) -> nat
    decreases ty,
{
    match ty.argument {
        Some(inner) => 1 + nesting(*inner),
        None => 0,
    }
}

impl View for TypeExpression {
    type V = TypeModel;

    open spec fn view(&self) -> TypeModel {
        type_model(*self)
    }
}

impl TypeExpression {
    /// A type with no generic argument.
    pub fn plain(name: &str) -> (ty: TypeExpression)
        ensures
            ty@ == (TypeModel { name: name@, argument: None }),
    {
        TypeExpression { name: name.to_string(), argument: None }
    }

    /// The type `name<argument>`.
    pub fn generic(name: &str, argument: TypeExpression) -> (ty: TypeExpression)
        ensures
            ty@ == (TypeModel { name: name@, argument: Some(Box::new(argument@)) }),
    {
        TypeExpression { name: name.to_string(), argument: Some(Box::new(argument)) }
    }

    /// A copy of this type.
    pub fn duplicate(&self) -> (copy: TypeExpression)
        ensures
            copy@ == self@,
        decreases self,
    {
        let argument = match &self.argument {
            Some(inner) => Some(Box::new(inner.duplicate())),
            None => None,
        };
        TypeExpression { name: self.name.clone(), argument }
    }
}

/// One named field of a record.
#[derive(Clone, Debug, PartialEq, Eq)]
pub struct FieldDescriptor {
    pub name: String,
    pub ty: TypeExpression,
    pub annotations: Vec<RawAnnotation>,
}

/// What a [`FieldDescriptor`] is in contracts.
pub struct FieldModel {
    pub name: Seq<char>,
    pub ty: TypeModel,
    pub annotations: Seq<RawAnnotationModel>,
}

impl View for FieldDescriptor {
    type V = FieldModel;

    open spec fn view(&self) -> FieldModel {
        FieldModel {
            name: self.name@,
            ty: self.ty@,
            annotations: self.annotations@.map_values(|a: RawAnnotation| a@),
        }
    }
}

/// A record: its name and its fields in declaration order.
#[derive(Clone, Debug, PartialEq, Eq)]
pub struct RecordDescriptor {
    pub name: String,
    pub fields: Vec<FieldDescriptor>,
}

/// What a [`RecordDescriptor`] is in contracts.
pub struct RecordModel {
    pub name: Seq<char>,
    pub fields: Seq<FieldModel>,
}

impl View for RecordDescriptor {
    type V = RecordModel;

    open spec fn view(&self) -> RecordModel {
        RecordModel { name: self.name@, fields: self.fields@.map_values(|f: FieldDescriptor| f@) }
    }
}

impl RecordModel {
    /// No two fields of the record share a name.
    pub open spec fn names_unique(self) -> bool {
        forall|i: int, j: int|
            0 <= i < j < self.fields.len() ==> self.fields[i].name != self.fields[j].name
    }
}

/// What kind of item a record was declared as.
#[derive(Clone, Copy, Debug, PartialEq, Eq)]
pub enum ItemKind {
    /// A struct whose fields have names.
    NamedStruct,
    /// A struct whose fields have no names.
    TupleStruct,
    /// A struct without fields.
    UnitStruct,
    /// An enum.
    Enum,
    /// A union.
    Union,
}

/// Why an item is no record that a builder can be generated for.
#[derive(Clone, Copy, Debug, PartialEq, Eq)]
pub enum StructuralError {
    /// The item is not a struct.
    NotAStruct,
    /// The item is a struct, but its fields have no names.
    FieldsNotNamed,
}

impl StructuralError {
    /// The message of the error.
    pub open spec fn message_spec(self) -> Seq<char> {
        match self {
            StructuralError::NotAStruct => "Only structs are supported"@,
            StructuralError::FieldsNotNamed => "Only structs with named fields are supported"@,
        }
    }

    /// The message of the error.
    pub fn message(&self) -> (text: String)
        ensures
            text@ == self.message_spec(),
    {
        match self {
            StructuralError::NotAStruct => "Only structs are supported".to_owned(),
            StructuralError::FieldsNotNamed => "Only structs with named fields are supported".to_owned(),
        }
    }
}

/// Whether a builder can be generated for an item of this kind: only for a
/// struct with named fields. Nothing is generated for any other item.
pub fn check_structure(kind: ItemKind) -> (checked: Result<(), StructuralError>)
    ensures
        checked == match kind {
            ItemKind::NamedStruct => Ok::<(), StructuralError>(()),
            ItemKind::TupleStruct | ItemKind::UnitStruct => Err(StructuralError::FieldsNotNamed),
            ItemKind::Enum | ItemKind::Union => Err(StructuralError::NotAStruct),
        },
{
    match kind {
        ItemKind::NamedStruct => Ok(()),
        ItemKind::TupleStruct | ItemKind::UnitStruct => Err(StructuralError::FieldsNotNamed),
        ItemKind::Enum | ItemKind::Union => Err(StructuralError::NotAStruct),
    }
}

/// Whether two texts hold the same characters.
pub fn same_text(left: &str, right: &str) -> (same: bool)
    ensures
        same == (left@ == right@),
{
    left.to_owned() == right.to_owned()
}

impl Clone for TypeExpression {
    fn clone(&self) -> (copy: TypeExpression)
        ensures
            copy@ == self@,
    {
        self.duplicate()
    }
}

} // verus!
