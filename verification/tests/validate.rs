use builder::annotation::{AnnotationError, BuilderAttr};
use builder::descriptor::{
    AnnotationForm, FieldDescriptor, Position, RawAnnotation, RecordDescriptor, Token,
    TypeExpression,
};
use builder::shape::classify;
use builder::validate::{
    collect_errors, find_each_attr, judge, validate, validate_fields, Outcome,
    ParsedEachAnnotation, ValidationError,
};

const MESSAGE: &str = "expected `builder(each = \"...\")`";

fn at(line: usize) -> Position {
    Position { line, column: 5 }
}

fn tokens(text: &str) -> Vec<Token> {
    let stream: proc_macro2::TokenStream = text.parse().unwrap();
    stream
        .into_iter()
        .map(|tree| match tree {
            proc_macro2::TokenTree::Ident(ident) => Token::Ident(ident.to_string()),
            proc_macro2::TokenTree::Punct(punct) => Token::Punct(punct.as_char()),
            proc_macro2::TokenTree::Literal(literal) => Token::Literal(literal.to_string()),
            proc_macro2::TokenTree::Group(_) => Token::Group,
        })
        .collect()
}

fn list(name: &str, text: &str, line: usize) -> RawAnnotation {
    RawAnnotation {
        name: name.to_string(),
        form: AnnotationForm::List,
        tokens: tokens(text),
        position: at(line),
    }
}

fn vec_of_string() -> TypeExpression {
    TypeExpression::generic("Vec", TypeExpression::plain("String"))
}

fn field(name: &str, ty: TypeExpression, annotations: &[(&str, usize)]) -> FieldDescriptor {
    FieldDescriptor {
        name: name.to_string(),
        ty,
        annotations: annotations.iter().map(|(text, line)| list("builder", text, *line)).collect(),
    }
}

fn error(name: &str, line: usize) -> ValidationError {
    ValidationError { field: name.to_string(), message: MESSAGE.to_string(), position: at(line) }
}

fn each(name: &str) -> ParsedEachAnnotation {
    ParsedEachAnnotation { element_setter_name: name.to_string() }
}

fn errors_of(record: &RecordDescriptor) -> Vec<ValidationError> {
    collect_errors(record, &validate_fields(record))
}

#[test]
fn field_without_annotation_is_valid() {
    let f = field("args", vec_of_string(), &[]);
    assert_eq!(validate(&f, &classify(&f.ty)), Ok(None));
}

#[test]
fn each_annotation_gives_the_element_setter() {
    let f = field("args", vec_of_string(), &[("each = \"arg\"", 4)]);
    assert_eq!(validate(&f, &classify(&f.ty)), Ok(Some(each("arg"))));
}

#[test]
fn missing_quotes_are_refused_with_the_fixed_message() {
    let f = field("args", vec_of_string(), &[("each = foo", 4)]);
    assert_eq!(validate(&f, &classify(&f.ty)), Err(error("args", 4)));
}

#[test]
fn unknown_key_is_refused_with_the_fixed_message() {
    let f = field("args", vec_of_string(), &[("eac = \"x\"", 9)]);
    assert_eq!(validate(&f, &classify(&f.ty)), Err(error("args", 9)));
}

#[test]
fn error_message_is_exact() {
    let f = field("env", vec_of_string(), &[("eac = \"x\"", 9)]);
    let refused = validate(&f, &classify(&f.ty)).unwrap_err();
    assert_eq!(refused.message, "expected `builder(each = \"...\")`");
    assert_eq!(refused.field, "env");
    assert_eq!(refused.position, Position { line: 9, column: 5 });
}

#[test]
fn only_the_first_annotation_counts() {
    let f = field("args", vec_of_string(), &[("each = \"arg\"", 1), ("eac = \"x\"", 2)]);
    assert_eq!(validate(&f, &classify(&f.ty)), Ok(Some(each("arg"))));
    let f = field("args", vec_of_string(), &[("eac = \"x\"", 1), ("each = \"arg\"", 2)]);
    assert_eq!(validate(&f, &classify(&f.ty)), Err(error("args", 1)));
}

#[test]
fn first_annotation_under_another_name_gives_nothing() {
    let mut f = field("args", vec_of_string(), &[]);
    f.annotations = vec![list("serde", "each = foo", 1), list("builder", "each = \"arg\"", 2)];
    assert_eq!(find_each_attr(&f), None);
    assert_eq!(validate(&f, &classify(&f.ty)), Ok(None));
}

#[test]
fn first_annotation_that_is_no_list_gives_nothing() {
    let mut f = field("args", vec_of_string(), &[]);
    for form in [AnnotationForm::Word, AnnotationForm::NameValue] {
        f.annotations = vec![
            RawAnnotation { name: "builder".to_string(), form, tokens: vec![], position: at(1) },
            list("builder", "each = \"arg\"", 2),
        ];
        assert_eq!(find_each_attr(&f), None);
        assert_eq!(validate(&f, &classify(&f.ty)), Ok(None));
    }
}

#[test]
fn builder_list_in_first_place_is_found() {
    let f = field("args", vec_of_string(), &[("each = \"arg\"", 4), ("each = \"b\"", 5)]);
    assert_eq!(find_each_attr(&f), Some(&list("builder", "each = \"arg\"", 4)));
    assert_eq!(find_each_attr(&field("args", vec_of_string(), &[])), None);
}

#[test]
fn empty_builder_list_is_refused() {
    let f = field("args", vec_of_string(), &[("", 2)]);
    assert_eq!(validate(&f, &classify(&f.ty)), Err(error("args", 2)));
}

#[test]
fn each_on_a_field_that_is_no_sequence_is_accepted() {
    let f = field("name", TypeExpression::plain("String"), &[("each = \"n\"", 1)]);
    assert_eq!(validate(&f, &classify(&f.ty)), Ok(Some(each("n"))));
}

#[test]
fn judge_takes_each_and_refuses_the_rest() {
    let name = "args".to_string();
    let ok = BuilderAttr { key: "each".to_string(), value: "arg".to_string() };
    assert_eq!(judge(&name, at(1), Ok(ok)), Ok(Some(each("arg"))));
    let other = BuilderAttr { key: "every".to_string(), value: "arg".to_string() };
    assert_eq!(judge(&name, at(2), Ok(other)), Err(error("args", 2)));
    assert_eq!(judge(&name, at(3), Err(AnnotationError::Malformed)), Err(error("args", 3)));
}

#[test]
fn every_field_gets_one_outcome() {
    let record = RecordDescriptor {
        name: "R".to_string(),
        fields: vec![
            field("a", vec_of_string(), &[("each = foo", 1)]),
            field("b", TypeExpression::plain("u8"), &[]),
            field("c", TypeExpression::plain("u8"), &[("each = \"c\"", 3)]),
        ],
    };
    let outcomes: Vec<Outcome> = vec![Err(error("a", 1)), Ok(None), Ok(Some(each("c")))];
    assert_eq!(validate_fields(&record), outcomes);
}

#[test]
fn all_errors_of_sequence_fields_are_gathered_in_field_order() {
    let record = RecordDescriptor {
        name: "Command".to_string(),
        fields: vec![
            field("a", vec_of_string(), &[("each = foo", 1)]),
            field("b", vec_of_string(), &[("each = \"b\"", 2)]),
            field("c", vec_of_string(), &[("eac = \"x\"", 3)]),
            field("d", vec_of_string(), &[]),
            field("e", vec_of_string(), &[("each", 5)]),
        ],
    };
    assert_eq!(errors_of(&record), vec![error("a", 1), error("c", 3), error("e", 5)]);
}

#[test]
fn errors_are_gathered_from_given_outcomes() {
    let record = RecordDescriptor {
        name: "R".to_string(),
        fields: vec![
            field("a", vec_of_string(), &[]),
            field("b", TypeExpression::plain("u8"), &[]),
            field("c", vec_of_string(), &[]),
            field("d", vec_of_string(), &[]),
        ],
    };
    let outcomes: Vec<Outcome> =
        vec![Err(error("a", 1)), Err(error("b", 2)), Ok(Some(each("c"))), Err(error("d", 4))];
    assert_eq!(collect_errors(&record, &outcomes), vec![error("a", 1), error("d", 4)]);
    let short: Vec<Outcome> = vec![Err(error("a", 1))];
    assert_eq!(collect_errors(&record, &short), vec![error("a", 1)]);
    assert_eq!(collect_errors(&record, &vec![]), vec![]);
}

#[test]
fn refused_annotations_on_other_shapes_are_not_errors() {
    let record = RecordDescriptor {
        name: "Command".to_string(),
        fields: vec![
            field("a", TypeExpression::plain("String"), &[("each = foo", 1)]),
            field(
                "b",
                TypeExpression::generic("Option", TypeExpression::plain("String")),
                &[("eac = \"x\"", 2)],
            ),
            field("c", TypeExpression::plain("Vec"), &[("eac = \"x\"", 3)]),
        ],
    };
    assert_eq!(errors_of(&record), vec![]);
}

#[test]
fn record_without_errors_gathers_nothing() {
    let record = RecordDescriptor {
        name: "Command".to_string(),
        fields: vec![
            field("a", vec_of_string(), &[("each = \"x\"", 1)]),
            field("b", TypeExpression::plain("String"), &[]),
        ],
    };
    assert_eq!(errors_of(&record), vec![]);
    let empty = RecordDescriptor { name: "Empty".to_string(), fields: vec![] };
    assert_eq!(errors_of(&empty), vec![]);
}

#[test]
fn errors_follow_the_fields_when_the_order_changes() {
    let a = field("a", vec_of_string(), &[("each = foo", 1)]);
    let b = field("b", vec_of_string(), &[("each = \"b\"", 2)]);
    let c = field("c", vec_of_string(), &[("eac = \"x\"", 3)]);
    let forward = RecordDescriptor {
        name: "R".to_string(),
        fields: vec![a.clone(), b.clone(), c.clone()],
    };
    let backward = RecordDescriptor { name: "R".to_string(), fields: vec![c, b, a] };
    assert_eq!(errors_of(&forward), vec![error("a", 1), error("c", 3)]);
    assert_eq!(errors_of(&backward), vec![error("c", 3), error("a", 1)]);
}

#[test]
fn error_duplicate_copies_the_error() {
    assert_eq!(error("a", 1).duplicate(), error("a", 1));
}
