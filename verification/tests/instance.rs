use builder::descriptor::{
    AnnotationForm, FieldDescriptor, Position, RawAnnotation, RecordDescriptor, Token,
    TypeExpression,
};
use builder::instance::{Builder, CallError, Value};
use builder::synth::GeneratedArtifact;

fn tokens(text: &str) -> Vec<Token> {
    let stream: proc_macro2::TokenStream = text.parse().unwrap();
    stream
        .into_iter()
        .map(|tree| match tree {
            proc_macro2::TokenTree::Ident(ident) => Token::Ident(ident.to_string()),
            proc_macro2::TokenTree::Punct(punct) => Token::Punct(punct.as_char()),
            proc_macro2::TokenTree::Literal(literal) => Token::Literal(literal.to_string()),
            proc_macro2::TokenTree::Group(_) => Token::Group,
        })
        .collect()
}

fn plain(name: &str) -> TypeExpression {
    TypeExpression::plain(name)
}

fn option_of(inner: TypeExpression) -> TypeExpression {
    TypeExpression::generic("Option", inner)
}

fn vec_of(inner: TypeExpression) -> TypeExpression {
    TypeExpression::generic("Vec", inner)
}

fn field(name: &str, ty: TypeExpression, annotation: Option<&str>) -> FieldDescriptor {
    FieldDescriptor {
        name: name.to_string(),
        ty,
        annotations: annotation
            .iter()
            .map(|text| RawAnnotation {
                name: "builder".to_string(),
                form: AnnotationForm::List,
                tokens: tokens(text),
                position: Position { line: 1, column: 1 },
            })
            .collect(),
    }
}

fn command() -> GeneratedArtifact {
    builder::derive(&RecordDescriptor {
        name: "Command".to_string(),
        fields: vec![
            field("executable", plain("String"), None),
            field("args", vec_of(plain("String")), Some("each = \"arg\"")),
            field("env", option_of(plain("String")), None),
            field("current_dir", option_of(plain("String")), None),
        ],
    })
    .unwrap()
}

fn one(name: &str, ty: TypeExpression, annotation: Option<&str>) -> GeneratedArtifact {
    builder::derive(&RecordDescriptor { name: "R".to_string(), fields: vec![field(name, ty, annotation)] })
        .unwrap()
}

fn item(text: &str) -> Value {
    Value::Item(text.to_string())
}

fn list(texts: &[&str]) -> Value {
    Value::List(texts.iter().map(|t| t.to_string()).collect())
}

#[test]
fn command_without_executable_fails_citing_executable() {
    let artifact = command();
    let mut builder = Builder::new(&artifact);
    assert_eq!(builder.call("arg", item("ls")), Ok(()));
    assert_eq!(builder.call("arg", item("-l")), Ok(()));
    assert_eq!(builder.build(), Err("Field 'executable' is not set".to_string()));
}

#[test]
fn command_with_executable_and_two_args_builds() {
    let artifact = command();
    let mut builder = Builder::new(&artifact);
    assert_eq!(builder.call("executable", item("ls")), Ok(()));
    assert_eq!(builder.call("arg", item("ls")), Ok(()));
    assert_eq!(builder.call("arg", item("-l")), Ok(()));
    assert_eq!(
        builder.build(),
        Ok(vec![Some(item("ls")), Some(list(&["ls", "-l"])), None, None])
    );
}

#[test]
fn optional_field_builds_set_or_not() {
    let artifact = one("env", option_of(plain("String")), None);
    let mut builder = Builder::new(&artifact);
    assert_eq!(builder.build(), Ok(vec![None]));
    assert_eq!(builder.call("env", item("x")), Ok(()));
    assert_eq!(builder.build(), Ok(vec![Some(item("x"))]));
}

#[test]
fn optional_field_stays_stored_after_build() {
    let artifact = one("env", option_of(plain("String")), None);
    let mut builder = Builder::new(&artifact);
    assert_eq!(builder.call("env", item("x")), Ok(()));
    assert_eq!(builder.build(), Ok(vec![Some(item("x"))]));
    assert_eq!(builder.build(), Ok(vec![Some(item("x"))]));
}

#[test]
fn sequence_without_calls_builds_empty() {
    let artifact = one("args", vec_of(plain("String")), None);
    let mut builder = Builder::new(&artifact);
    assert_eq!(builder.build(), Ok(vec![Some(list(&[]))]));
}

#[test]
fn bulk_setter_of_a_sequence_stores_the_sequence() {
    let artifact = one("args", vec_of(plain("String")), None);
    let mut builder = Builder::new(&artifact);
    assert_eq!(builder.call("args", list(&["a", "b"])), Ok(()));
    assert_eq!(builder.build(), Ok(vec![Some(list(&["a", "b"]))]));
}

#[test]
fn element_setter_appends_in_call_order() {
    let artifact = one("args", vec_of(plain("String")), Some("each = \"push_x\""));
    let mut builder = Builder::new(&artifact);
    for text in ["v1", "v2", "v3", "v4"] {
        assert_eq!(builder.call("push_x", item(text)), Ok(()));
    }
    assert_eq!(builder.build(), Ok(vec![Some(list(&["v1", "v2", "v3", "v4"]))]));
}

#[test]
fn element_setter_without_calls_builds_empty() {
    let artifact = one("args", vec_of(plain("String")), Some("each = \"push_x\""));
    let mut builder = Builder::new(&artifact);
    assert_eq!(builder.build(), Ok(vec![Some(list(&[]))]));
}

#[test]
fn bulk_setter_does_not_exist_beside_the_element_setter() {
    let artifact = one("args", vec_of(plain("String")), Some("each = \"push_x\""));
    let mut builder = Builder::new(&artifact);
    assert_eq!(builder.call("args", list(&["a"])), Err(CallError::UnknownSetter));
    assert_eq!(builder.build(), Ok(vec![Some(list(&[]))]));
}

#[test]
fn element_setter_named_like_the_field_still_appends() {
    let artifact = one("args", vec_of(plain("String")), Some("each = \"args\""));
    let mut builder = Builder::new(&artifact);
    assert_eq!(builder.call("args", item("a")), Ok(()));
    assert_eq!(builder.call("args", item("b")), Ok(()));
    assert_eq!(builder.build(), Ok(vec![Some(list(&["a", "b"]))]));
}

#[test]
fn plain_field_unset_fails_with_its_name() {
    let artifact = one("x", plain("u32"), None);
    let mut builder = Builder::new(&artifact);
    assert_eq!(builder.build(), Err("Field 'x' is not set".to_string()));
}

#[test]
fn plain_field_set_builds_the_value() {
    let artifact = one("x", plain("u32"), None);
    let mut builder = Builder::new(&artifact);
    assert_eq!(builder.call("x", item("7")), Ok(()));
    assert_eq!(builder.build(), Ok(vec![Some(item("7"))]));
}

#[test]
fn bulk_setter_keeps_the_last_write() {
    let artifact = one("x", plain("u32"), None);
    let mut builder = Builder::new(&artifact);
    assert_eq!(builder.call("x", item("a")), Ok(()));
    assert_eq!(builder.call("x", item("b")), Ok(()));
    assert_eq!(builder.build(), Ok(vec![Some(item("b"))]));
}

#[test]
fn element_setter_is_not_idempotent() {
    let artifact = one("args", vec_of(plain("String")), Some("each = \"arg\""));
    let mut builder = Builder::new(&artifact);
    assert_eq!(builder.call("arg", item("a")), Ok(()));
    assert_eq!(builder.call("arg", item("a")), Ok(()));
    assert_eq!(builder.build(), Ok(vec![Some(list(&["a", "a"]))]));
}

#[test]
fn build_names_only_the_first_missing_field() {
    let artifact = builder::derive(&RecordDescriptor {
        name: "R".to_string(),
        fields: vec![
            field("a", plain("u8"), None),
            field("b", plain("u8"), None),
            field("c", plain("u8"), None),
        ],
    })
    .unwrap();
    let mut builder = Builder::new(&artifact);
    assert_eq!(builder.call("a", item("1")), Ok(()));
    assert_eq!(builder.build(), Err("Field 'b' is not set".to_string()));
}

#[test]
fn failed_build_has_taken_the_fields_before_the_missing_one() {
    let artifact = builder::derive(&RecordDescriptor {
        name: "R".to_string(),
        fields: vec![
            field("a", plain("u8"), None),
            field("b", plain("u8"), None),
            field("c", plain("u8"), None),
        ],
    })
    .unwrap();
    let mut builder = Builder::new(&artifact);
    assert_eq!(builder.call("a", item("1")), Ok(()));
    assert_eq!(builder.call("c", item("3")), Ok(()));
    assert_eq!(builder.build(), Err("Field 'b' is not set".to_string()));
    assert_eq!(builder.call("b", item("2")), Ok(()));
    assert_eq!(builder.build(), Err("Field 'a' is not set".to_string()));
    assert_eq!(builder.call("a", item("1")), Ok(()));
    assert_eq!(builder.call("b", item("2")), Ok(()));
    assert_eq!(builder.build(), Ok(vec![Some(item("1")), Some(item("2")), Some(item("3"))]));
}

#[test]
fn build_takes_plain_and_sequence_fields() {
    let artifact = command();
    let mut builder = Builder::new(&artifact);
    assert_eq!(builder.call("executable", item("ls")), Ok(()));
    assert_eq!(builder.call("arg", item("-l")), Ok(()));
    assert_eq!(builder.call("env", item("E")), Ok(()));
    assert_eq!(
        builder.build(),
        Ok(vec![Some(item("ls")), Some(list(&["-l"])), Some(item("E")), None])
    );
    assert_eq!(builder.build(), Err("Field 'executable' is not set".to_string()));
    assert_eq!(builder.call("executable", item("cat")), Ok(()));
    assert_eq!(
        builder.build(),
        Ok(vec![Some(item("cat")), Some(list(&[])), Some(item("E")), None])
    );
}

#[test]
fn unknown_setter_is_refused_and_changes_nothing() {
    let artifact = command();
    let mut builder = Builder::new(&artifact);
    assert_eq!(builder.call("executable", item("ls")), Ok(()));
    assert_eq!(builder.call("exe", item("cat")), Err(CallError::UnknownSetter));
    assert_eq!(builder.build(), Ok(vec![Some(item("ls")), Some(list(&[])), None, None]));
}

#[test]
fn element_setter_refuses_a_sequence() {
    let artifact = command();
    let mut builder = Builder::new(&artifact);
    assert_eq!(builder.call("arg", item("a")), Ok(()));
    assert_eq!(builder.call("arg", list(&["b", "c"])), Err(CallError::Mismatch));
    assert_eq!(builder.call("executable", item("ls")), Ok(()));
    assert_eq!(builder.build(), Ok(vec![Some(item("ls")), Some(list(&["a"])), None, None]));
}

#[test]
fn setters_may_be_called_in_any_order() {
    let artifact = command();
    let mut builder = Builder::new(&artifact);
    assert_eq!(builder.call("current_dir", item("..")), Ok(()));
    assert_eq!(builder.call("arg", item("a")), Ok(()));
    assert_eq!(builder.call("executable", item("ls")), Ok(()));
    assert_eq!(builder.call("arg", item("b")), Ok(()));
    assert_eq!(
        builder.build(),
        Ok(vec![Some(item("ls")), Some(list(&["a", "b"])), None, Some(item(".."))])
    );
}

#[test]
fn empty_record_builds_an_empty_record() {
    let artifact = builder::derive(&RecordDescriptor { name: "Unit".to_string(), fields: vec![] }).unwrap();
    let mut builder = Builder::new(&artifact);
    assert_eq!(builder.build(), Ok(vec![]));
}

#[test]
fn value_duplicate_copies_items_and_lists() {
    assert_eq!(item("a").duplicate(), item("a"));
    assert_eq!(list(&["a", "b"]).duplicate(), list(&["a", "b"]));
    assert_eq!(list(&[]).duplicate(), list(&[]));
}
