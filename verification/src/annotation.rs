//! Parsing of one annotation: `key = "string-literal"`.
//!
//! The grammar over the tokens is this crate's own and is verified. Whether
//! the key is an identifier, and what the literal decodes to, is asked of
//! the `syn` crate.

use vstd::prelude::*;
use crate::descriptor::{token_models, RawAnnotation, Token, TokenModel};

verus! {

/// Whether a character opens a delimited group of tokens.
pub open spec fn opens_group(c: char) -> bool {
    c == '(' || c == '[' || c == '{'
}

/// Whether a text holds a character that opens a group.
pub open spec fn has_opening_bracket(text: Seq<char>) -> bool {
    exists|i: int| 0 <= i < text.len() && opens_group(#[trigger] text[i])
}

/// Calls `syn::parse_str::<syn::Ident>` and says whether it succeeded: `syn`
/// takes an identifier that is neither a keyword nor `_`. Trusted, and
/// nothing is claimed of the answer. A text with an opening bracket is left
/// out, because `syn` descends once for each level of nested brackets.
#[verifier::external_body]
fn is_identifier(text: &str) -> (accepted: bool)
    requires
        !has_opening_bracket(text@),
{
    syn::parse_str::<syn::Ident>(text).is_ok()
}

/// Calls `proc_macro2::Literal::from_str`, `syn::Lit::new` and
/// `syn::LitStr::value`: the decoded value where the text is one string
/// literal, `None` where it is not. Trusted, and nothing is claimed of the
/// value.
#[verifier::external_body]
fn decode_string_literal(text: &str) -> (value: Option<String>) {
    match text.parse::<proc_macro2::Literal>() {
        Ok(literal) => match syn::Lit::new(literal) {
            syn::Lit::Str(string) => Some(string.value()),
            _ => None,
        },
        Err(_) => None,
    }
}

/// The one way an annotation can fail to parse.
#[derive(Clone, Copy, Debug, PartialEq, Eq)]
pub enum AnnotationError {
    /// The tokens are not of the form `identifier = "string-literal"`.
    Malformed,
}

/// A parsed annotation: the key as written and the decoded value.
#[derive(Clone, Debug, PartialEq, Eq)]
pub struct BuilderAttr {
    pub key: String,
    pub value: String,
}

/// What a [`BuilderAttr`] is in contracts.
pub struct BuilderAttrModel {
    pub key: Seq<char>,
    pub value: Seq<char>,
}

impl View for BuilderAttr {
    type V = BuilderAttrModel;

    open spec fn view(&self) -> BuilderAttrModel {
        BuilderAttrModel { key: self.key@, value: self.value@ }
    }
}

/// The texts of the key and of the literal where the tokens are exactly an
/// identifier, the punctuation `=`, and a literal; `None` otherwise.
pub open spec fn key_value_shape(tokens: Seq<TokenModel>) -> Option<(Seq<char>, Seq<char>)> {
    if tokens.len() == 3 && tokens[0] is Ident && tokens[1] == TokenModel::Punct('=')
        && tokens[2] is Literal {
        Some((tokens[0]->Ident_0, tokens[2]->Literal_0))
    } else {
        None
    }
}

/// The parsed annotation, from what the grammar found, whether the key was
/// accepted as an identifier, and what the literal decoded to.
pub open spec fn assemble_spec(
    shape: Option<(Seq<char>, Seq<char>)>,
    accepted: bool,
    value: Option<Seq<char>>,
) -> Result<BuilderAttrModel, AnnotationError> {
    match (shape, value) {
        (Some(texts), Some(decoded)) if accepted => Ok(
            BuilderAttrModel { key: texts.0, value: decoded },
        ),
        _ => Err(AnnotationError::Malformed),
    }
}

/// What holds of every result of parsing the given tokens.
///
/// Tokens that are not of the form `identifier = literal` never parse. A
/// key with an opening bracket is no identifier. Where the tokens parse,
/// the key is the first token as written.
pub open spec fn parse_admits(
    tokens: Seq<TokenModel>,
    parsed: Result<BuilderAttrModel, AnnotationError>,
) -> bool {
    match (key_value_shape(tokens), parsed) {
        (Some(texts), Ok(attr)) => attr.key == texts.0 && !has_opening_bracket(texts.0),
        (None, Ok(_)) => false,
        (_, Err(_)) => true,
    }
}

/// The model of a parse result.
pub open spec fn parsed_model(parsed: Result<BuilderAttr, AnnotationError>) -> Result<
    BuilderAttrModel,
    AnnotationError,
> {
    match parsed {
        Ok(attr) => Ok(attr@),
        Err(e) => Err(e),
    }
}

/// The model of an optional pair of texts.
pub open spec fn text_pair_model(pair: Option<(String, String)>) -> Option<(Seq<char>, Seq<char>)> {
    match pair {
        Some(p) => Some((p.0@, p.1@)),
        None => None,
    }
}

/// Whether a text holds `(`, `[` or `{`.
pub fn contains_opening_bracket(text: &str) -> (found: bool)
    ensures
        found == has_opening_bracket(text@),
{
    let mut found = false;
    for c in it: text.chars()
        invariant
            it.seq() == text@,
            found == exists|i: int| 0 <= i < it.index() && opens_group(#[trigger] text@[i]),
    {
        if c == '(' || c == '[' || c == '{' {
            found = true;
        }
    }
    found
}

/// Matches tokens against the grammar `identifier '=' literal` and hands out
/// the texts of the identifier and of the literal.
pub fn split_key_value(tokens: &Vec<Token>) -> (parts: Option<(String, String)>)
    ensures
        text_pair_model(parts) == key_value_shape(token_models(*tokens)),
{
    if tokens.len() != 3 {
        return None;
    }
    assert(token_models(*tokens)[0] == tokens@[0]@);
    assert(token_models(*tokens)[1] == tokens@[1]@);
    assert(token_models(*tokens)[2] == tokens@[2]@);
    match (&tokens[0], &tokens[1], &tokens[2]) {
        (Token::Ident(key), Token::Punct(c), Token::Literal(literal)) => {
            if *c == '=' {
                Some((key.clone(), literal.clone()))
            } else {
                None
            }
        },
        _ => None,
    }
}

impl BuilderAttr {
    /// Puts a parsed annotation together from the key and literal that the
    /// grammar found, whether the key was accepted, and the decoded literal.
    pub fn assemble(parts: Option<(String, String)>, accepted: bool, value: Option<String>) -> (parsed:
        Result<BuilderAttr, AnnotationError>)
        ensures
            parsed_model(parsed) == assemble_spec(
                text_pair_model(parts),
                accepted,
                match value {
                    Some(v) => Some(v@),
                    None => None,
                },
            ),
    {
        match (parts, value) {
            (Some(p), Some(v)) => {
                if accepted {
                    Ok(BuilderAttr { key: p.0, value: v })
                } else {
                    Err(AnnotationError::Malformed)
                }
            },
            _ => Err(AnnotationError::Malformed),
        }
    }

    /// Parses the tokens of an annotation of the form
    /// `key = "string-literal"`. Any key is taken that is an identifier;
    /// which keys are known is not decided here.
    ///
    /// Whether the key is an identifier and what the literal decodes to is
    /// decided outside: the result is [`BuilderAttr::assemble`] of those
    /// two answers.
    pub fn parse(raw: &RawAnnotation) -> (parsed: Result<BuilderAttr, AnnotationError>)
        ensures
            parse_admits(raw@.tokens, parsed_model(parsed)),
    {
        let parts = split_key_value(&raw.tokens);
        match &parts {
            Some(p) => {
                let accepted = !contains_opening_bracket(p.0.as_str()) && is_identifier(
                    p.0.as_str(),
                );
                let value = decode_string_literal(p.1.as_str());
                BuilderAttr::assemble(parts, accepted, value)
            },
            None => Err(AnnotationError::Malformed),
        }
    }
}

} // verus!
