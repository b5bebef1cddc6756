//! Validation of the `each` annotation, field by field, and the errors of a
//! record, which are gathered before anything is synthesized.

use vstd::prelude::*;
use crate::annotation::{
    key_value_shape, parse_admits, parsed_model, AnnotationError, BuilderAttr, BuilderAttrModel,
};
use crate::descriptor::{
    same_text, AnnotationForm, FieldDescriptor, FieldModel, Position, RawAnnotation,
    RawAnnotationModel, RecordDescriptor, TokenModel,
};
use crate::shape::{classify, classify_spec, TypeShape};

verus! {

/// The valid form of the `each` annotation: the name of the setter that
/// appends one element.
#[derive(Clone, Debug, PartialEq, Eq)]
pub struct ParsedEachAnnotation {
    pub element_setter_name: String,
}

/// An annotation that was refused: the field that carries it, the message,
/// and where the annotation stands.
#[derive(Clone, Debug, PartialEq, Eq)]
pub struct ValidationError {
    pub field: String,
    pub message: String,
    pub position: Position,
}

/// What a [`ValidationError`] is in contracts.
pub struct ValidationErrorModel {
    pub field: Seq<char>,
    pub message: Seq<char>,
    pub position: Position,
}

impl View for ValidationError {
    type V = ValidationErrorModel;

    open spec fn view(&self) -> ValidationErrorModel {
        ValidationErrorModel { field: self.field@, message: self.message@, position: self.position }
    }
}

impl ValidationError {
    /// A copy of this error.
    pub fn duplicate(&self) -> (copy: ValidationError)
        ensures
            copy@ == self@,
    {
        ValidationError {
            field: self.field.clone(),
            message: self.message.clone(),
            position: self.position,
        }
    }
}

/// What validating one field gives: the element setter, nothing, or the
/// error.
pub type Outcome = Result<Option<ParsedEachAnnotation>, ValidationError>;

/// An [`Outcome`] in contracts.
pub type OutcomeModel = Result<Option<Seq<char>>, ValidationErrorModel>;

/// The model of an outcome.
pub open spec fn outcome_model(outcome: Outcome) -> OutcomeModel {
    match outcome {
        Ok(Some(each)) => Ok(Some(each.element_setter_name@)),
        Ok(None) => Ok(None),
        Err(error) => Err(error@),
    }
}

/// The models of a vector of outcomes.
pub open spec fn outcome_models(outcomes: Vec<Outcome>) -> Seq<OutcomeModel> {
    outcomes@.map_values(|o: Outcome| outcome_model(o))
}

/// The models of a vector of errors.
pub open spec fn error_models(errors: Vec<ValidationError>) -> Seq<ValidationErrorModel> {
    errors@.map_values(|e: ValidationError| e@)
}

/// The name under which annotations are addressed to the builder.
pub open spec fn annotation_name() -> Seq<char> {
    "builder"@
}

/// The one key that an annotation may name.
pub open spec fn each_key() -> Seq<char> {
    "each"@
}

/// The one message of every refused annotation, whatever was wrong with it.
pub open spec fn expected_message() -> Seq<char> {
    "expected `builder(each = \"...\")`"@
}

/// An annotation is addressed to the builder where it is a list under the
/// name `builder`.
pub open spec fn addressed(annotation: RawAnnotationModel) -> bool {
    annotation.form == AnnotationForm::List && annotation.name == annotation_name()
}

/// A field is annotated where its first annotation is addressed to the
/// builder. Annotations after the first do not count.
pub open spec fn annotated(field: FieldModel) -> bool {
    field.annotations.len() > 0 && addressed(field.annotations[0])
}

/// The tokens are of the form `each = literal`.
pub open spec fn names_each(tokens: Seq<TokenModel>) -> bool {
    match key_value_shape(tokens) {
        Some(texts) => texts.0 == each_key(),
        None => false,
    }
}

/// The error of a field whose annotation is refused.
pub open spec fn refusal(field: FieldModel) -> ValidationErrorModel {
    ValidationErrorModel {
        field: field.name,
        message: expected_message(),
        position: field.annotations[0].position,
    }
}

/// The outcome on an annotation that has been parsed, or has failed to
/// parse.
pub open spec fn judge_spec(
    field: Seq<char>,
    position: Position,
    parsed: Result<BuilderAttrModel, AnnotationError>,
) -> OutcomeModel {
    match parsed {
        Ok(attr) if attr.key == each_key() => Ok(Some(attr.value)),
        _ => Err(ValidationErrorModel { field, message: expected_message(), position }),
    }
}

/// What holds of every outcome of validating a field.
///
/// A field that is not annotated gives nothing. An annotated field gives
/// either an element setter, and then its tokens are of the form
/// `each = literal`, or the error with the field's name, the fixed message
/// and the annotation's position. Tokens of any other form always give the
/// error.
pub open spec fn admissible(field: FieldModel, outcome: OutcomeModel) -> bool {
    if !annotated(field) {
        outcome == Ok::<Option<Seq<char>>, ValidationErrorModel>(None)
    } else {
        match outcome {
            Ok(None) => false,
            Ok(Some(_)) => names_each(field.annotations[0].tokens),
            Err(error) => error == refusal(field),
        }
    }
}

/// There is one outcome for each field, and each is admissible.
pub open spec fn admissible_all(fields: Seq<FieldModel>, outcomes: Seq<OutcomeModel>) -> bool {
    &&& outcomes.len() == fields.len()
    &&& forall|i: int| 0 <= i < fields.len() ==> admissible(#[trigger] fields[i], outcomes[i])
}

/// The outcome of the field at a place; a field without one counts as not
/// annotated.
pub open spec fn outcome_at(outcomes: Seq<OutcomeModel>, i: int) -> OutcomeModel {
    if 0 <= i < outcomes.len() {
        outcomes[i]
    } else {
        Ok(None)
    }
}

/// The error that a field adds to the record's errors: that of its
/// outcome, where the field is a sequence.
pub open spec fn field_error(field: FieldModel, outcome: OutcomeModel) -> Option<
    ValidationErrorModel,
> {
    match outcome {
        Err(error) if classify_spec(field.ty) is Sequence => Some(error),
        _ => None,
    }
}

/// The errors of a sequence of fields with the given outcomes, in the order
/// of the fields.
pub open spec fn errors_from(fields: Seq<FieldModel>, outcomes: Seq<OutcomeModel>) -> Seq<
    ValidationErrorModel,
>
    decreases fields.len(),
{
    if fields.len() == 0 {
        Seq::empty()
    } else {
        let before = errors_from(fields.drop_last(), outcomes);
        match field_error(fields.last(), outcome_at(outcomes, fields.len() - 1)) {
            Some(error) => before.push(error),
            None => before,
        }
    }
}

/// The first annotation of a field, where it is addressed to the builder.
pub fn find_each_attr(field: &FieldDescriptor) -> (found: Option<&RawAnnotation>)
    ensures
        found is Some == annotated(field@),
        found is Some ==> found->0@ == field@.annotations[0],
{
    if field.annotations.len() == 0 {
        return None;
    }
    let first = &field.annotations[0];
    assert(field@.annotations[0] == first@);
    match first.form {
        AnnotationForm::List => {
            if same_text(first.name.as_str(), "builder") {
                Some(first)
            } else {
                None
            }
        },
        _ => None,
    }
}

/// Judges a parsed annotation of the field `field`: a parse failure and a key
/// other than `each` give the same error.
pub fn judge(field: &String, position: Position, parsed: Result<BuilderAttr, AnnotationError>) -> (outcome:
    Outcome)
    ensures
        outcome_model(outcome) == judge_spec(field@, position, parsed_model(parsed)),
{
    match parsed {
        Ok(attr) => {
            if same_text(attr.key.as_str(), "each") {
                return Ok(Some(ParsedEachAnnotation { element_setter_name: attr.value }));
            }
        },
        Err(_) => {},
    }
    Err(
        ValidationError {
            field: field.clone(),
            message: "expected `builder(each = \"...\")`".to_owned(),
            position,
        },
    )
}

/// Validates the annotation of a field.
///
/// The shape takes no part in the outcome: an `each` annotation on a field
/// that is no sequence is accepted here and has no effect on the builder.
pub fn validate(field: &FieldDescriptor, shape: &TypeShape) -> (outcome: Outcome)
    ensures
        admissible(field@, outcome_model(outcome)),
{
    match find_each_attr(field) {
        Some(annotation) => {
            let parsed = BuilderAttr::parse(annotation);
            assert(parse_admits(field@.annotations[0].tokens, parsed_model(parsed)));
            judge(&field.name, annotation.position, parsed)
        },
        None => Ok(None),
    }
}

/// Validates every field of a record, each once.
pub fn validate_fields(record: &RecordDescriptor) -> (outcomes: Vec<Outcome>)
    ensures
        admissible_all(record@.fields, outcome_models(outcomes)),
{
    let mut outcomes: Vec<Outcome> = Vec::new();
    let mut i: usize = 0;
    while i < record.fields.len()
        invariant
            i <= record.fields.len(),
            outcomes.len() == i,
            forall|k: int|
                0 <= k < i ==> admissible(
                    #[trigger] record@.fields[k],
                    outcome_model(outcomes[k]),
                ),
        decreases record.fields.len() - i,
    {
        let field = &record.fields[i];
        assert(record@.fields[i as int] == field@);
        let shape = classify(&field.ty);
        outcomes.push(validate(field, &shape));
        i += 1;
    }
    assert forall|k: int| 0 <= k < record@.fields.len() implies admissible(
        #[trigger] record@.fields[k],
        outcome_models(outcomes)[k],
    ) by {
        assert(outcome_models(outcomes)[k] == outcome_model(outcomes[k]));
    }
    outcomes
}

/// Gathers the errors of every sequence field of the record from the
/// outcomes of its fields, in field order. Nothing stops at the first error.
pub fn collect_errors(record: &RecordDescriptor, outcomes: &Vec<Outcome>) -> (errors: Vec<
    ValidationError,
>)
    ensures
        error_models(errors) == errors_from(record@.fields, outcome_models(*outcomes)),
{
    let ghost all = outcome_models(*outcomes);
    let mut errors: Vec<ValidationError> = Vec::new();
    let mut i: usize = 0;
    assert(record@.fields.take(0) == Seq::<FieldModel>::empty());
    while i < record.fields.len()
        invariant
            i <= record.fields.len(),
            all == outcome_models(*outcomes),
            error_models(errors) == errors_from(record@.fields.take(i as int), all),
        decreases record.fields.len() - i,
    {
        let field = &record.fields[i];
        let ghost before = error_models(errors);
        proof {
            let prefix = record@.fields.take(i + 1);
            assert(prefix.drop_last() == record@.fields.take(i as int));
            assert(prefix.last() == field@);
        }
        if i < outcomes.len() {
            assert(all[i as int] == outcome_model(outcomes[i as int]));
            if let Err(error) = &outcomes[i] {
                if let TypeShape::Sequence(_) = classify(&field.ty) {
                    errors.push(error.duplicate());
                    assert(error_models(errors) == before.push(error@));
                }
            }
        }
        i += 1;
    }
    assert(record@.fields.take(i as int) == record@.fields);
    errors
}

/// An annotation whose tokens are not of the form `each = literal` is
/// always refused, and every refusal carries the field's name, the fixed
/// message and the annotation's position.
pub proof fn refused_annotation_gives_the_error(field: FieldModel, outcome: OutcomeModel)
    requires
        admissible(field, outcome),
        annotated(field),
    ensures
        !names_each(field.annotations[0].tokens) ==> outcome is Err,
        outcome is Err ==> outcome->Err_0 == refusal(field),
        outcome is Err ==> outcome->Err_0.message == expected_message(),
        outcome is Err ==> outcome->Err_0.field == field.name,
{
}

/// The errors of a run of fields do not depend on the outcomes of fields
/// that come after the run.
pub proof fn errors_of_a_prefix(
    fields: Seq<FieldModel>,
    outcomes: Seq<OutcomeModel>,
    more: Seq<OutcomeModel>,
)
    requires
        fields.len() <= outcomes.len(),
    ensures
        errors_from(fields, outcomes + more) == errors_from(fields, outcomes),
    decreases fields.len(),
{
    if fields.len() > 0 {
        errors_of_a_prefix(fields.drop_last(), outcomes, more);
        assert(outcome_at(outcomes + more, fields.len() - 1) == outcome_at(
            outcomes,
            fields.len() - 1,
        ));
    }
}

/// The errors of two runs of fields, one after the other, are the errors of
/// the first followed by the errors of the second: what a field adds depends
/// on that field and its outcome alone, not on its neighbours nor on its
/// place.
pub proof fn errors_of_concatenation(
    a: Seq<FieldModel>,
    outcomes_a: Seq<OutcomeModel>,
    b: Seq<FieldModel>,
    outcomes_b: Seq<OutcomeModel>,
)
    requires
        outcomes_a.len() == a.len(),
        outcomes_b.len() == b.len(),
    ensures
        errors_from(a + b, outcomes_a + outcomes_b) == errors_from(a, outcomes_a) + errors_from(
            b,
            outcomes_b,
        ),
    decreases b.len(),
{
    if b.len() == 0 {
        assert(a + b == a);
        errors_of_a_prefix(a, outcomes_a, outcomes_b);
        assert(errors_from(b, outcomes_b) == Seq::<ValidationErrorModel>::empty());
    } else {
        let head = b.drop_last();
        let head_outcomes = outcomes_b.drop_last();
        errors_of_concatenation(a, outcomes_a, head, head_outcomes);
        assert((a + b).drop_last() == a + head);
        assert((a + b).last() == b.last());
        assert(outcomes_a + outcomes_b == (outcomes_a + head_outcomes) + seq![outcomes_b.last()]);
        errors_of_a_prefix(a + head, outcomes_a + head_outcomes, seq![outcomes_b.last()]);
        assert(outcomes_b == head_outcomes + seq![outcomes_b.last()]);
        errors_of_a_prefix(head, head_outcomes, seq![outcomes_b.last()]);
        assert(outcome_at(outcomes_a + outcomes_b, (a + b).len() - 1) == outcomes_b.last());
        assert(outcome_at(outcomes_b, b.len() - 1) == outcomes_b.last());
    }
}

/// Every sequence field whose outcome is an error has that error among the
/// errors of the record, not only the first such field; and every error of
/// the record is that of one of its sequence fields.
pub proof fn errors_are_complete(fields: Seq<FieldModel>, outcomes: Seq<OutcomeModel>)
    ensures
        forall|i: int|
            0 <= i < fields.len() && field_error(#[trigger] fields[i], outcome_at(outcomes, i))
                is Some ==> errors_from(fields, outcomes).contains(
                field_error(fields[i], outcome_at(outcomes, i))->0,
            ),
        forall|k: int|
            0 <= k < errors_from(fields, outcomes).len() ==> exists|i: int|
                0 <= i < fields.len() && field_error(fields[i], outcome_at(outcomes, i)) == Some(
                    #[trigger] errors_from(fields, outcomes)[k],
                ),
        errors_from(fields, outcomes).len() <= fields.len(),
    decreases fields.len(),
{
    if fields.len() > 0 {
        let head = fields.drop_last();
        let all = errors_from(fields, outcomes);
        let first = errors_from(head, outcomes);
        errors_are_complete(head, outcomes);
        assert forall|i: int|
            0 <= i < fields.len() && field_error(
                #[trigger] fields[i],
                outcome_at(outcomes, i),
            ) is Some implies all.contains(field_error(fields[i], outcome_at(outcomes, i))->0) by {
            let e = field_error(fields[i], outcome_at(outcomes, i))->0;
            if i < head.len() {
                assert(head[i] == fields[i]);
                assert(first.contains(e));
                let k = choose|k: int| 0 <= k < first.len() && first[k] == e;
                assert(all[k] == e);
            } else {
                assert(fields[i] == fields.last());
                assert(all[all.len() - 1] == e);
            }
        }
        assert forall|k: int| 0 <= k < all.len() implies exists|i: int|
            0 <= i < fields.len() && field_error(fields[i], outcome_at(outcomes, i)) == Some(
                #[trigger] all[k],
            ) by {
            if k < first.len() {
                assert(all[k] == first[k]);
                let i = choose|i: int|
                    0 <= i < head.len() && field_error(head[i], outcome_at(outcomes, i)) == Some(
                        first[k],
                    );
                assert(head[i] == fields[i]);
            } else {
                assert(field_error(
                    fields[fields.len() - 1],
                    outcome_at(outcomes, fields.len() - 1),
                ) == Some(all[k]));
            }
        }
    }
}

/// Rearranging the fields rearranges the errors and changes nothing else:
/// with two runs of fields exchanged, the same errors come out, each as
/// often as before.
pub proof fn errors_do_not_depend_on_order(
    a: Seq<FieldModel>,
    outcomes_a: Seq<OutcomeModel>,
    b: Seq<FieldModel>,
    outcomes_b: Seq<OutcomeModel>,
)
    requires
        outcomes_a.len() == a.len(),
        outcomes_b.len() == b.len(),
    ensures
        errors_from(a + b, outcomes_a + outcomes_b).to_multiset() == errors_from(
            b + a,
            outcomes_b + outcomes_a,
        ).to_multiset(),
{
    let ea = errors_from(a, outcomes_a);
    let eb = errors_from(b, outcomes_b);
    errors_of_concatenation(a, outcomes_a, b, outcomes_b);
    errors_of_concatenation(b, outcomes_b, a, outcomes_a);
    vstd::seq_lib::lemma_multiset_commutative(ea, eb);
    vstd::seq_lib::lemma_multiset_commutative(eb, ea);
    assert((ea + eb).to_multiset() =~= (eb + ea).to_multiset());
}

} // verus!
