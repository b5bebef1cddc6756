//! What holds of every generated builder, shape by shape.

use vstd::prelude::*;
use crate::descriptor::{nesting, RecordModel, TypeModel};
use crate::instance::{stored_after, yielded, CallError, ValueModel};
use crate::shape::{classify_spec, optional_of, sequence_of};
use crate::validate::{
    admissible_all, annotated, errors_are_complete, errors_from, field_error, names_each,
    outcome_at, refusal, OutcomeModel,
};
use crate::derive_from;
use crate::synth::{
    artifact_of, each_of, field_of, missing_message, plan_spec, plans_from, SetterAction,
    StepModel, StrategyModel,
};

verus! {

/// What is stored for a field after its appending setter was called once
/// for each of `values`, in order, starting from `slot`.
pub open spec fn after_appends(slot: Option<ValueModel>, values: Seq<Seq<char>>) -> Option<
    ValueModel,
>
    decreases values.len(),
{
    if values.len() == 0 {
        slot
    } else {
        match stored_after(
            SetterAction::Append,
            after_appends(slot, values.drop_last()),
            ValueModel::Item(values.last()),
        ) {
            Ok(stored) => stored,
            Err(_) => None,
        }
    }
}

/// No type is its own optional.
pub proof fn optional_of_a_type_is_another_type(ty: TypeModel)
    ensures
        optional_of(ty) != ty,
{
    assert(nesting(optional_of(ty)) == 1 + nesting(ty));
}

/// A field declared `Option<T>` is stored as `Option<T>`, the type it was
/// declared with, and never as `Option<Option<T>>`. Its setter takes a `T`.
/// `build` never fails on it: it hands out what is stored, set or not.
pub proof fn optional_field_is_not_wrapped_and_never_fails(
    name: Seq<char>,
    ty: TypeModel,
    each: Option<Seq<char>>,
    slot: Option<ValueModel>,
)
    requires
        classify_spec(ty) is Optional,
    ensures
        plan_spec(name, ty, each).stored_as == ty,
        plan_spec(name, ty, each).stored_as == optional_of(classify_spec(ty)->Optional_0),
        plan_spec(name, ty, each).stored_as != optional_of(ty),
        field_of(plan_spec(name, ty, each)).storage == ty,
        field_of(plan_spec(name, ty, each)).parameter == classify_spec(ty)->Optional_0,
        field_of(plan_spec(name, ty, each)).action == SetterAction::Assign,
        yielded(field_of(plan_spec(name, ty, each)).step, slot) == Ok::<
            Option<ValueModel>,
            Seq<char>,
        >(slot),
{
    crate::shape::classify_round_trip(ty);
    optional_of_a_type_is_another_type(ty);
}

/// A field declared `Vec<T>` without annotation has a bulk setter that
/// bears the field's name and takes a `Vec<T>`. Where the setter was never
/// called, `build` hands out the empty sequence and does not fail.
pub proof fn unset_sequence_builds_empty(name: Seq<char>, ty: TypeModel)
    requires
        classify_spec(ty) is Sequence,
    ensures
        plan_spec(name, ty, None).setter_strategy == StrategyModel::Bulk,
        plan_spec(name, ty, None).stored_as == optional_of(ty),
        field_of(plan_spec(name, ty, None)).setter == name,
        field_of(plan_spec(name, ty, None)).parameter == ty,
        field_of(plan_spec(name, ty, None)).action == SetterAction::Assign,
        yielded(field_of(plan_spec(name, ty, None)).step, None) == Ok::<
            Option<ValueModel>,
            Seq<char>,
        >(Some(ValueModel::List(Seq::empty()))),
{
    crate::shape::classify_round_trip(ty);
}

/// A field declared `Vec<T>` with the annotation `each = "push_x"` has one
/// setter: it is named `push_x`, takes a `T`, and appends. No setter of the
/// field assigns. After calls with `values`, in that order, on a fresh
/// builder, `build` hands out exactly `values`, in call order.
pub proof fn element_setter_appends_in_call_order(
    name: Seq<char>,
    ty: TypeModel,
    push_x: Seq<char>,
    values: Seq<Seq<char>>,
)
    requires
        classify_spec(ty) is Sequence,
    ensures
        plan_spec(name, ty, Some(push_x)).setter_strategy == StrategyModel::ElementAppend(push_x),
        plan_spec(name, ty, Some(push_x)).stored_as == optional_of(ty),
        ty == sequence_of(classify_spec(ty)->Sequence_0),
        field_of(plan_spec(name, ty, Some(push_x))).setter == push_x,
        field_of(plan_spec(name, ty, Some(push_x))).parameter == classify_spec(ty)->Sequence_0,
        field_of(plan_spec(name, ty, Some(push_x))).action == SetterAction::Append,
        yielded(
            field_of(plan_spec(name, ty, Some(push_x))).step,
            after_appends(None, values),
        ) == Ok::<Option<ValueModel>, Seq<char>>(Some(ValueModel::List(values))),
{
    crate::shape::classify_round_trip(ty);
    appends_collect(values);
    if values.len() == 0 {
        assert(values =~= Seq::<Seq<char>>::empty());
    }
}

/// Appending `values` one by one to a field that stores nothing leaves
/// nothing stored where there are no values, and else the sequence of the
/// values; no call is refused on the way.
pub proof fn appends_collect(values: Seq<Seq<char>>)
    ensures
        values.len() == 0 ==> after_appends(None, values) is None,
        values.len() > 0 ==> after_appends(None, values) == Some(ValueModel::List(values)),
        values.len() > 0 ==> stored_after(
            SetterAction::Append,
            after_appends(None, values.drop_last()),
            ValueModel::Item(values.last()),
        ) is Ok,
    decreases values.len(),
{
    if values.len() > 0 {
        let head = values.drop_last();
        appends_collect(head);
        if head.len() == 0 {
            assert(seq![values.last()] =~= values);
        } else {
            assert(head.push(values.last()) =~= values);
        }
    }
}

/// A plain field that is not set makes `build` fail with the message that
/// names the field; one that is set never fails and comes out as it was
/// set.
pub proof fn plain_field_is_required(
    name: Seq<char>,
    ty: TypeModel,
    each: Option<Seq<char>>,
    value: ValueModel,
)
    requires
        classify_spec(ty) is Plain,
    ensures
        plan_spec(name, ty, each).stored_as == optional_of(ty),
        field_of(plan_spec(name, ty, each)).setter == name,
        field_of(plan_spec(name, ty, each)).parameter == ty,
        field_of(plan_spec(name, ty, each)).action == SetterAction::Assign,
        field_of(plan_spec(name, ty, each)).step == StepModel::Require(missing_message(name)),
        yielded(field_of(plan_spec(name, ty, each)).step, None) == Err::<
            Option<ValueModel>,
            Seq<char>,
        >(missing_message(name)),
        yielded(field_of(plan_spec(name, ty, each)).step, Some(value)) == Ok::<
            Option<ValueModel>,
            Seq<char>,
        >(Some(value)),
{
}

/// The message of a missing field names exactly that field: two fields
/// with the same message have the same name.
pub proof fn missing_message_names_one_field(a: Seq<char>, b: Seq<char>)
    requires
        missing_message(a) == missing_message(b),
    ensures
        a == b,
{
    reveal_strlit("Field '");
    reveal_strlit("' is not set");
    let head = "Field '"@;
    let tail = "' is not set"@;
    assert(missing_message(a).len() == head.len() + a.len() + tail.len());
    assert(missing_message(b).len() == head.len() + b.len() + tail.len());
    assert forall|i: int| 0 <= i < a.len() implies a[i] == b[i] by {
        assert(missing_message(a)[head.len() + i] == a[i]);
        assert(missing_message(b)[head.len() + i] == b[i]);
    }
    assert(a =~= b);
}

/// In a record whose fields bear different names, the messages of two
/// different fields differ: a failed `build` tells which field is missing.
pub proof fn missing_field_is_identified(record: RecordModel, i: int, j: int)
    requires
        record.names_unique(),
        0 <= i < record.fields.len(),
        0 <= j < record.fields.len(),
        i != j,
    ensures
        missing_message(record.fields[i].name) != missing_message(record.fields[j].name),
{
    if missing_message(record.fields[i].name) == missing_message(record.fields[j].name) {
        missing_message_names_one_field(record.fields[i].name, record.fields[j].name);
    }
}

/// The builder of a record has one field for each field of the record, in
/// the same order and under the same name, and each with one setter: the
/// field that its plan gives.
pub proof fn builder_follows_the_record(record: RecordModel, outcomes: Seq<OutcomeModel>, i: int)
    requires
        0 <= i < record.fields.len(),
    ensures
        artifact_of(record.name, plans_from(record.fields, outcomes)).fields.len()
            == record.fields.len(),
        artifact_of(record.name, plans_from(record.fields, outcomes)).fields[i] == field_of(
            plan_spec(record.fields[i].name, record.fields[i].ty, each_of(outcome_at(outcomes, i))),
        ),
        artifact_of(record.name, plans_from(record.fields, outcomes)).fields[i].name
            == record.fields[i].name,
        plan_spec(
            record.fields[i].name,
            record.fields[i].ty,
            each_of(outcome_at(outcomes, i)),
        ).consistent(),
{
    crate::shape::classify_round_trip(record.fields[i].ty);
}

/// A record without an annotated sequence field is always generated:
/// whatever the outcomes of its fields, no error comes out.
pub proof fn record_without_annotated_sequence_is_generated(
    record: RecordModel,
    outcomes: Seq<OutcomeModel>,
)
    requires
        admissible_all(record.fields, outcomes),
        forall|i: int|
            0 <= i < record.fields.len() ==> !(classify_spec((#[trigger] record.fields[i]).ty)
                is Sequence && annotated(record.fields[i])),
    ensures
        derive_from(record, outcomes) == Ok::<
            crate::synth::ArtifactModel,
            Seq<crate::validate::ValidationErrorModel>,
        >(artifact_of(record.name, plans_from(record.fields, outcomes))),
{
    errors_are_complete(record.fields, outcomes);
    let errors = errors_from(record.fields, outcomes);
    if errors.len() > 0 {
        let i = choose|i: int|
            0 <= i < record.fields.len() && field_error(
                record.fields[i],
                outcome_at(outcomes, i),
            ) == Some(errors[0]);
        assert(outcomes[i] is Err);
        assert(annotated(record.fields[i]));
    }
}

/// The field at `i` is an annotated sequence field, and `error` is its
/// error: it carries the field's name, the fixed message and the
/// annotation's position.
pub open spec fn is_error_of(
    record: RecordModel,
    error: crate::validate::ValidationErrorModel,
    i: int,
) -> bool {
    &&& 0 <= i < record.fields.len()
    &&& classify_spec(record.fields[i].ty) is Sequence
    &&& annotated(record.fields[i])
    &&& error == refusal(record.fields[i])
}

/// Every error that comes out is that of an annotated sequence field.
pub proof fn every_error_comes_from_an_annotated_sequence(
    record: RecordModel,
    outcomes: Seq<OutcomeModel>,
    k: int,
)
    requires
        admissible_all(record.fields, outcomes),
        0 <= k < errors_from(record.fields, outcomes).len(),
    ensures
        exists|i: int| #[trigger] is_error_of(record, errors_from(record.fields, outcomes)[k], i),
{
    errors_are_complete(record.fields, outcomes);
    let errors = errors_from(record.fields, outcomes);
    let i = choose|i: int|
        0 <= i < record.fields.len() && field_error(record.fields[i], outcome_at(outcomes, i))
            == Some(errors[k]);
    assert(outcomes[i] is Err);
    assert(annotated(record.fields[i]));
    assert(is_error_of(record, errors[k], i));
}

/// Every annotated sequence field whose tokens are not of the form
/// `each = literal` has its error among the errors that come out, and no
/// builder comes out.
pub proof fn malformed_annotation_is_always_reported(
    record: RecordModel,
    outcomes: Seq<OutcomeModel>,
    i: int,
)
    requires
        admissible_all(record.fields, outcomes),
        0 <= i < record.fields.len(),
        classify_spec(record.fields[i].ty) is Sequence,
        annotated(record.fields[i]),
        !names_each(record.fields[i].annotations[0].tokens),
    ensures
        errors_from(record.fields, outcomes).contains(refusal(record.fields[i])),
        derive_from(record, outcomes) == Err::<
            crate::synth::ArtifactModel,
            Seq<crate::validate::ValidationErrorModel>,
        >(errors_from(record.fields, outcomes)),
{
    errors_are_complete(record.fields, outcomes);
    assert(outcomes[i] is Err);
    assert(field_error(record.fields[i], outcome_at(outcomes, i)) == Some(
        refusal(record.fields[i]),
    ));
}

/// In a builder that comes out, a setter appends only on a sequence field
/// that is annotated with tokens of the form `each = literal`; and every
/// annotated sequence field has such a setter and no assigning one.
pub proof fn element_setter_only_on_annotated_sequence(
    record: RecordModel,
    outcomes: Seq<OutcomeModel>,
    i: int,
)
    requires
        admissible_all(record.fields, outcomes),
        derive_from(record, outcomes) is Ok,
        0 <= i < record.fields.len(),
    ensures
        derive_from(record, outcomes)->Ok_0.fields.len() == record.fields.len(),
        derive_from(record, outcomes)->Ok_0.fields[i].action == SetterAction::Append <==> (
        classify_spec(record.fields[i].ty) is Sequence && annotated(record.fields[i])),
        derive_from(record, outcomes)->Ok_0.fields[i].action == SetterAction::Append
            ==> names_each(record.fields[i].annotations[0].tokens),
{
    errors_are_complete(record.fields, outcomes);
    assert(outcome_at(outcomes, i) == outcomes[i]);
    if classify_spec(record.fields[i].ty) is Sequence && outcomes[i] is Err {
        assert(field_error(record.fields[i], outcome_at(outcomes, i)) is Some);
        assert(errors_from(record.fields, outcomes).contains(outcomes[i]->Err_0));
    }
}

/// The last write wins: after a bulk setter was called with `a` and then
/// with `b`, `b` is stored, whatever was stored before.
pub proof fn bulk_setter_keeps_last_write(slot: Option<ValueModel>, a: ValueModel, b: ValueModel)
    ensures
        stored_after(SetterAction::Assign, slot, a) == Ok::<Option<ValueModel>, CallError>(Some(a)),
        stored_after(SetterAction::Assign, Some(a), b) == Ok::<Option<ValueModel>, CallError>(
            Some(b),
        ),
        stored_after(SetterAction::Assign, Some(b), b) == stored_after(
            SetterAction::Assign,
            slot,
            b,
        ),
{
}

/// An appending setter is not idempotent: a second call with the same
/// element is taken whenever the first was, and stores one element more.
pub proof fn element_setter_appends_every_time(slot: Option<ValueModel>, element: Seq<char>)
    requires
        stored_after(SetterAction::Append, slot, ValueModel::Item(element)) is Ok,
    ensures
        ({
            let once = stored_after(SetterAction::Append, slot, ValueModel::Item(element))->Ok_0;
            let twice = stored_after(SetterAction::Append, once, ValueModel::Item(element));
            &&& once matches Some(ValueModel::List(first))
            &&& twice matches Ok(Some(ValueModel::List(second)))
            &&& second == first.push(element)
            &&& second.len() == first.len() + 1
            &&& twice->Ok_0 != once
        }),
{
}

} // verus!
