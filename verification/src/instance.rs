//! What a generated builder does, told on values: how a setter changes what
//! is stored for its field, and what `build` makes of what is stored.

use vstd::prelude::*;
use crate::descriptor::same_text;
use crate::synth::{
    ArtifactModel, BuildStep, BuilderFieldModel, GeneratedArtifact, SetterAction, StepModel,
};

verus! {

/// A value that a builder can hold for a field. What a builder does never
/// depends on what a value is, only on whether it is one value or a
/// sequence of them: so texts stand for the values of every type.
#[derive(Clone, Debug, PartialEq, Eq)]
pub enum Value {
    /// One value.
    Item(String),
    /// A sequence of values.
    List(Vec<String>),
}

/// What a [`Value`] is in contracts.
pub enum ValueModel {
    Item(Seq<char>),
    List(Seq<Seq<char>>),
}

impl View for Value {
    type V = ValueModel;

    open spec fn view(&self) -> ValueModel {
        match *self {
            Value::Item(text) => ValueModel::Item(text@),
            Value::List(items) => ValueModel::List(items@.map_values(|s: String| s@)),
        }
    }
}

/// The model of what is stored for one field.
pub open spec fn slot_model(slot: Option<Value>) -> Option<ValueModel> {
    match slot {
        Some(value) => Some(value@),
        None => None,
    }
}

/// The models of what is stored for every field.
pub open spec fn slot_models(slots: Vec<Option<Value>>) -> Seq<Option<ValueModel>> {
    slots@.map_values(|s: Option<Value>| slot_model(s))
}

/// Why a call of a setter was refused.
#[derive(Clone, Copy, Debug, PartialEq, Eq)]
pub enum CallError {
    /// The builder has no setter of that name.
    UnknownSetter,
    /// An appending setter was given a sequence in place of one element, or
    /// found something stored that is no sequence.
    Mismatch,
}

/// What is stored for a field after its setter ran on `argument`.
///
/// Assigning stores the argument, whatever was stored. Appending starts
/// from an empty sequence where nothing was stored, and adds the element at
/// the end.
pub open spec fn stored_after(
    action: SetterAction,
    slot: Option<ValueModel>,
    argument: ValueModel,
) -> Result<Option<ValueModel>, CallError> {
    match action {
        SetterAction::Assign => Ok(Some(argument)),
        SetterAction::Append => match (slot, argument) {
            (None, ValueModel::Item(element)) => Ok(Some(ValueModel::List(seq![element]))),
            (Some(ValueModel::List(items)), ValueModel::Item(element)) => Ok(
                Some(ValueModel::List(items.push(element))),
            ),
            _ => Err(CallError::Mismatch),
        },
    }
}

/// What `build` hands out for a field, or the message it fails with.
///
/// `None` is an optional field that is absent.
pub open spec fn yielded(step: StepModel, slot: Option<ValueModel>) -> Result<
    Option<ValueModel>,
    Seq<char>,
> {
    match step {
        StepModel::Copy => Ok(slot),
        StepModel::TakeOrEmpty => match slot {
            Some(value) => Ok(Some(value)),
            None => Ok(Some(ValueModel::List(Seq::empty()))),
        },
        StepModel::Require(message) => match slot {
            Some(value) => Ok(Some(value)),
            None => Err(message),
        },
    }
}

/// What stays stored for a field once `build` has passed it: a copied
/// value stays, a taken one is gone.
pub open spec fn left_after(step: StepModel, slot: Option<ValueModel>) -> Option<ValueModel> {
    match step {
        StepModel::Copy => slot,
        _ => None,
    }
}

/// The field `k` is the first whose setter bears the name `setter`.
pub open spec fn answers(fields: Seq<BuilderFieldModel>, setter: Seq<char>, k: int) -> bool {
    &&& 0 <= k < fields.len()
    &&& fields[k].setter == setter
    &&& forall|j: int| 0 <= j < k ==> (#[trigger] fields[j]).setter != setter
}

/// The field `k` is the first at which `build` fails.
pub open spec fn first_failure(
    fields: Seq<BuilderFieldModel>,
    slots: Seq<Option<ValueModel>>,
    k: int,
) -> bool {
    &&& 0 <= k < fields.len()
    &&& yielded(fields[k].step, slots[k]) is Err
    &&& forall|j: int| 0 <= j < k ==> yielded((#[trigger] fields[j]).step, slots[j]) is Ok
}

/// What is stored once `build` has passed the fields before `k`.
pub open spec fn stored_past(
    fields: Seq<BuilderFieldModel>,
    slots: Seq<Option<ValueModel>>,
    k: int,
) -> Seq<Option<ValueModel>> {
    Seq::new(
        slots.len(),
        |i: int|
            if i < k {
                left_after(fields[i].step, slots[i])
            } else {
                slots[i]
            },
    )
}

/// The record that `build` assembles where no field fails.
pub open spec fn assembled(
    fields: Seq<BuilderFieldModel>,
    slots: Seq<Option<ValueModel>>,
) -> Seq<Option<ValueModel>> {
    Seq::new(slots.len(), |i: int| yielded(fields[i].step, slots[i])->Ok_0)
}

impl Value {
    /// A copy of this value.
    pub fn duplicate(&self) -> (copy: Value)
        ensures
            copy@ == self@,
    {
        match self {
            Value::Item(text) => Value::Item(text.clone()),
            Value::List(items) => {
                let mut copies: Vec<String> = Vec::new();
                let mut i: usize = 0;
                while i < items.len()
                    invariant
                        i <= items.len(),
                        copies@ == items@.take(i as int),
                    decreases items.len() - i,
                {
                    copies.push(items[i].clone());
                    assert(copies@ == items@.take(i + 1));
                    i += 1;
                }
                assert(items@.take(i as int) == items@);
                Value::List(copies)
            },
        }
    }
}

/// A builder at work: the generated builder of a record, and what it stores
/// for each field.
pub struct Builder<'a> {
    artifact: &'a GeneratedArtifact,
    slots: Vec<Option<Value>>,
}

impl<'a> Builder<'a> {
    #[verifier::type_invariant]
    spec fn one_slot_per_field(self) -> bool {
        self.slots.len() == self.artifact.fields.len()
    }

    /// The generated builder that this one is an instance of.
    pub closed spec fn artifact(&self) -> ArtifactModel {
        self.artifact@
    }

    /// The fields of the builder.
    pub open spec fn fields(&self) -> Seq<BuilderFieldModel> {
        self.artifact().fields
    }

    /// What is stored, field by field. `None` is a field that is not set.
    pub closed spec fn stored(&self) -> Seq<Option<ValueModel>> {
        slot_models(self.slots)
    }

    /// A fresh builder: nothing is stored for any field.
    pub fn new(artifact: &'a GeneratedArtifact) -> (builder: Builder<'a>)
        ensures
            builder.artifact() == artifact@,
            builder.stored() == Seq::new(artifact@.fields.len(), |i: int| None::<ValueModel>),
    {
        let mut slots: Vec<Option<Value>> = Vec::new();
        let mut i: usize = 0;
        while i < artifact.fields.len()
            invariant
                i <= artifact.fields.len(),
                slots.len() == i,
                forall|k: int| 0 <= k < i ==> (#[trigger] slots[k]) is None,
            decreases artifact.fields.len() - i,
        {
            slots.push(None);
            i += 1;
        }
        assert(slot_models(slots) =~= Seq::new(
            artifact@.fields.len(),
            |i: int| None::<ValueModel>,
        ));
        Builder { artifact, slots }
    }

    /// Calls the setter of the given name on `argument`.
    ///
    /// The first field whose setter bears the name takes the call. A call
    /// that is refused changes nothing.
    pub fn call(&mut self, setter: &str, argument: Value) -> (done: Result<(), CallError>)
        ensures
            final(self).artifact() == old(self).artifact(),
            final(self).stored().len() == old(self).stored().len() == old(self).fields().len(),
            match done {
                Ok(()) => exists|k: int|
                    {
                        &&& #[trigger] answers(old(self).fields(), setter@, k)
                        &&& stored_after(
                            old(self).fields()[k].action,
                            old(self).stored()[k],
                            argument@,
                        ) is Ok
                        &&& final(self).stored() == old(self).stored().update(
                            k,
                            stored_after(
                                old(self).fields()[k].action,
                                old(self).stored()[k],
                                argument@,
                            )->Ok_0,
                        )
                    },
                Err(CallError::UnknownSetter) => {
                    &&& forall|k: int|
                        0 <= k < old(self).fields().len() ==> (#[trigger] old(
                            self,
                        ).fields()[k]).setter != setter@
                    &&& final(self).stored() == old(self).stored()
                },
                Err(CallError::Mismatch) => {
                    &&& exists|k: int|
                        {
                            &&& #[trigger] answers(old(self).fields(), setter@, k)
                            &&& stored_after(
                                old(self).fields()[k].action,
                                old(self).stored()[k],
                                argument@,
                            ) is Err
                        }
                    &&& final(self).stored() == old(self).stored()
                },
            },
    {
        proof {
            use_type_invariant(&*self);
        }
        let mut k: usize = 0;
        while k < self.artifact.fields.len()
            invariant
                k <= self.artifact.fields.len(),
                self.artifact.fields.len() == self.slots.len(),
                forall|j: int| 0 <= j < k ==> (#[trigger] self.fields()[j]).setter != setter@,
            ensures
                k <= self.artifact.fields.len(),
                k < self.artifact.fields.len() ==> answers(self.fields(), setter@, k as int),
                k == self.artifact.fields.len() ==> forall|j: int|
                    0 <= j < k ==> (#[trigger] self.fields()[j]).setter != setter@,
            decreases self.artifact.fields.len() - k,
        {
            assert(self.fields()[k as int] == self.artifact.fields[k as int]@);
            if same_text(self.artifact.fields[k].setter.as_str(), setter) {
                break;
            }
            k += 1;
        }
        if k == self.artifact.fields.len() {
            return Err(CallError::UnknownSetter);
        }
        assert(self.fields()[k as int] == self.artifact.fields[k as int]@);
        let ghost before = self.stored();
        assert(before[k as int] == slot_model(self.slots[k as int]));
        match self.artifact.fields[k].action {
            SetterAction::Assign => {
                self.slots[k] = Some(argument);
                assert(self.stored() =~= before.update(k as int, Some(argument@)));
                Ok(())
            },
            SetterAction::Append => match argument {
                Value::Item(element) => match &mut self.slots[k] {
                    Some(Value::List(items)) => {
                        let ghost old_items = items@.map_values(|s: String| s@);
                        items.push(element);
                        assert(items@.map_values(|s: String| s@) =~= old_items.push(element@));
                        assert(self.stored() =~= before.update(
                            k as int,
                            Some(ValueModel::List(old_items.push(element@))),
                        ));
                        Ok(())
                    },
                    Some(Value::Item(_)) => Err(CallError::Mismatch),
                    None => {
                        let mut items: Vec<String> = Vec::new();
                        items.push(element);
                        assert(items@.map_values(|s: String| s@) =~= seq![element@]);
                        self.slots[k] = Some(Value::List(items));
                        assert(self.stored() =~= before.update(
                            k as int,
                            Some(ValueModel::List(seq![element@])),
                        ));
                        Ok(())
                    },
                },
                Value::List(_) => Err(CallError::Mismatch),
            },
        }
    }

    /// Assembles the record, field by field in order.
    ///
    /// An optional field is copied and stays stored; a sequence and a plain
    /// field are taken. The first plain field that is not set ends the
    /// assembly with its message: the fields after it are left as they were,
    /// and no other missing field is named.
    pub fn build(&mut self) -> (built: Result<Vec<Option<Value>>, String>)
        ensures
            final(self).artifact() == old(self).artifact(),
            old(self).stored().len() == old(self).fields().len(),
            match built {
                Ok(record) => {
                    &&& forall|k: int|
                        0 <= k < old(self).fields().len() ==> yielded(
                            (#[trigger] old(self).fields()[k]).step,
                            old(self).stored()[k],
                        ) is Ok
                    &&& slot_models(record) == assembled(old(self).fields(), old(self).stored())
                    &&& final(self).stored() == stored_past(
                        old(self).fields(),
                        old(self).stored(),
                        old(self).fields().len() as int,
                    )
                },
                Err(message) => exists|k: int|
                    {
                        &&& #[trigger] first_failure(old(self).fields(), old(self).stored(), k)
                        &&& yielded(old(self).fields()[k].step, old(self).stored()[k]) == Err::<
                            Option<ValueModel>,
                            Seq<char>,
                        >(message@)
                        &&& final(self).stored() == stored_past(
                            old(self).fields(),
                            old(self).stored(),
                            k,
                        )
                    },
            },
    {
        proof {
            use_type_invariant(&*self);
        }
        let ghost fields = self.fields();
        let ghost before = self.stored();
        let mut record: Vec<Option<Value>> = Vec::new();
        let mut i: usize = 0;
        assert(self.stored() =~= stored_past(fields, before, 0));
        while i < self.artifact.fields.len()
            invariant
                i <= self.artifact.fields.len(),
                self.artifact.fields.len() == self.slots.len(),
                self.artifact() == old(self).artifact(),
                self.fields() == fields,
                fields == old(self).fields(),
                before == old(self).stored(),
                before.len() == fields.len() == self.slots.len(),
                self.stored() == stored_past(fields, before, i as int),
                record.len() == i,
                forall|j: int| 0 <= j < i ==> yielded((#[trigger] fields[j]).step, before[j]) is Ok,
                forall|j: int|
                    0 <= j < i ==> slot_model(#[trigger] record[j]) == yielded(
                        fields[j].step,
                        before[j],
                    )->Ok_0,
            decreases self.artifact.fields.len() - i,
        {
            let ghost stored = self.stored();
            let ghost slots = self.slots@;
            assert(fields[i as int] == self.artifact.fields[i as int]@);
            assert(stored[i as int] == slot_model(self.slots[i as int]));
            assert(stored[i as int] == before[i as int]);
            match &self.artifact.fields[i].step {
                BuildStep::Copy => {
                    let copy = match &self.slots[i] {
                        Some(value) => Some(value.duplicate()),
                        None => None,
                    };
                    record.push(copy);
                },
                BuildStep::TakeOrEmpty => {
                    let value = match self.slots[i].take() {
                        Some(value) => value,
                        None => {
                            let empty: Vec<String> = Vec::new();
                            assert(empty@.map_values(|s: String| s@) =~= Seq::<Seq<char>>::empty());
                            Value::List(empty)
                        },
                    };
                    record.push(Some(value));
                },
                BuildStep::Require(message) => {
                    match self.slots[i].take() {
                        Some(value) => {
                            record.push(Some(value));
                        },
                        None => {
                            assert(self.stored() =~= stored_past(fields, before, i as int));
                            assert(first_failure(fields, before, i as int));
                            return Err(message.clone());
                        },
                    }
                },
            }
            assert forall|j: int| 0 <= j < self.slots.len() implies self.stored()[j] == stored_past(
                fields,
                before,
                i + 1,
            )[j] by {
                if j != i {
                    assert(self.slots@[j] == slots[j]);
                    assert(stored[j] == slot_model(slots[j]));
                }
            }
            assert(self.stored() =~= stored_past(fields, before, i + 1));
            i += 1;
        }
        assert(slot_models(record) =~= assembled(fields, before));
        Ok(record)
    }
}

} // verus!
