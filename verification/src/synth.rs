//! The plan of a builder, field by field, and the builder that is
//! synthesized from it.

use vstd::prelude::*;
use vstd::string::StringExecFns;
use crate::descriptor::{FieldDescriptor, FieldModel, RecordDescriptor, TypeExpression, TypeModel};
use crate::shape::{classify, classify_spec, optional_of, ShapeModel, TypeShape};
use crate::validate::{
    outcome_at, outcome_model, outcome_models, Outcome, OutcomeModel, ParsedEachAnnotation,
};

verus! {

/// How the one setter of a field stores what it is given.
#[derive(Clone, Debug, PartialEq, Eq)]
pub enum SetterStrategy {
    /// Takes the declared type and replaces what is stored.
    Bulk,
    /// Takes one element and appends it; the setter bears the given name.
    ElementAppend(String),
    /// Takes the type inside an optional and replaces what is stored.
    BulkOptional,
}

/// What a [`SetterStrategy`] is in contracts.
pub enum StrategyModel {
    Bulk,
    ElementAppend(Seq<char>),
    BulkOptional,
}

impl View for SetterStrategy {
    type V = StrategyModel;

    open spec fn view(&self) -> StrategyModel {
        match *self {
            SetterStrategy::Bulk => StrategyModel::Bulk,
            SetterStrategy::ElementAppend(name) => StrategyModel::ElementAppend(name@),
            SetterStrategy::BulkOptional => StrategyModel::BulkOptional,
        }
    }
}

/// What was decided for one field: how it is stored and how it is set.
#[derive(Debug, PartialEq, Eq)]
pub struct BuilderPlan {
    pub name: String,
    pub shape: TypeShape,
    pub stored_as: TypeExpression,
    pub setter_strategy: SetterStrategy,
}

/// What a [`BuilderPlan`] is in contracts.
pub struct PlanModel {
    pub name: Seq<char>,
    pub shape: ShapeModel,
    pub stored_as: TypeModel,
    pub setter_strategy: StrategyModel,
}

impl View for BuilderPlan {
    type V = PlanModel;

    open spec fn view(&self) -> PlanModel {
        PlanModel {
            name: self.name@,
            shape: self.shape@,
            stored_as: self.stored_as@,
            setter_strategy: self.setter_strategy@,
        }
    }
}

/// The type a field is stored as. It is optional whatever the shape, and an
/// optional field is not wrapped a second time.
pub open spec fn stored_type(shape: ShapeModel) -> TypeModel {
    match shape {
        ShapeModel::Optional(inner) => optional_of(inner),
        _ => optional_of(shape.declared()),
    }
}

/// The strategy for a field of the given shape and `each` annotation. The
/// annotation counts on a sequence only.
pub open spec fn strategy_for(shape: ShapeModel, each: Option<Seq<char>>) -> StrategyModel {
    match shape {
        ShapeModel::Optional(_) => StrategyModel::BulkOptional,
        ShapeModel::Sequence(_) => match each {
            Some(name) => StrategyModel::ElementAppend(name),
            None => StrategyModel::Bulk,
        },
        ShapeModel::Plain(_) => StrategyModel::Bulk,
    }
}

/// The plan of a field with the given name, shape and annotation.
pub open spec fn plan_for(name: Seq<char>, shape: ShapeModel, each: Option<Seq<char>>) -> PlanModel {
    PlanModel {
        name,
        shape,
        stored_as: stored_type(shape),
        setter_strategy: strategy_for(shape, each),
    }
}

/// The plan of a field with the given name, declared type and annotation.
pub open spec fn plan_spec(name: Seq<char>, ty: TypeModel, each: Option<Seq<char>>) -> PlanModel {
    plan_for(name, classify_spec(ty), each)
}

/// The model of an optional `each` annotation.
pub open spec fn each_model(each: Option<ParsedEachAnnotation>) -> Option<Seq<char>> {
    match each {
        Some(e) => Some(e.element_setter_name@),
        None => None,
    }
}

/// The element setter's name that an outcome gives: none where the field
/// is not annotated, and none where the annotation is refused.
pub open spec fn each_of(outcome: OutcomeModel) -> Option<Seq<char>> {
    match outcome {
        Ok(each) => each,
        Err(_) => None,
    }
}

/// The plans of a sequence of fields with the given outcomes.
pub open spec fn plans_from(fields: Seq<FieldModel>, outcomes: Seq<OutcomeModel>) -> Seq<
    PlanModel,
> {
    Seq::new(
        fields.len(),
        |i: int| plan_spec(fields[i].name, fields[i].ty, each_of(outcome_at(outcomes, i))),
    )
}

impl PlanModel {
    /// The storage and the strategy fit the shape.
    pub open spec fn consistent(self) -> bool {
        &&& self.stored_as == stored_type(self.shape)
        &&& self.setter_strategy is BulkOptional <==> self.shape is Optional
        &&& self.setter_strategy is ElementAppend ==> self.shape is Sequence
    }
}

/// What a setter does with its argument.
#[derive(Clone, Copy, Debug, PartialEq, Eq)]
pub enum SetterAction {
    /// Stores the argument in place of what was stored.
    Assign,
    /// Appends the argument to the stored sequence, which is first made
    /// empty where nothing was stored.
    Append,
}

/// What `build` does with one field.
#[derive(Clone, Debug, PartialEq, Eq)]
pub enum BuildStep {
    /// Hands out a copy of what is stored, absent or not, and leaves it.
    Copy,
    /// Takes the stored sequence, or an empty one where nothing is stored.
    TakeOrEmpty,
    /// Takes the stored value, or fails with the message where nothing is
    /// stored.
    Require(String),
}

/// What a [`BuildStep`] is in contracts.
pub enum StepModel {
    Copy,
    TakeOrEmpty,
    Require(Seq<char>),
}

impl View for BuildStep {
    type V = StepModel;

    open spec fn view(&self) -> StepModel {
        match *self {
            BuildStep::Copy => StepModel::Copy,
            BuildStep::TakeOrEmpty => StepModel::TakeOrEmpty,
            BuildStep::Require(message) => StepModel::Require(message@),
        }
    }
}

/// One field of the builder: its storage, its one setter, and its part in
/// `build`.
#[derive(Debug, PartialEq, Eq)]
pub struct BuilderField {
    /// The name of the field, in the record and in the builder.
    pub name: String,
    /// The type the builder stores the field as.
    pub storage: TypeExpression,
    /// The name of the setter.
    pub setter: String,
    /// The type of the setter's argument.
    pub parameter: TypeExpression,
    /// What the setter does.
    pub action: SetterAction,
    /// What `build` does with the field.
    pub step: BuildStep,
}

/// What a [`BuilderField`] is in contracts.
pub struct BuilderFieldModel {
    pub name: Seq<char>,
    pub storage: TypeModel,
    pub setter: Seq<char>,
    pub parameter: TypeModel,
    pub action: SetterAction,
    pub step: StepModel,
}

impl View for BuilderField {
    type V = BuilderFieldModel;

    open spec fn view(&self) -> BuilderFieldModel {
        BuilderFieldModel {
            name: self.name@,
            storage: self.storage@,
            setter: self.setter@,
            parameter: self.parameter@,
            action: self.action,
            step: self.step@,
        }
    }
}

/// The companion type that is generated for a record. A fresh builder, made
/// by the constructor, stores nothing for any field.
#[derive(Debug, PartialEq, Eq)]
pub struct GeneratedArtifact {
    /// The name of the record.
    pub record_name: String,
    /// The name of the builder type.
    pub builder_name: String,
    /// The name of the function of the record type that makes a fresh
    /// builder.
    pub constructor: String,
    /// The name of the method that assembles the record.
    pub assembler: String,
    /// The fields of the builder, in the order of the record's fields.
    pub fields: Vec<BuilderField>,
}

/// What a [`GeneratedArtifact`] is in contracts.
pub struct ArtifactModel {
    pub record_name: Seq<char>,
    pub builder_name: Seq<char>,
    pub constructor: Seq<char>,
    pub assembler: Seq<char>,
    pub fields: Seq<BuilderFieldModel>,
}

impl View for GeneratedArtifact {
    type V = ArtifactModel;

    open spec fn view(&self) -> ArtifactModel {
        ArtifactModel {
            record_name: self.record_name@,
            builder_name: self.builder_name@,
            constructor: self.constructor@,
            assembler: self.assembler@,
            fields: self.fields@.map_values(|f: BuilderField| f@),
        }
    }
}

/// The message of a `build` that finds the field `name` unset.
pub open spec fn missing_message(name: Seq<char>) -> Seq<char> {
    "Field '"@ + name + "' is not set"@
}

/// The builder's field for a plan.
pub open spec fn field_of(plan: PlanModel) -> BuilderFieldModel {
    BuilderFieldModel {
        name: plan.name,
        storage: plan.stored_as,
        setter: match plan.setter_strategy {
            StrategyModel::ElementAppend(name) => name,
            _ => plan.name,
        },
        parameter: match plan.setter_strategy {
            StrategyModel::Bulk => plan.shape.declared(),
            _ => plan.shape.inner(),
        },
        action: match plan.setter_strategy {
            StrategyModel::ElementAppend(_) => SetterAction::Append,
            _ => SetterAction::Assign,
        },
        step: match plan.shape {
            ShapeModel::Optional(_) => StepModel::Copy,
            ShapeModel::Sequence(_) => StepModel::TakeOrEmpty,
            ShapeModel::Plain(_) => StepModel::Require(missing_message(plan.name)),
        },
    }
}

/// The builder for a record of the given name and plans.
pub open spec fn artifact_of(record_name: Seq<char>, plans: Seq<PlanModel>) -> ArtifactModel {
    ArtifactModel {
        record_name,
        builder_name: record_name + "Builder"@,
        constructor: "builder"@,
        assembler: "build"@,
        fields: plans.map_values(|p: PlanModel| field_of(p)),
    }
}

/// The models of a vector of plans.
pub open spec fn plan_models(plans: Vec<BuilderPlan>) -> Seq<PlanModel> {
    plans@.map_values(|p: BuilderPlan| p@)
}

/// Plans one field from its shape and its valid annotation, if any.
pub fn plan_field(field: &FieldDescriptor, shape: TypeShape, each: Option<ParsedEachAnnotation>) -> (plan:
    BuilderPlan)
    ensures
        plan@ == plan_for(field@.name, shape@, each_model(each)),
        plan@.consistent(),
{
    let stored_as = match &shape {
        TypeShape::Optional(inner) => TypeExpression::generic("Option", inner.duplicate()),
        _ => TypeExpression::generic("Option", shape.declared()),
    };
    let setter_strategy = match &shape {
        TypeShape::Optional(_) => SetterStrategy::BulkOptional,
        TypeShape::Sequence(_) => match each {
            Some(e) => SetterStrategy::ElementAppend(e.element_setter_name),
            None => SetterStrategy::Bulk,
        },
        TypeShape::Plain(_) => SetterStrategy::Bulk,
    };
    BuilderPlan { name: field.name.clone(), shape, stored_as, setter_strategy }
}

/// Plans every field of a record from the outcomes of validating its
/// fields. A refused annotation counts as none.
pub fn plan_fields(record: &RecordDescriptor, outcomes: &Vec<Outcome>) -> (plans: Vec<BuilderPlan>)
    ensures
        plan_models(plans) == plans_from(record@.fields, outcome_models(*outcomes)),
        forall|k: int| 0 <= k < plans.len() ==> (#[trigger] plans[k])@.consistent(),
{
    let ghost all = outcome_models(*outcomes);
    let mut plans: Vec<BuilderPlan> = Vec::new();
    let mut i: usize = 0;
    while i < record.fields.len()
        invariant
            i <= record.fields.len(),
            plans.len() == i,
            all == outcome_models(*outcomes),
            forall|k: int|
                0 <= k < i ==> (#[trigger] plans[k])@ == plans_from(record@.fields, all)[k]
                    && plans[k]@.consistent(),
        decreases record.fields.len() - i,
    {
        let field = &record.fields[i];
        assert(record@.fields[i as int] == field@);
        let each = if i < outcomes.len() {
            assert(all[i as int] == outcome_model(outcomes[i as int]));
            match &outcomes[i] {
                Ok(Some(each)) => Some(
                    ParsedEachAnnotation { element_setter_name: each.element_setter_name.clone() },
                ),
                _ => None,
            }
        } else {
            None
        };
        plans.push(plan_field(field, classify(&field.ty), each));
        i += 1;
    }
    assert(plan_models(plans) =~= plans_from(record@.fields, all));
    plans
}

/// Synthesizes the builder's field for one plan.
pub fn synthesize_field(plan: BuilderPlan) -> (field: BuilderField)
    ensures
        field@ == field_of(plan@),
{
    let parameter = match &plan.setter_strategy {
        SetterStrategy::Bulk => plan.shape.declared(),
        _ => plan.shape.inner(),
    };
    let action = match &plan.setter_strategy {
        SetterStrategy::ElementAppend(_) => SetterAction::Append,
        _ => SetterAction::Assign,
    };
    let step = match &plan.shape {
        TypeShape::Optional(_) => BuildStep::Copy,
        TypeShape::Sequence(_) => BuildStep::TakeOrEmpty,
        TypeShape::Plain(_) => {
            let mut message = "Field '".to_owned();
            message.append(plan.name.as_str());
            message.append("' is not set");
            BuildStep::Require(message)
        },
    };
    let setter = match plan.setter_strategy {
        SetterStrategy::ElementAppend(name) => name,
        _ => plan.name.clone(),
    };
    BuilderField { name: plan.name, storage: plan.stored_as, setter, parameter, action, step }
}

/// Synthesizes the builder of a record from the plans of its fields. The
/// builder is named after the record, and its fields follow the plans one
/// for one.
pub fn synthesize(record: &RecordDescriptor, plans: Vec<BuilderPlan>) -> (artifact: GeneratedArtifact)
    ensures
        artifact@ == artifact_of(record@.name, plan_models(plans)),
{
    let ghost source = plans@;
    let ghost all = plan_models(plans);
    let mut fields: Vec<BuilderField> = Vec::new();
    for plan in it: plans
        invariant
            it.seq() == source,
            all == source.map_values(|p: BuilderPlan| p@),
            fields.len() == it.index(),
            forall|k: int| 0 <= k < fields.len() ==> (#[trigger] fields[k])@ == field_of(all[k]),
    {
        fields.push(synthesize_field(plan));
    }
    let artifact = GeneratedArtifact {
        record_name: record.name.clone(),
        builder_name: record.name.clone().concat("Builder"),
        constructor: "builder".to_owned(),
        assembler: "build".to_owned(),
        fields,
    };
    assert(artifact@.fields =~= artifact_of(record@.name, all).fields);
    artifact
}

} // verus!
