//! Plans a builder type for a record: classifies the shape of each field,
//! validates the `each` annotations, and synthesizes the description of the
//! companion builder together with the meaning of its setters and of `build`.

use vstd::prelude::*;
use crate::descriptor::{RecordDescriptor, RecordModel};
use crate::synth::{artifact_of, plan_fields, plans_from, synthesize, ArtifactModel, GeneratedArtifact};
use crate::validate::{
    admissible_all, collect_errors, error_models, errors_from, outcome_models, validate_fields,
    Outcome, OutcomeModel, ValidationError, ValidationErrorModel,
};

pub mod descriptor;
pub mod shape;
pub mod annotation;
pub mod validate;
pub mod synth;
pub mod instance;
pub mod laws;

verus! {

/// What generating gives in contracts: the builder, or the errors.
pub type OutputModel = Result<ArtifactModel, Seq<ValidationErrorModel>>;

/// The model of what generating gives.
pub open spec fn output_model(output: Result<GeneratedArtifact, Vec<ValidationError>>) -> OutputModel {
    match output {
        Ok(artifact) => Ok(artifact@),
        Err(errors) => Err(error_models(errors)),
    }
}

/// What is generated for a record whose fields have the given outcomes.
///
/// Where a sequence field has an error, all such errors come out together,
/// in field order, and no builder. Otherwise the builder comes out.
pub open spec fn derive_from(record: RecordModel, outcomes: Seq<OutcomeModel>) -> OutputModel {
    let errors = errors_from(record.fields, outcomes);
    if errors.len() > 0 {
        Err(errors)
    } else {
        Ok(artifact_of(record.name, plans_from(record.fields, outcomes)))
    }
}

/// Generates the builder of a record from the outcomes of validating its
/// fields, one outcome for each field in order.
pub fn generate(input: &RecordDescriptor, outcomes: &Vec<Outcome>) -> (output: Result<
    GeneratedArtifact,
    Vec<ValidationError>,
>)
    ensures
        output_model(output) == derive_from(input@, outcome_models(*outcomes)),
{
    let errors = collect_errors(input, outcomes);
    if errors.len() > 0 {
        return Err(errors);
    }
    Ok(synthesize(input, plan_fields(input, outcomes)))
}

/// Generates the builder of a record.
///
/// Every field is validated once, and the record is then generated from
/// the outcomes: either no sequence field has an error, and the builder
/// comes out; or all the errors come out together, in field order, with no
/// builder.
pub fn derive(input: &RecordDescriptor) -> (output: Result<GeneratedArtifact, Vec<ValidationError>>)
    ensures
        exists|outcomes: Seq<OutcomeModel>|
            #[trigger] admissible_all(input@.fields, outcomes) && output_model(output)
                == derive_from(input@, outcomes),
{
    let outcomes = validate_fields(input);
    generate(input, &outcomes)
}

} // verus!
