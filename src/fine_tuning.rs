use vstd::prelude::*;

use crate::common::{opt_str, Identifiable};

verus! {

/// A fine-tuning job as the service returned it.
#[derive(Clone, Debug)]
pub struct FineTuningJob {
    pub id: String,
    pub created_at: i64,
    pub error: Option<FineTuningError>,
    pub fine_tuned_model: Option<String>,
    pub finished_at: Option<i64>,
    pub hyperparameters: HyperParams,
    pub model: String,
    pub object: String,
    pub organization_id: String,
    pub result_files: Vec<String>,
    pub status: String,
    pub trained_tokens: Option<u32>,
    pub training_file: String,
    pub validation_file: Option<String>,
}

/// A fine-tuning job to create.
#[derive(Clone, Debug)]
pub struct FineTuningJobBuilder {
    model: String,
    training_file: String,
    hyperparameters: HyperParams,
    suffix: Option<String>,
    validation_file: Option<String>,
}

/// What a `FineTuningJobBuilder` holds.
pub struct FineTuningJobBuilderView {
    pub model: Seq<char>,
    pub training_file: Seq<char>,
    pub hyperparameters: HyperParams,
    pub suffix: Option<Seq<char>>,
    pub validation_file: Option<Seq<char>>,
}

impl View for FineTuningJobBuilder {
    type V = FineTuningJobBuilderView;

    closed spec fn view(&self) -> FineTuningJobBuilderView {
        FineTuningJobBuilderView {
            model: self.model@,
            training_file: self.training_file@,
            hyperparameters: self.hyperparameters,
            suffix: opt_str(self.suffix),
            validation_file: opt_str(self.validation_file),
        }
    }
}

impl FineTuningJobBuilder {
    /// A job tuning `model` on `training_file_id`; both are resolved to
    /// their identifiers now. Every hyperparameter is left to the service.
    pub fn new<M: Identifiable, TF: Identifiable>(model: M, training_file_id: TF) -> (r: Self)
        ensures
            r@ == (FineTuningJobBuilderView {
                model: model.identifier(),
                training_file: training_file_id.identifier(),
                hyperparameters: HyperParams {
                    n_epochs: None,
                    batch_size: None,
                    learning_rate_multiplier: None,
                },
                suffix: None,
                validation_file: None,
            }),
    {
        FineTuningJobBuilder {
            model: model.get_identifier(),
            training_file: training_file_id.get_identifier(),
            hyperparameters: HyperParams { n_epochs: None, batch_size: None, learning_rate_multiplier: None },
            suffix: None,
            validation_file: None,
        }
    }

    pub fn with_hyperparams(self, hyper_params: HyperParams) -> (r: Self)
        ensures
            r@ == (FineTuningJobBuilderView { hyperparameters: hyper_params, ..self@ }),
    {
        FineTuningJobBuilder { hyperparameters: hyper_params, ..self }
    }

    pub fn with_suffix(self, suffix: String) -> (r: Self)
        ensures
            r@ == (FineTuningJobBuilderView { suffix: Some(suffix@), ..self@ }),
    {
        FineTuningJobBuilder { suffix: Some(suffix), ..self }
    }

    pub fn with_validation_file(self, validation_file: String) -> (r: Self)
        ensures
            r@ == (FineTuningJobBuilderView { validation_file: Some(validation_file@), ..self@ }),
    {
        FineTuningJobBuilder { validation_file: Some(validation_file), ..self }
    }
}

/// One entry of a job's log.
#[derive(Clone, Debug)]
pub struct FineTuningJobEvent {
    pub id: String,
    pub created_at: i64,
    pub level: String,
    pub message: String,
    pub object: String,
}

/// Why a job failed.
#[derive(Clone, Debug)]
pub struct FineTuningError {
    pub code: String,
    pub message: String,
    pub param: Option<String>,
}

/// The tuning settings; each is left to the service when absent.
#[derive(Clone, Debug)]
pub struct HyperParams {
    pub n_epochs: Option<String>,
    pub batch_size: Option<String>,
    pub learning_rate_multiplier: Option<String>,
}

impl FineTuningJobBuilder {
    pub fn model(&self) -> (r: &String)
        ensures
            r@ == self@.model,
    {
        &self.model
    }

    pub fn training_file(&self) -> (r: &String)
        ensures
            r@ == self@.training_file,
    {
        &self.training_file
    }

    pub fn hyperparameters(&self) -> (r: &HyperParams)
        ensures
            *r == self@.hyperparameters,
    {
        &self.hyperparameters
    }

    pub fn suffix(&self) -> (r: &Option<String>)
        ensures
            opt_str(*r) == self@.suffix,
    {
        &self.suffix
    }

    pub fn validation_file(&self) -> (r: &Option<String>)
        ensures
            opt_str(*r) == self@.validation_file,
    {
        &self.validation_file
    }
}

} // verus!
