use vstd::prelude::*;

use crate::cli_config::CliConfig;
use crate::error::AicomError;
use crate::prompt::{build_prompt, prompt_of};

verus! {

/// The two commands of the tool.
#[derive(Debug, Clone, PartialEq, Eq)]
pub enum CliCommand {
    /// Store `token` as the API key and probe it.
    Login { token: String },
    /// Suggest a message for the staged changes.
    Generate,
}

/// What `login` reports once the key is stored.
#[derive(Debug, Clone, Copy, PartialEq, Eq)]
pub enum LoginStatus {
    /// The probe was answered with success.
    Valid,
    /// The key is stored, but the probe did not succeed.
    Invalid,
}

/// Stores `token` as the API key, replacing any earlier one.
pub fn apply_login(config: &mut CliConfig, token: &String)
    ensures
        final(config).gemini_api_key == Some(*token),
{
    config.gemini_api_key = Some(token.clone());
}

/// The status `login` reports for a probe verdict.
pub fn login_status(valid: bool) -> (r: LoginStatus)
    ensures
        r == (if valid { LoginStatus::Valid } else { LoginStatus::Invalid }),
{
    if valid {
        LoginStatus::Valid
    } else {
        LoginStatus::Invalid
    }
}

/// Where a `generate` run stands.
#[derive(Debug, Clone, PartialEq, Eq)]
pub enum Stage {
    /// Waiting for the staged diff.
    AwaitingDiff,
    /// Waiting for the recent history; the diff is in hand.
    AwaitingLog { diff: String },
    /// Waiting for the model's message.
    AwaitingMessage,
    /// Nothing more to do.
    Finished,
}

/// What the caller has to do next for a `generate` run.
#[derive(Debug, Clone, PartialEq, Eq)]
pub enum GenerateAction {
    /// Capture the staged diff as text.
    CollectDiff,
    /// Capture the recent commit history as text.
    CollectLog,
    /// Ask the model to answer `prompt`, authenticated with `api_key`.
    RequestMessage { prompt: String, api_key: String },
    /// Show the suggested message; the run succeeded.
    Print { message: String },
    /// Stop with `error`; the run failed.
    Fail { error: AicomError },
}

/// A `generate` run: its stage and the key it was started with.
#[derive(Debug, Clone, PartialEq, Eq)]
pub struct GenerateSession {
    pub stage: Stage,
    pub api_key: String,
}

/// An action after which the run is over.
pub open spec fn is_terminal(a: GenerateAction) -> bool {
    a is Print || a is Fail
}

impl GenerateSession {
    /// Whether the run is over.
    pub fn is_finished(&self) -> (r: bool)
        ensures
            r == (self.stage is Finished),
    {
        match self.stage {
            Stage::Finished => true,
            _ => false,
        }
    }

    /// Starts a run. Without a stored key it fails at once, before anything
    /// is collected or sent.
    pub fn begin(config: &CliConfig) -> (r: (GenerateSession, GenerateAction))
        ensures
            is_terminal(r.1) <==> r.0.stage is Finished,
            config.gemini_api_key is None ==> r.1 == (GenerateAction::Fail {
                error: AicomError::MissingApiKey,
            }),
            config.gemini_api_key is Some ==> {
                &&& r.1 == GenerateAction::CollectDiff
                &&& r.0.stage == Stage::AwaitingDiff
                &&& r.0.api_key == config.gemini_api_key->0
            },
    {
        match &config.gemini_api_key {
            Some(key) => (
                GenerateSession { stage: Stage::AwaitingDiff, api_key: key.clone() },
                GenerateAction::CollectDiff,
            ),
            None => (
                GenerateSession { stage: Stage::Finished, api_key: String::new() },
                GenerateAction::Fail { error: AicomError::MissingApiKey },
            ),
        }
    }

    /// Advances the run by the outcome of the action it last asked for. An
    /// error ends the run with that error; otherwise the diff, the history
    /// and the message come in that order, and the message is printed.
    pub fn step(self, outcome: Result<String, AicomError>) -> (r: (GenerateSession, GenerateAction))
        requires
            !(self.stage is Finished),
        ensures
            is_terminal(r.1) <==> r.0.stage is Finished,
            r.0.api_key == self.api_key,
            outcome is Err ==> r.1 == (GenerateAction::Fail { error: outcome->Err_0 }),
            outcome is Ok ==> match self.stage {
                Stage::AwaitingDiff => {
                    &&& r.0.stage == (Stage::AwaitingLog { diff: outcome->Ok_0 })
                    &&& r.1 == GenerateAction::CollectLog
                },
                Stage::AwaitingLog { diff } => {
                    &&& r.0.stage == Stage::AwaitingMessage
                    &&& r.1 is RequestMessage
                    &&& r.1->RequestMessage_prompt@ == prompt_of(outcome->Ok_0@, diff@)
                    &&& r.1->RequestMessage_api_key == self.api_key
                },
                Stage::AwaitingMessage => r.1 == (GenerateAction::Print { message: outcome->Ok_0 }),
                Stage::Finished => true,
            },
    {
        let api_key = self.api_key;
        match outcome {
            Err(error) => (
                GenerateSession { stage: Stage::Finished, api_key },
                GenerateAction::Fail { error },
            ),
            Ok(text) => match self.stage {
                Stage::AwaitingDiff => (
                    GenerateSession { stage: Stage::AwaitingLog { diff: text }, api_key },
                    GenerateAction::CollectLog,
                ),
                Stage::AwaitingLog { diff } => {
                    let prompt = build_prompt(text.as_str(), diff.as_str());
                    let key = api_key.clone();
                    (
                        GenerateSession { stage: Stage::AwaitingMessage, api_key },
                        GenerateAction::RequestMessage { prompt, api_key: key },
                    )
                },
                _ => (
                    GenerateSession { stage: Stage::Finished, api_key },
                    GenerateAction::Print { message: text },
                ),
            },
        }
    }
}

} // verus!
