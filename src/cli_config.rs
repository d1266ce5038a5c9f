use vstd::prelude::*;

verus! {

/// Name under which the settings record is stored.
pub const APP_NAME: &'static str = "aicom";

/// The persisted settings: the API key, once `login` has stored one.
#[derive(Debug, Clone, PartialEq, Eq, Default)]
pub struct CliConfig {
    pub gemini_api_key: Option<String>,
}

} // verus!
