use vstd::prelude::*;

verus! {

/// Every way a command can fail.
#[derive(Debug, Clone, PartialEq, Eq)]
pub enum AicomError {
    /// The settings record could not be read or written.
    Config { detail: String },
    /// `generate` was asked for while no API key is stored.
    MissingApiKey,
    /// The version-control executable could not be run or its output captured.
    Process { detail: String },
    /// The version-control executable printed bytes that are not UTF-8.
    Encoding { detail: String },
    /// The remote service could not be reached or its reply not read.
    Transport { detail: String },
    /// The remote service answered with a status outside 200..=299.
    Api { status: u16, body: String },
    /// The remote service answered without any candidate text.
    Extraction,
}

} // verus!
