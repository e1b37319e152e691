//! The result of one generation call, and the fatal conditions that end
//! a negotiation session.

use vstd::prelude::*;

verus! {

/// What one call of the generation service produced, classified.
#[derive(Debug, PartialEq, Eq)]
pub enum GenerationOutcome {
    /// A usable candidate message: trimmed, every wrapping quote
    /// character stripped, not empty.
    Message(String),
    /// The service could not be reached at all.
    TransportFailure,
    /// The service reported that the prompt exceeded its capacity;
    /// recoverable by retrying with a condensed change summary.
    /// Carries the service's own error text.
    Oversized(String),
    /// The service reported some other error; carries its text.
    ServiceReported(String),
    /// The service answered without an error but with no usable text.
    EmptyResult,
}

/// The mathematical shape of a `GenerationOutcome`.
pub enum OutcomeModel {
    Message(Seq<char>),
    TransportFailure,
    Oversized(Seq<char>),
    ServiceReported(Seq<char>),
    EmptyResult,
}

impl View for GenerationOutcome {
    type V = OutcomeModel;

    open spec fn view(&self) -> OutcomeModel {
        match self {
            GenerationOutcome::Message(m) => OutcomeModel::Message(m@),
            GenerationOutcome::TransportFailure => OutcomeModel::TransportFailure,
            GenerationOutcome::Oversized(e) => OutcomeModel::Oversized(e@),
            GenerationOutcome::ServiceReported(e) => OutcomeModel::ServiceReported(e@),
            GenerationOutcome::EmptyResult => OutcomeModel::EmptyResult,
        }
    }
}

/// A condition that ends the whole session with a failure status.
#[derive(Debug, PartialEq, Eq)]
pub enum FatalError {
    /// No credential for the generation service was supplied.
    CredentialMissing,
    /// The generation service could not be reached.
    TransportFailure,
    /// The generation service reported an error; carries its text.
    ServiceReported(String),
    /// The generation service returned no usable text.
    EmptyResult,
    /// The operator's edited replacement was empty after trimming.
    EmptyOperatorInput,
    /// The staged change set holds nothing but whitespace.
    NothingStaged,
}

/// The mathematical shape of a `FatalError`.
pub enum FatalModel {
    CredentialMissing,
    TransportFailure,
    ServiceReported(Seq<char>),
    EmptyResult,
    EmptyOperatorInput,
    NothingStaged,
}

impl View for FatalError {
    type V = FatalModel;

    open spec fn view(&self) -> FatalModel {
        match self {
            FatalError::CredentialMissing => FatalModel::CredentialMissing,
            FatalError::TransportFailure => FatalModel::TransportFailure,
            FatalError::ServiceReported(e) => FatalModel::ServiceReported(e@),
            FatalError::EmptyResult => FatalModel::EmptyResult,
            FatalError::EmptyOperatorInput => FatalModel::EmptyOperatorInput,
            FatalError::NothingStaged => FatalModel::NothingStaged,
        }
    }
}

/// The diagnostic text each fatal condition is reported with.
pub open spec fn fatal_message_spec(e: FatalModel) -> Seq<char> {
    match e {
        FatalModel::CredentialMissing => "This program requires an OpenAI API key to run. Please set the OPENAI_API_KEY environment variable."@,
        FatalModel::TransportFailure => "Failed to get a response. Have you set the OPENAI_API_KEY variable?"@,
        FatalModel::ServiceReported(t) => t,
        FatalModel::EmptyResult => "Nothing returned from GPT-3."@,
        FatalModel::EmptyOperatorInput => "Commit message cannot be empty."@,
        FatalModel::NothingStaged => "Nothing to commit. Did you stage your changes with \"git add\"?"@,
    }
}

impl FatalError {
    /// The diagnostic text to surface for this condition.
    pub fn message(&self) -> (r: String)
        ensures
            r@ == fatal_message_spec(self@),
    {
        match self {
            FatalError::CredentialMissing => String::from_str(
                "This program requires an OpenAI API key to run. Please set the OPENAI_API_KEY environment variable.",
            ),
            FatalError::TransportFailure => String::from_str(
                "Failed to get a response. Have you set the OPENAI_API_KEY variable?",
            ),
            FatalError::ServiceReported(t) => t.clone(),
            FatalError::EmptyResult => String::from_str("Nothing returned from GPT-3."),
            FatalError::EmptyOperatorInput => String::from_str("Commit message cannot be empty."),
            FatalError::NothingStaged => String::from_str(
                "Nothing to commit. Did you stage your changes with \"git add\"?",
            ),
        }
    }
}

/// The final outcome of a generation cycle, seen by the approval loop:
/// either a candidate message or the fatal condition to surface.
/// Every non-message outcome is fatal once the retry protocol is done;
/// a final oversize answer surfaces its service text like any other
/// service-reported error.
pub fn fatal_of_outcome(o: GenerationOutcome) -> (r: Result<String, FatalError>)
    ensures
        match o@ {
            OutcomeModel::Message(m) => r matches Ok(s) && s@ == m,
            OutcomeModel::TransportFailure => r matches Err(e) && e@ == FatalModel::TransportFailure,
            OutcomeModel::Oversized(t) => r matches Err(e) && e@ == FatalModel::ServiceReported(t),
            OutcomeModel::ServiceReported(t) => r matches Err(e) && e@ == FatalModel::ServiceReported(
                t,
            ),
            OutcomeModel::EmptyResult => r matches Err(e) && e@ == FatalModel::EmptyResult,
        },
{
    match o {
        GenerationOutcome::Message(m) => Ok(m),
        GenerationOutcome::TransportFailure => Err(FatalError::TransportFailure),
        GenerationOutcome::Oversized(t) => Err(FatalError::ServiceReported(t)),
        GenerationOutcome::ServiceReported(t) => Err(FatalError::ServiceReported(t)),
        GenerationOutcome::EmptyResult => Err(FatalError::EmptyResult),
    }
}

} // verus!
