//! The conditions that end a command without its result.

use vstd::prelude::*;
use vstd::string::*;
use crate::text::{decimal, decimal_text, join, joined, lemma_joined_holds_each, lemma_occurs_in_extended, lemma_occurs_in_itself, occurs_in};

verus! {

/// Why a command ended without its result. Each of these ends the command at
/// once: nothing is tried again, and nothing is replaced by a default.
#[derive(Clone, Debug, PartialEq, Eq)]
pub enum WorkflowError {
    /// The location search matched nothing.
    NoLocationFound { query: String },
    /// The location search matched more locations than are offered for
    /// choice.
    AmbiguityOverflow { found: usize },
    /// The provider to configure is not one that the service offers.
    UnknownProvider { provider: String, valid: Vec<String> },
    /// A forecast was asked for before any provider was configured.
    ProviderNotConfigured,
    /// A call to the weather service failed.
    RemoteCallFailed { cause: String },
    /// The configuration could not be written.
    ConfigPersistFailed { cause: String },
}

/// The message that describes an error to the user.
pub open spec fn message_text(error: WorkflowError) -> Seq<char> {
    match error {
        WorkflowError::NoLocationFound { query } => "No location matches the query '"@ + query@
            + "'. Change the query and try again."@,
        WorkflowError::AmbiguityOverflow { found } => "The query matches "@ + decimal_text(
            found as nat,
        ) + " locations, too many to choose from. Make the query more specific."@,
        WorkflowError::UnknownProvider { provider, valid } => "Unknown weather provider '"@
            + provider@ + "'. Available providers: "@ + joined(valid@, ", "@),
        WorkflowError::ProviderNotConfigured =>
            "No weather provider is configured. Run the 'configure' command first."@,
        WorkflowError::RemoteCallFailed { cause } => "The weather service failed: "@ + cause@,
        WorkflowError::ConfigPersistFailed { cause } => "The configuration was not saved: "@
            + cause@,
    }
}

impl WorkflowError {
    /// The message that describes this error to the user.
    pub fn message(&self) -> (text: String)
        ensures
            text@ == message_text(*self),
    {
        match self {
            WorkflowError::NoLocationFound { query } => {
                let mut text = String::from_str("No location matches the query '");
                text.append(query.as_str());
                text.append("'. Change the query and try again.");
                text
            },
            WorkflowError::AmbiguityOverflow { found } => {
                let mut text = String::from_str("The query matches ");
                text.append(decimal(*found).as_str());
                text.append(" locations, too many to choose from. Make the query more specific.");
                text
            },
            WorkflowError::UnknownProvider { provider, valid } => {
                let mut text = String::from_str("Unknown weather provider '");
                text.append(provider.as_str());
                text.append("'. Available providers: ");
                text.append(join(valid, ", ").as_str());
                text
            },
            WorkflowError::ProviderNotConfigured => String::from_str(
                "No weather provider is configured. Run the 'configure' command first.",
            ),
            WorkflowError::RemoteCallFailed { cause } => {
                let mut text = String::from_str("The weather service failed: ");
                text.append(cause.as_str());
                text
            },
            WorkflowError::ConfigPersistFailed { cause } => {
                let mut text = String::from_str("The configuration was not saved: ");
                text.append(cause.as_str());
                text
            },
        }
    }
}

/// The message for an unknown provider names every provider that the service
/// offers.
pub proof fn lemma_message_names_valid_providers(provider: String, valid: Vec<String>, i: int)
    requires
        0 <= i < valid@.len(),
    ensures
        occurs_in(valid@[i]@, message_text(WorkflowError::UnknownProvider { provider, valid })),
{
    let front = "Unknown weather provider '"@ + provider@ + "'. Available providers: "@;
    let list = joined(valid@, ", "@);
    lemma_joined_holds_each(valid@, ", "@, i);
    lemma_occurs_in_extended(valid@[i]@, list, front, Seq::empty());
    assert(front + list + Seq::<char>::empty() =~= message_text(
        WorkflowError::UnknownProvider { provider, valid },
    ));
}

/// The message for a failed call holds the cause as it was reported.
pub proof fn lemma_message_holds_cause(cause: String)
    ensures
        occurs_in(cause@, message_text(WorkflowError::RemoteCallFailed { cause })),
{
    lemma_occurs_in_itself(cause@);
    lemma_occurs_in_extended(cause@, cause@, "The weather service failed: "@, Seq::empty());
    assert("The weather service failed: "@ + cause@ + Seq::<char>::empty() =~= message_text(
        WorkflowError::RemoteCallFailed { cause },
    ));
}

} // verus!
