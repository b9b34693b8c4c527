//! What can go wrong, what is logged for it, and whether the process
//! survives it.

use vstd::prelude::*;
use vstd::string::StringExecFns;

verus! {

/// A failure met at startup, on the connection, or while handling one event.
/// Each `detail` is the description that the failing operation gave.
#[derive(Clone, Debug, PartialEq, Eq)]
pub enum Failure {
    /// No usable credential was found in the environment.
    CredentialNotSet,
    /// The gateway client could not be constructed.
    ClientConstruction { detail: String },
    /// The client's run loop ended with an error.
    ClientRun { detail: String },
    /// A reply to one message could not be sent.
    ReplySend { detail: String },
}

/// The mathematical value of a [`Failure`].
pub enum FailureModel {
    CredentialNotSet,
    ClientConstruction { detail: Seq<char> },
    ClientRun { detail: Seq<char> },
    ReplySend { detail: Seq<char> },
}

impl View for Failure {
    type V = FailureModel;

    open spec fn view(&self) -> FailureModel {
        match *self {
            Failure::CredentialNotSet => FailureModel::CredentialNotSet,
            Failure::ClientConstruction { detail } => FailureModel::ClientConstruction {
                detail: detail@,
            },
            Failure::ClientRun { detail } => FailureModel::ClientRun { detail: detail@ },
            Failure::ReplySend { detail } => FailureModel::ReplySend { detail: detail@ },
        }
    }
}

impl FailureModel {
    /// Whether the process ends once this failure is logged. Only a reply
    /// that could not be sent is survived.
    pub open spec fn is_fatal(self) -> bool {
        !(self is ReplySend)
    }

    /// The line logged for this failure.
    pub open spec fn log_line(self) -> Seq<char> {
        match self {
            FailureModel::CredentialNotSet =>
                "Error: DISCORD_TOKEN environment variable not set."@,
            FailureModel::ClientConstruction { detail } => "Error creating client: "@ + detail,
            FailureModel::ClientRun { detail } => "Client error: "@ + detail,
            FailureModel::ReplySend { detail } => "Error sending message: "@ + detail,
        }
    }
}

impl Failure {
    /// Whether the process ends once this failure is logged.
    pub fn is_fatal(&self) -> (fatal: bool)
        ensures
            fatal == self@.is_fatal(),
    {
        match self {
            Failure::ReplySend { .. } => false,
            _ => true,
        }
    }

    /// The line to log for this failure.
    pub fn log_line(&self) -> (line: String)
        ensures
            line@ == self@.log_line(),
    {
        match self {
            Failure::CredentialNotSet => String::from_str(
                "Error: DISCORD_TOKEN environment variable not set.",
            ),
            Failure::ClientConstruction { detail } => String::from_str(
                "Error creating client: ",
            ).concat(detail.as_str()),
            Failure::ClientRun { detail } => String::from_str("Client error: ").concat(
                detail.as_str(),
            ),
            Failure::ReplySend { detail } => String::from_str("Error sending message: ").concat(
                detail.as_str(),
            ),
        }
    }
}

} // verus!
