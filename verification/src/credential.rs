//! The bot's credential, and the decision taken at startup on what the
//! environment held for it.

use crate::failure::{Failure, FailureModel};
use crate::intents::Intents;
use vstd::prelude::*;

verus! {

/// The value looked up in the environment, as far as it can serve as a
/// credential: a value that is there and is not empty.
pub open spec fn usable(lookup: Option<Seq<char>>) -> bool {
    lookup matches Some(value) && value.len() > 0
}

/// The view of what an environment lookup returned.
pub open spec fn lookup_view(lookup: Option<String>) -> Option<Seq<char>> {
    match lookup {
        Some(value) => Some(value@),
        None => None,
    }
}

/// The token that authenticates the bot. It is never empty.
pub struct Credential {
    token: String,
}

impl View for Credential {
    type V = Seq<char>;

    closed spec fn view(&self) -> Seq<char> {
        self.token@
    }
}

impl Credential {
    #[verifier::type_invariant]
    spec fn non_empty(&self) -> bool {
        self.token@.len() > 0
    }

    /// Makes a credential of `token`, unless it is empty.
    pub fn new(token: String) -> (made: Option<Credential>)
        ensures
            made is Some <==> token@.len() > 0,
            made matches Some(credential) ==> credential@ == token@,
    {
        if token.as_str().is_empty() {
            None
        } else {
            Some(Credential { token })
        }
    }

    /// The token itself.
    pub fn token(&self) -> (token: &str)
        ensures
            token@ == self@,
            token@.len() > 0,
    {
        proof {
            use_type_invariant(self);
        }
        self.token.as_str()
    }
}

/// The name of the environment variable that holds the credential.
pub fn token_variable() -> (name: &'static str)
    ensures
        name@ == "DISCORD_TOKEN"@,
{
    "DISCORD_TOKEN"
}

/// How the result of a load relates to what was looked up: the credential is
/// the value found, where that is usable; the failure is that of a credential
/// that is not set, where it is not.
pub open spec fn loads(lookup: Option<String>, loaded: Result<Credential, Failure>) -> bool {
    &&& loaded is Ok <==> usable(lookup_view(lookup))
    &&& loaded matches Ok(credential) ==> Some(credential@) == lookup_view(lookup)
    &&& loaded matches Err(failure) ==> failure == Failure::CredentialNotSet
}

/// Turns the result of looking the credential up into the credential, or
/// into the failure to report. A value that is missing and one that is empty
/// are both "not set".
pub fn load_credential(lookup: Option<String>) -> (loaded: Result<Credential, Failure>)
    ensures
        loads(lookup, loaded),
{
    match lookup {
        Some(value) => match Credential::new(value) {
            Some(credential) => Ok(credential),
            None => Err(Failure::CredentialNotSet),
        },
        None => Err(Failure::CredentialNotSet),
    }
}

/// What the process does once the credential has been looked up.
pub enum Startup {
    /// Log `diagnostic` and end, without connecting.
    Abort { diagnostic: String },
    /// Construct the client with this credential and subscription.
    Connect { credential: Credential, intents: Intents },
}

/// The startup decision owed to a lookup, with strings as sequences.
pub enum StartupModel {
    Abort { diagnostic: Seq<char> },
    Connect { token: Seq<char>, intents: Intents },
}

impl View for Startup {
    type V = StartupModel;

    open spec fn view(&self) -> StartupModel {
        match *self {
            Startup::Abort { diagnostic } => StartupModel::Abort { diagnostic: diagnostic@ },
            Startup::Connect { credential, intents } => StartupModel::Connect {
                token: credential@,
                intents,
            },
        }
    }
}

/// The decision that a lookup calls for: connect with the value found and
/// the fixed subscription where that value is usable, and otherwise abort
/// with the line logged for a credential that is not set.
pub open spec fn startup_decision(lookup: Option<Seq<char>>) -> StartupModel {
    if usable(lookup) {
        StartupModel::Connect { token: lookup->0, intents: Intents::required() }
    } else {
        StartupModel::Abort { diagnostic: FailureModel::CredentialNotSet.log_line() }
    }
}

/// Decides how the process starts from what the environment held under
/// [`token_variable`].
pub fn startup(lookup: Option<String>) -> (decision: Startup)
    ensures
        decision@ == startup_decision(lookup_view(lookup)),
{
    match load_credential(lookup) {
        Ok(credential) => Startup::Connect { credential, intents: Intents::required() },
        Err(failure) => Startup::Abort { diagnostic: failure.log_line() },
    }
}

/// Loading is a function of what was looked up: two loads of the same value
/// agree, in the credential and in the failure alike.
pub proof fn load_twice_agrees(
    lookup: Option<String>,
    first: Result<Credential, Failure>,
    second: Result<Credential, Failure>,
)
    requires
        loads(lookup, first),
        loads(lookup, second),
    ensures
        first is Ok <==> second is Ok,
        first is Ok ==> first->Ok_0@ == second->Ok_0@,
        first is Err ==> first->Err_0 == second->Err_0,
{
}

} // verus!
