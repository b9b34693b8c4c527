use pingbot::credential::{load_credential, startup, token_variable, Credential, Startup};
use pingbot::failure::Failure;
use pingbot::intents::Intents;

const NOT_SET: &str = "Error: DISCORD_TOKEN environment variable not set.";

#[test]
fn the_credential_is_read_from_discord_token() {
    assert_eq!(token_variable(), "DISCORD_TOKEN");
}

#[test]
fn missing_credential_is_not_set() {
    assert!(matches!(load_credential(None), Err(Failure::CredentialNotSet)));
}

#[test]
fn empty_credential_is_not_set() {
    assert!(matches!(load_credential(Some(String::new())), Err(Failure::CredentialNotSet)));
}

#[test]
fn present_credential_is_loaded_unchanged() {
    match load_credential(Some(String::from("abc.def-123"))) {
        Ok(credential) => assert_eq!(credential.token(), "abc.def-123"),
        Err(failure) => panic!("unexpected failure: {:?}", failure),
    }
    match load_credential(Some(String::from(" "))) {
        Ok(credential) => assert_eq!(credential.token(), " "),
        Err(failure) => panic!("unexpected failure: {:?}", failure),
    }
}

#[test]
fn loading_twice_gives_the_same_value() {
    let first = load_credential(Some(String::from("token-1")));
    let second = load_credential(Some(String::from("token-1")));
    match (first, second) {
        (Ok(a), Ok(b)) => assert_eq!(a.token(), b.token()),
        _ => panic!("both loads should succeed"),
    }
    let first = load_credential(None);
    let second = load_credential(None);
    match (first, second) {
        (Err(a), Err(b)) => assert_eq!(a, b),
        _ => panic!("both loads should fail"),
    }
}

#[test]
fn credential_new_refuses_only_the_empty_token() {
    assert!(Credential::new(String::new()).is_none());
    match Credential::new(String::from("x")) {
        Some(credential) => assert_eq!(credential.token(), "x"),
        None => panic!("a non-empty token makes a credential"),
    }
}

#[test]
fn startup_without_credential_aborts_with_the_diagnostic() {
    match startup(None) {
        Startup::Abort { diagnostic } => assert_eq!(diagnostic, NOT_SET),
        Startup::Connect { .. } => panic!("must not connect without a credential"),
    }
}

#[test]
fn startup_with_empty_credential_aborts_with_the_diagnostic() {
    match startup(Some(String::new())) {
        Startup::Abort { diagnostic } => assert_eq!(diagnostic, NOT_SET),
        Startup::Connect { .. } => panic!("must not connect with an empty credential"),
    }
}

#[test]
fn startup_with_credential_connects() {
    match startup(Some(String::from("secret-token"))) {
        Startup::Connect { credential, intents } => {
            assert_eq!(credential.token(), "secret-token");
            assert_eq!(intents, Intents { bits: 0x8200 });
        }
        Startup::Abort { diagnostic } => panic!("unexpected abort: {}", diagnostic),
    }
}
