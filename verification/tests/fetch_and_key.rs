use gitbutler_project::{AuthKey, FetchResult};
use std::path::PathBuf;
use std::time::{Duration, SystemTime};

fn at(seconds: u64) -> SystemTime {
    SystemTime::UNIX_EPOCH + Duration::from_secs(seconds)
}

#[test]
fn default_key_is_generated() {
    assert_eq!(AuthKey::default(), AuthKey::Generated);
}

#[test]
fn local_key_is_not_the_default() {
    let key = AuthKey::Local {
        private_key_path: PathBuf::from("/home/u/.ssh/id_ed25519"),
        passphrase: None,
    };
    assert_ne!(key, AuthKey::default());
}

#[test]
fn cloned_local_key_keeps_path_and_passphrase() {
    let key = AuthKey::Local {
        private_key_path: PathBuf::from("keys/deploy"),
        passphrase: Some(String::from("hunter2")),
    };
    let copy = key.clone();
    assert_eq!(copy, key);
    match copy {
        AuthKey::Local { private_key_path, passphrase } => {
            assert_eq!(private_key_path, PathBuf::from("keys/deploy"));
            assert_eq!(passphrase, Some(String::from("hunter2")));
        }
        AuthKey::Generated => panic!("the clone of a local key is a local key"),
    }
}

#[test]
fn timestamp_of_a_success_is_its_moment() {
    let outcome = FetchResult::Fetched { timestamp: at(1_700_000_000) };
    assert_eq!(*outcome.timestamp(), at(1_700_000_000));
}

#[test]
fn timestamp_of_a_failure_is_its_moment() {
    let outcome = FetchResult::Error {
        timestamp: at(42),
        error: String::from("connection refused"),
    };
    assert_eq!(*outcome.timestamp(), at(42));
}

#[test]
fn timestamp_does_not_depend_on_the_outcome() {
    let success = FetchResult::Fetched { timestamp: at(7) };
    let failure = FetchResult::Error { timestamp: at(7), error: String::from("timed out") };
    assert_eq!(success.timestamp(), failure.timestamp());
    assert_ne!(success, failure);
}

#[test]
fn timestamp_at_the_epoch() {
    let outcome = FetchResult::Fetched { timestamp: SystemTime::UNIX_EPOCH };
    assert_eq!(*outcome.timestamp(), SystemTime::UNIX_EPOCH);
}

#[test]
fn cloned_failure_keeps_moment_and_message() {
    let failure = FetchResult::Error { timestamp: at(9), error: String::from("no route to host") };
    let copy = failure.clone();
    assert_eq!(copy, failure);
    assert_eq!(*copy.timestamp(), at(9));
    assert!(matches!(copy, FetchResult::Error { error, .. } if error == "no route to host"));
}

#[test]
fn error_message_is_kept_verbatim() {
    let failure = FetchResult::Error { timestamp: at(1), error: String::from("  Refused\n") };
    match failure {
        FetchResult::Error { error, .. } => assert_eq!(error, "  Refused\n"),
        FetchResult::Fetched { .. } => panic!("a failure stays a failure"),
    }
}
