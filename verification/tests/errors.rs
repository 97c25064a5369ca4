use rad_identity::error::Error;

fn all() -> Vec<Error> {
    vec![
        Error::AgentUnreachable,
        Error::InvalidPassphrase,
        Error::NoActiveProfile,
        Error::SigningKeyNotReady,
        Error::TrackingEdgeMissing,
        Error::Storage,
    ]
}

#[test]
fn invalid_passphrase_has_its_own_message() {
    assert_eq!(Error::InvalidPassphrase.message(), "invalid passphrase supplied");
    assert_ne!(Error::InvalidPassphrase.message(), Error::AgentUnreachable.message());
    assert_ne!(Error::InvalidPassphrase.message(), Error::Storage.message());
}

#[test]
fn every_failure_has_its_own_message() {
    let errors = all();
    for (i, a) in errors.iter().enumerate() {
        for (j, b) in errors.iter().enumerate() {
            assert_eq!(i == j, a.message() == b.message());
        }
    }
}

#[test]
fn messages_are_exact() {
    assert_eq!(Error::AgentUnreachable.message(), "signing agent is unreachable");
    assert_eq!(Error::NoActiveProfile.message(), "no active profile");
    assert_eq!(Error::SigningKeyNotReady.message(), "signing key is not loaded in the agent");
    assert_eq!(Error::TrackingEdgeMissing.message(), "tracking relationship does not exist");
    assert_eq!(Error::Storage.message(), "storage failure");
}
