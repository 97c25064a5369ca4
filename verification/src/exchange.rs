//! The exchange between the library and the program that embeds it.
//!
//! The library decides and the program acts. A flow hands out a [`Request`],
//! the program carries it out against the signing agent, the profile store or
//! the terminal, and reports what came of it as an [`Event`]. The flow then
//! decides on the next request.

use vstd::prelude::*;
use crate::error::Error;
use crate::keys::Passphrase;
use crate::profile::{views, PeerId, Profile, ProfileId, ProfileView, Urn};

verus! {

/// What a flow asks the program to do next.
pub enum Request {
    /// Print the usage text; nothing else is to be done.
    ShowUsage,
    /// Enumerate the local profiles.
    ListProfiles,
    /// Fetch the active profile.
    FetchDefault,
    /// Let the user pick one of `candidates`, with `current` distinguished.
    Choose { candidates: Vec<Profile>, current: Profile },
    /// Ask the agent whether it holds the profile's key.
    CheckReady { profile: Profile },
    /// Ask for a username.
    AskUsername,
    /// Ask for the passphrase of an existing key, once.
    AskPassphrase,
    /// Ask for a new passphrase and for its confirmation.
    AskNewPassphrase,
    /// Generate a keypair, create a profile in a fresh storage directory and
    /// persist the keypair encrypted under the passphrase.
    CreateProfile { passphrase: Passphrase },
    /// Decrypt the profile's key with the passphrase and load it into the
    /// agent.
    AddKey { profile: Profile, passphrase: Passphrase },
    /// Persist which profile is active.
    SetActive { id: ProfileId },
    /// Open the profile's storage with a signer bound to its key.
    OpenStorage { profile: Profile },
    /// Make the storage under `root` sign with the key `peer`.
    ConfigureSigningKey { root: String, peer: PeerId },
    /// Construct and sign the person record for `username` with the
    /// profile's key, and record it as the local identity.
    SignPerson { profile: Profile, username: String },
    /// There is no identity yet, or a new one was asked for: create one.
    Bootstrap,
    /// The flow has ended; its state says how.
    Finish,
}

/// What contracts say of a request.
pub enum RequestView {
    ShowUsage,
    ListProfiles,
    FetchDefault,
    Choose { candidates: Seq<ProfileView>, current: ProfileView },
    CheckReady { profile: ProfileView },
    AskUsername,
    AskPassphrase,
    AskNewPassphrase,
    CreateProfile { passphrase: Seq<char> },
    AddKey { profile: ProfileView, passphrase: Seq<char> },
    SetActive { id: Seq<char> },
    OpenStorage { profile: ProfileView },
    ConfigureSigningKey { root: Seq<char>, peer: Seq<char> },
    SignPerson { profile: ProfileView, username: Seq<char> },
    Bootstrap,
    Finish,
}

impl View for Request {
    type V = RequestView;

    open spec fn view(&self) -> RequestView {
        match *self {
            Request::ShowUsage => RequestView::ShowUsage,
            Request::ListProfiles => RequestView::ListProfiles,
            Request::FetchDefault => RequestView::FetchDefault,
            Request::Choose { candidates, current } => RequestView::Choose {
                candidates: views(candidates@),
                current: current@,
            },
            Request::CheckReady { profile } => RequestView::CheckReady { profile: profile@ },
            Request::AskUsername => RequestView::AskUsername,
            Request::AskPassphrase => RequestView::AskPassphrase,
            Request::AskNewPassphrase => RequestView::AskNewPassphrase,
            Request::CreateProfile { passphrase } => RequestView::CreateProfile {
                passphrase: passphrase@,
            },
            Request::AddKey { profile, passphrase } => RequestView::AddKey {
                profile: profile@,
                passphrase: passphrase@,
            },
            Request::SetActive { id } => RequestView::SetActive { id: id@ },
            Request::OpenStorage { profile } => RequestView::OpenStorage { profile: profile@ },
            Request::ConfigureSigningKey { root, peer } => RequestView::ConfigureSigningKey {
                root: root@,
                peer: peer@,
            },
            Request::SignPerson { profile, username } => RequestView::SignPerson {
                profile: profile@,
                username: username@,
            },
            Request::Bootstrap => RequestView::Bootstrap,
            Request::Finish => RequestView::Finish,
        }
    }
}

/// What the program reports back. Each event answers one kind of request.
pub enum Event {
    /// The local profiles, or why they could not be enumerated.
    Listed(Result<Vec<Profile>, Error>),
    /// The active profile.
    Default(Result<Profile, Error>),
    /// The place of the picked candidate, or nothing if none was picked.
    Chosen(Option<usize>),
    /// Whether the agent holds the key.
    Readiness(Result<bool, Error>),
    /// The username as typed.
    Username(String),
    /// The passphrase as typed.
    Passphrase(Passphrase),
    /// A new passphrase as typed, and as typed again.
    NewPassphrase { entry: Passphrase, confirmation: Passphrase },
    /// The new profile.
    ProfileCreated(Result<Profile, Error>),
    /// The identifier of the profile whose key was loaded.
    KeyAdded(Result<ProfileId, Error>),
    /// Whether the active marker was persisted.
    Activated(Result<(), Error>),
    /// The key the storage's signer is bound to.
    StorageOpened(Result<PeerId, Error>),
    /// Whether the storage now signs with the key.
    SigningKeyConfigured(Result<(), Error>),
    /// The handle of the signed person record.
    PersonSigned(Result<Urn, Error>),
}

/// What contracts say of an event.
pub enum EventView {
    Listed(Result<Seq<ProfileView>, Error>),
    Default(Result<ProfileView, Error>),
    Chosen(Option<usize>),
    Readiness(Result<bool, Error>),
    Username(Seq<char>),
    Passphrase(Seq<char>),
    NewPassphrase { entry: Seq<char>, confirmation: Seq<char> },
    ProfileCreated(Result<ProfileView, Error>),
    KeyAdded(Result<Seq<char>, Error>),
    Activated(Result<(), Error>),
    StorageOpened(Result<Seq<char>, Error>),
    SigningKeyConfigured(Result<(), Error>),
    PersonSigned(Result<Seq<char>, Error>),
}

impl EventView {
    /// The failure that the event reports, if it reports one.
    pub open spec fn failure(self) -> Option<Error> {
        match self {
            EventView::Listed(Err(e)) => Some(e),
            EventView::Default(Err(e)) => Some(e),
            EventView::Readiness(Err(e)) => Some(e),
            EventView::ProfileCreated(Err(e)) => Some(e),
            EventView::KeyAdded(Err(e)) => Some(e),
            EventView::Activated(Err(e)) => Some(e),
            EventView::StorageOpened(Err(e)) => Some(e),
            EventView::SigningKeyConfigured(Err(e)) => Some(e),
            EventView::PersonSigned(Err(e)) => Some(e),
            _ => None,
        }
    }
}

impl View for Event {
    type V = EventView;

    open spec fn view(&self) -> EventView {
        match *self {
            Event::Listed(r) => EventView::Listed(
                match r {
                    Ok(profiles) => Ok(views(profiles@)),
                    Err(e) => Err(e),
                },
            ),
            Event::Default(r) => EventView::Default(
                match r {
                    Ok(profile) => Ok(profile@),
                    Err(e) => Err(e),
                },
            ),
            Event::Chosen(choice) => EventView::Chosen(choice),
            Event::Readiness(r) => EventView::Readiness(r),
            Event::Username(name) => EventView::Username(name@),
            Event::Passphrase(passphrase) => EventView::Passphrase(passphrase@),
            Event::NewPassphrase { entry, confirmation } => EventView::NewPassphrase {
                entry: entry@,
                confirmation: confirmation@,
            },
            Event::ProfileCreated(r) => EventView::ProfileCreated(
                match r {
                    Ok(profile) => Ok(profile@),
                    Err(e) => Err(e),
                },
            ),
            Event::KeyAdded(r) => EventView::KeyAdded(
                match r {
                    Ok(id) => Ok(id@),
                    Err(e) => Err(e),
                },
            ),
            Event::Activated(r) => EventView::Activated(r),
            Event::StorageOpened(r) => EventView::StorageOpened(
                match r {
                    Ok(peer) => Ok(peer@),
                    Err(e) => Err(e),
                },
            ),
            Event::SigningKeyConfigured(r) => EventView::SigningKeyConfigured(r),
            Event::PersonSigned(r) => EventView::PersonSigned(
                match r {
                    Ok(urn) => Ok(urn@),
                    Err(e) => Err(e),
                },
            ),
        }
    }
}

} // verus!
