//! The creation of a first identity: a profile, its keypair and the person
//! record that is signed with it.
//!
//! The flow is linear. It collects a username and a passphrase, has the
//! profile created, the storage configured and the key loaded, and ends with
//! the signed person record. A step that was taken is never taken back, and a
//! failure at any step ends the flow at once. Only a flow that ran to its end
//! yields something to record in the registry, so no half-made profile is ever
//! marked active; what a failed step left on disk is not cleaned up here.

use vstd::prelude::*;
use crate::error::Error;
use crate::exchange::{Event, EventView, Request, RequestView};
use crate::keys::Passphrase;
use crate::person::{Person, PersonView};
use crate::profile::{Profile, ProfileView};
use crate::registry::{has_id, has_peer, Registry};

verus! {

/// What a completed flow made.
pub struct Created {
    profile: Profile,
    person: Person,
}

/// What contracts say of a completed flow.
pub struct CreatedView {
    pub profile: ProfileView,
    pub person: PersonView,
}

impl View for Created {
    type V = CreatedView;

    closed spec fn view(&self) -> CreatedView {
        CreatedView { profile: self.profile@, person: self.person@ }
    }
}

impl Created {
    /// The new profile.
    pub fn profile(&self) -> (profile: &Profile)
        ensures
            profile@ == self@.profile,
    {
        &self.profile
    }

    /// The person record signed with the new key.
    pub fn person(&self) -> (person: &Person)
        ensures
            person@ == self@.person,
    {
        &self.person
    }

    /// Enters the new profile into the registry and marks it active. It
    /// fails with `Storage`, and changes nothing, when the registry already
    /// holds a profile with the same identifier or the same key.
    pub fn record(&self, registry: &mut Registry) -> (r: Result<(), Error>)
        requires
            old(registry).wf(),
        ensures
            final(registry).wf(),
            r is Ok <==> !has_id(old(registry)@.profiles, self@.profile.id) && !has_peer(
                old(registry)@.profiles,
                self@.profile.peer,
            ),
            r is Ok ==> final(registry)@.profiles == old(registry)@.profiles.push(self@.profile)
                && final(registry)@.active == Some(self@.profile.id),
            r is Err ==> r == Err::<(), Error>(Error::Storage) && final(registry)@ == old(
                registry,
            )@,
    {
        match registry.insert(self.profile.clone()) {
            Ok(_) => {
                let ghost last = registry@.profiles.len() - 1;
                assert(registry@.profiles[last].id == self@.profile.id);
                registry.set_active(self.profile.id())
            },
            Err(e) => Err(e),
        }
    }
}

/// Where the flow stands. The passphrase is held from its confirmation until
/// it is handed over for the key to be loaded, and in no other state.
pub enum Bootstrap {
    /// Waiting for the username.
    Username,
    /// Waiting for the passphrase and its confirmation.
    Passphrase { username: String },
    /// Waiting for the profile and its keypair.
    Creating { username: String, passphrase: Passphrase },
    /// Waiting for the storage's signing key to be set.
    Configuring { username: String, passphrase: Passphrase, profile: Profile },
    /// Waiting for the key to be loaded into the agent.
    Loading { username: String, profile: Profile },
    /// Waiting for the signed person record.
    Signing { username: String, profile: Profile },
    /// Ended: the identity exists.
    Done(Created),
    /// Ended: the flow was aborted.
    Failed(Error),
}

/// What contracts say of the state of the flow.
pub enum BootstrapView {
    Username,
    Passphrase { username: Seq<char> },
    Creating { username: Seq<char>, passphrase: Seq<char> },
    Configuring { username: Seq<char>, passphrase: Seq<char>, profile: ProfileView },
    Loading { username: Seq<char>, profile: ProfileView },
    Signing { username: Seq<char>, profile: ProfileView },
    Done(CreatedView),
    Failed(Error),
}

impl View for Bootstrap {
    type V = BootstrapView;

    open spec fn view(&self) -> BootstrapView {
        match *self {
            Bootstrap::Username => BootstrapView::Username,
            Bootstrap::Passphrase { username } => BootstrapView::Passphrase { username: username@ },
            Bootstrap::Creating { username, passphrase } => BootstrapView::Creating {
                username: username@,
                passphrase: passphrase@,
            },
            Bootstrap::Configuring { username, passphrase, profile } => BootstrapView::Configuring {
                username: username@,
                passphrase: passphrase@,
                profile: profile@,
            },
            Bootstrap::Loading { username, profile } => BootstrapView::Loading {
                username: username@,
                profile: profile@,
            },
            Bootstrap::Signing { username, profile } => BootstrapView::Signing {
                username: username@,
                profile: profile@,
            },
            Bootstrap::Done(created) => BootstrapView::Done(created@),
            Bootstrap::Failed(e) => BootstrapView::Failed(e),
        }
    }
}

/// The flow at its beginning, and its first request.
pub open spec fn start_spec() -> (BootstrapView, RequestView) {
    (BootstrapView::Username, RequestView::AskUsername)
}

/// The flow aborted with `e`.
pub open spec fn failed(e: Error) -> (BootstrapView, RequestView) {
    (BootstrapView::Failed(e), RequestView::Finish)
}

/// The state after `event`, and the next request.
///
/// An empty username is asked for again, and so is a passphrase whose
/// confirmation differs; neither aborts the flow. An event that reports a
/// failure ends the flow with that failure. An event that does not answer the
/// pending request ends it with `Storage`. An ended flow stays as it is.
pub open spec fn step_spec(state: BootstrapView, event: EventView) -> (
    BootstrapView,
    RequestView,
) {
    match state {
        BootstrapView::Username => match event {
            EventView::Username(username) => if username.len() == 0 {
                (BootstrapView::Username, RequestView::AskUsername)
            } else {
                (BootstrapView::Passphrase { username }, RequestView::AskNewPassphrase)
            },
            _ => failed(Error::Storage),
        },
        BootstrapView::Passphrase { username } => match event {
            EventView::NewPassphrase { entry, confirmation } => if entry == confirmation {
                (
                    BootstrapView::Creating { username, passphrase: entry },
                    RequestView::CreateProfile { passphrase: entry },
                )
            } else {
                (BootstrapView::Passphrase { username }, RequestView::AskNewPassphrase)
            },
            _ => failed(Error::Storage),
        },
        BootstrapView::Creating { username, passphrase } => match event {
            EventView::ProfileCreated(Ok(profile)) => (
                BootstrapView::Configuring { username, passphrase, profile },
                RequestView::ConfigureSigningKey { root: profile.root, peer: profile.peer },
            ),
            EventView::ProfileCreated(Err(e)) => failed(e),
            _ => failed(Error::Storage),
        },
        BootstrapView::Configuring { username, passphrase, profile } => match event {
            EventView::SigningKeyConfigured(Ok(_)) => (
                BootstrapView::Loading { username, profile },
                RequestView::AddKey { profile, passphrase },
            ),
            EventView::SigningKeyConfigured(Err(e)) => failed(e),
            _ => failed(Error::Storage),
        },
        BootstrapView::Loading { username, profile } => match event {
            EventView::KeyAdded(Ok(_)) => (
                BootstrapView::Signing { username, profile },
                RequestView::SignPerson { profile, username },
            ),
            EventView::KeyAdded(Err(e)) => failed(e),
            _ => failed(Error::Storage),
        },
        BootstrapView::Signing { username, profile } => match event {
            EventView::PersonSigned(Ok(urn)) => (
                BootstrapView::Done(
                    CreatedView { profile, person: PersonView { username, peer: profile.peer, urn } },
                ),
                RequestView::Finish,
            ),
            EventView::PersonSigned(Err(e)) => failed(e),
            _ => failed(Error::Storage),
        },
        BootstrapView::Done(created) => (BootstrapView::Done(created), RequestView::Finish),
        BootstrapView::Failed(e) => (BootstrapView::Failed(e), RequestView::Finish),
    }
}

/// How far the flow has come.
pub open spec fn rank(state: BootstrapView) -> nat {
    match state {
        BootstrapView::Username => 0,
        BootstrapView::Passphrase { .. } => 1,
        BootstrapView::Creating { .. } => 2,
        BootstrapView::Configuring { .. } => 3,
        BootstrapView::Loading { .. } => 4,
        BootstrapView::Signing { .. } => 5,
        BootstrapView::Done(_) => 6,
        BootstrapView::Failed(_) => 6,
    }
}

fn fail(e: Error) -> (r: (Bootstrap, Request))
    ensures
        (r.0@, r.1@) == failed(e),
{
    (Bootstrap::Failed(e), Request::Finish)
}

impl Bootstrap {
    /// See [`start_spec`].
    pub fn start() -> (r: (Bootstrap, Request))
        ensures
            (r.0@, r.1@) == start_spec(),
    {
        (Bootstrap::Username, Request::AskUsername)
    }

    /// What the flow made, once it has ended well.
    pub fn created(&self) -> (c: Option<&Created>)
        ensures
            match c {
                Some(created) => self@ == BootstrapView::Done(created@),
                None => !(self@ is Done),
            },
    {
        match self {
            Bootstrap::Done(created) => Some(created),
            _ => None,
        }
    }

    /// Why the flow was aborted, if it was.
    pub fn failure(&self) -> (e: Option<Error>)
        ensures
            match e {
                Some(e) => self@ == BootstrapView::Failed(e),
                None => !(self@ is Failed),
            },
    {
        match self {
            Bootstrap::Failed(e) => Some(*e),
            _ => None,
        }
    }

    /// See [`step_spec`].
    pub fn step(self, event: Event) -> (r: (Bootstrap, Request))
        ensures
            (r.0@, r.1@) == step_spec(self@, event@),
    {
        match self {
            Bootstrap::Username => match event {
                Event::Username(username) => {
                    if username.as_str().is_empty() {
                        (Bootstrap::Username, Request::AskUsername)
                    } else {
                        (Bootstrap::Passphrase { username }, Request::AskNewPassphrase)
                    }
                },
                _ => fail(Error::Storage),
            },
            Bootstrap::Passphrase { username } => match event {
                Event::NewPassphrase { entry, confirmation } => {
                    if entry.same(&confirmation) {
                        let passphrase = entry.clone();
                        (
                            Bootstrap::Creating { username, passphrase: entry },
                            Request::CreateProfile { passphrase },
                        )
                    } else {
                        (Bootstrap::Passphrase { username }, Request::AskNewPassphrase)
                    }
                },
                _ => fail(Error::Storage),
            },
            Bootstrap::Creating { username, passphrase } => match event {
                Event::ProfileCreated(Ok(profile)) => {
                    let root = String::from_str(profile.root());
                    let peer = profile.peer().clone();
                    (
                        Bootstrap::Configuring { username, passphrase, profile },
                        Request::ConfigureSigningKey { root, peer },
                    )
                },
                Event::ProfileCreated(Err(e)) => fail(e),
                _ => fail(Error::Storage),
            },
            Bootstrap::Configuring { username, passphrase, profile } => match event {
                Event::SigningKeyConfigured(Ok(_)) => {
                    let loaded = profile.clone();
                    (
                        Bootstrap::Loading { username, profile },
                        Request::AddKey { profile: loaded, passphrase },
                    )
                },
                Event::SigningKeyConfigured(Err(e)) => fail(e),
                _ => fail(Error::Storage),
            },
            Bootstrap::Loading { username, profile } => match event {
                Event::KeyAdded(Ok(_)) => {
                    let signed = profile.clone();
                    let name = username.clone();
                    (
                        Bootstrap::Signing { username, profile },
                        Request::SignPerson { profile: signed, username: name },
                    )
                },
                Event::KeyAdded(Err(e)) => fail(e),
                _ => fail(Error::Storage),
            },
            Bootstrap::Signing { username, profile } => match event {
                Event::PersonSigned(Ok(urn)) => {
                    let person = Person::bind(username.as_str(), profile.peer(), urn);
                    (Bootstrap::Done(Created { profile, person }), Request::Finish)
                },
                Event::PersonSigned(Err(e)) => fail(e),
                _ => fail(Error::Storage),
            },
            Bootstrap::Done(created) => (Bootstrap::Done(created), Request::Finish),
            Bootstrap::Failed(e) => (Bootstrap::Failed(e), Request::Finish),
        }
    }
}

/// Whether `event` answers the request that is pending in `state`.
pub open spec fn expects(state: BootstrapView, event: EventView) -> bool {
    match state {
        BootstrapView::Username => event is Username,
        BootstrapView::Passphrase { .. } => event is NewPassphrase,
        BootstrapView::Creating { .. } => event is ProfileCreated,
        BootstrapView::Configuring { .. } => event is SigningKeyConfigured,
        BootstrapView::Loading { .. } => event is KeyAdded,
        BootstrapView::Signing { .. } => event is PersonSigned,
        BootstrapView::Done(_) => false,
        BootstrapView::Failed(_) => false,
    }
}

/// A passphrase whose confirmation differs is asked for again: the flow
/// stays where it was, with the username it had, and no profile is created.
pub proof fn law_mismatch_asks_again(
    username: Seq<char>,
    entry: Seq<char>,
    confirmation: Seq<char>,
)
    requires
        entry != confirmation,
    ensures
        step_spec(
            BootstrapView::Passphrase { username },
            EventView::NewPassphrase { entry, confirmation },
        ) == (BootstrapView::Passphrase { username }, RequestView::AskNewPassphrase),
{
}

/// A profile is created only upon a passphrase that was confirmed, and under
/// that passphrase.
pub proof fn law_profile_created_only_after_confirmation(state: BootstrapView, event: EventView)
    requires
        step_spec(state, event).1 is CreateProfile,
    ensures
        state is Passphrase,
        event matches EventView::NewPassphrase { entry, confirmation } && entry == confirmation
            && step_spec(state, event).1 == (RequestView::CreateProfile { passphrase: entry }),
{
}

/// The flow is linear and never goes back: an answer takes it one step
/// further or ends it, except that an empty username and an unconfirmed
/// passphrase are asked for again. An ended flow stays as it is.
pub proof fn law_linear(state: BootstrapView, event: EventView)
    ensures
        rank(step_spec(state, event).0) == rank(state) + 1 || rank(step_spec(state, event).0) == 6
            || step_spec(state, event).0 == state,
        step_spec(state, event).0 == state && rank(state) < 6 ==> step_spec(state, event).1
            is AskUsername || step_spec(state, event).1 is AskNewPassphrase,
        rank(state) == 6 ==> step_spec(state, event) == (state, RequestView::Finish),
{
}

/// A failure at any step surfaces at once and aborts the flow with that
/// failure.
pub proof fn law_failure_aborts(state: BootstrapView, event: EventView, e: Error)
    requires
        expects(state, event),
        event.failure() == Some(e),
    ensures
        step_spec(state, event) == failed(e),
{
}

/// The flow ends well only with the signed person record, and that record
/// binds the username that was collected to the key of the profile that was
/// created and to the handle that the signature gave.
pub proof fn law_done_binds_person(state: BootstrapView, event: EventView)
    requires
        !(state is Done),
        step_spec(state, event).0 is Done,
    ensures
        state matches BootstrapView::Signing { username, profile } && event
            matches EventView::PersonSigned(Ok(urn)) && step_spec(state, event).0
            == BootstrapView::Done(
            CreatedView { profile, person: PersonView { username, peer: profile.peer, urn } },
        ),
{
}

} // verus!
