//! The unlock flow: make sure that the key of the profile in use is loaded in
//! the signing agent, asking for a passphrase only when that is necessary.
//!
//! The flow runs once per invocation. It begins with [`Unlock::start`], and
//! [`Unlock::step`] takes it from one request to the next until it has ended
//! in an [`Outcome`]. Every failure ends it at once.

use vstd::prelude::*;
use crate::error::Error;
use crate::exchange::{Event, EventView, Request, RequestView};
use crate::profile::{copy_all, views, Profile, ProfileView};
use crate::registry::{needs_prompt, needs_prompt_spec, select, select_spec};

verus! {

/// What the command line asked for.
#[derive(Clone, Copy, Debug, PartialEq, Eq, Structural)]
pub struct Options {
    /// Create a new identity even if profiles exist.
    pub init: bool,
    /// Only print the usage text.
    pub help: bool,
}

/// How the flow ended.
pub enum Outcome {
    /// The usage text was asked for.
    Usage,
    /// A new identity is to be created.
    Bootstrap,
    /// The profile's key is loaded and its storage signs with it. `activated`
    /// says whether the profile was made the active one on the way.
    Unlocked { profile: Profile, activated: bool },
    /// The flow was aborted.
    Failed(Error),
}

/// What contracts say of an outcome.
pub enum OutcomeView {
    Usage,
    Bootstrap,
    Unlocked { profile: ProfileView, activated: bool },
    Failed(Error),
}

impl View for Outcome {
    type V = OutcomeView;

    open spec fn view(&self) -> OutcomeView {
        match *self {
            Outcome::Usage => OutcomeView::Usage,
            Outcome::Bootstrap => OutcomeView::Bootstrap,
            Outcome::Unlocked { profile, activated } => OutcomeView::Unlocked {
                profile: profile@,
                activated,
            },
            Outcome::Failed(e) => OutcomeView::Failed(e),
        }
    }
}

/// Where the flow stands. Each state but the last waits for the answer to
/// one request.
pub enum Unlock {
    /// Waiting for the list of profiles.
    Listing { init: bool },
    /// Waiting for the active profile.
    Default { profiles: Vec<Profile> },
    /// Waiting for the user's pick among several profiles.
    Choosing { profiles: Vec<Profile>, current: Profile },
    /// Waiting for the agent to say whether it holds the key.
    Probing { current: Profile, selection: Profile },
    /// Waiting for the passphrase.
    Passphrase { current: Profile, selection: Profile },
    /// Waiting for the key to be loaded.
    Adding { current: Profile, selection: Profile },
    /// Waiting for the active marker to be persisted.
    Activating { selection: Profile },
    /// Waiting for the storage to be opened.
    Opening { selection: Profile, activated: bool },
    /// Waiting for the storage's signing key to be set.
    Configuring { selection: Profile, activated: bool },
    /// Ended.
    Done(Outcome),
}

/// What contracts say of the state of the flow.
pub enum UnlockView {
    Listing { init: bool },
    Default { profiles: Seq<ProfileView> },
    Choosing { profiles: Seq<ProfileView>, current: ProfileView },
    Probing { current: ProfileView, selection: ProfileView },
    Passphrase { current: ProfileView, selection: ProfileView },
    Adding { current: ProfileView, selection: ProfileView },
    Activating { selection: ProfileView },
    Opening { selection: ProfileView, activated: bool },
    Configuring { selection: ProfileView, activated: bool },
    Done(OutcomeView),
}

impl View for Unlock {
    type V = UnlockView;

    open spec fn view(&self) -> UnlockView {
        match *self {
            Unlock::Listing { init } => UnlockView::Listing { init },
            Unlock::Default { profiles } => UnlockView::Default { profiles: views(profiles@) },
            Unlock::Choosing { profiles, current } => UnlockView::Choosing {
                profiles: views(profiles@),
                current: current@,
            },
            Unlock::Probing { current, selection } => UnlockView::Probing {
                current: current@,
                selection: selection@,
            },
            Unlock::Passphrase { current, selection } => UnlockView::Passphrase {
                current: current@,
                selection: selection@,
            },
            Unlock::Adding { current, selection } => UnlockView::Adding {
                current: current@,
                selection: selection@,
            },
            Unlock::Activating { selection } => UnlockView::Activating { selection: selection@ },
            Unlock::Opening { selection, activated } => UnlockView::Opening {
                selection: selection@,
                activated,
            },
            Unlock::Configuring { selection, activated } => UnlockView::Configuring {
                selection: selection@,
                activated,
            },
            Unlock::Done(outcome) => UnlockView::Done(outcome@),
        }
    }
}

/// The flow at its beginning, and its first request.
pub open spec fn start_spec(options: Options) -> (UnlockView, RequestView) {
    if options.help {
        (UnlockView::Done(OutcomeView::Usage), RequestView::ShowUsage)
    } else {
        (UnlockView::Listing { init: options.init }, RequestView::ListProfiles)
    }
}

/// The flow aborted with `e`.
pub open spec fn failed(e: Error) -> (UnlockView, RequestView) {
    (UnlockView::Done(OutcomeView::Failed(e)), RequestView::Finish)
}

/// What follows once the key of `selection` is known to be loaded: the
/// selection is made the active profile if it is not the one that was, and
/// then its storage is opened.
pub open spec fn ready_spec(current: ProfileView, selection: ProfileView) -> (
    UnlockView,
    RequestView,
) {
    if selection.id != current.id {
        (UnlockView::Activating { selection }, RequestView::SetActive { id: selection.id })
    } else {
        (
            UnlockView::Opening { selection, activated: false },
            RequestView::OpenStorage { profile: selection },
        )
    }
}

/// The state after `event`, and the next request.
///
/// Without profiles, or when a new identity was asked for, the flow hands
/// over to the creation of an identity; an unreadable profile store counts as
/// one without profiles. Otherwise it runs from the active profile over the
/// selection, the agent's answer and, if the key is not loaded, the
/// passphrase, to the storage that signs with the key. An event that reports
/// a failure ends the flow with that failure. An event that does not answer
/// the pending request ends it with `Storage`. An ended flow stays as it is.
pub open spec fn step_spec(state: UnlockView, event: EventView) -> (UnlockView, RequestView) {
    match state {
        UnlockView::Listing { init } => match event {
            EventView::Listed(Ok(profiles)) => if init || profiles.len() == 0 {
                (UnlockView::Done(OutcomeView::Bootstrap), RequestView::Bootstrap)
            } else {
                (UnlockView::Default { profiles }, RequestView::FetchDefault)
            },
            EventView::Listed(Err(_)) => (
                UnlockView::Done(OutcomeView::Bootstrap),
                RequestView::Bootstrap,
            ),
            _ => failed(Error::Storage),
        },
        UnlockView::Default { profiles } => match event {
            EventView::Default(Ok(current)) => if needs_prompt_spec(profiles) {
                (
                    UnlockView::Choosing { profiles, current },
                    RequestView::Choose { candidates: profiles, current },
                )
            } else {
                (
                    UnlockView::Probing { current, selection: current },
                    RequestView::CheckReady { profile: current },
                )
            },
            EventView::Default(Err(e)) => failed(e),
            _ => failed(Error::Storage),
        },
        UnlockView::Choosing { profiles, current } => match event {
            EventView::Chosen(choice) => match select_spec(profiles, current, choice) {
                Ok(selection) => (
                    UnlockView::Probing { current, selection },
                    RequestView::CheckReady { profile: selection },
                ),
                Err(e) => failed(e),
            },
            _ => failed(Error::Storage),
        },
        UnlockView::Probing { current, selection } => match event {
            EventView::Readiness(Ok(true)) => ready_spec(current, selection),
            EventView::Readiness(Ok(false)) => (
                UnlockView::Passphrase { current, selection },
                RequestView::AskPassphrase,
            ),
            EventView::Readiness(Err(e)) => failed(e),
            _ => failed(Error::Storage),
        },
        UnlockView::Passphrase { current, selection } => match event {
            EventView::Passphrase(passphrase) => (
                UnlockView::Adding { current, selection },
                RequestView::AddKey { profile: selection, passphrase },
            ),
            _ => failed(Error::Storage),
        },
        UnlockView::Adding { current, selection } => match event {
            EventView::KeyAdded(Ok(_)) => ready_spec(current, selection),
            EventView::KeyAdded(Err(e)) => failed(e),
            _ => failed(Error::Storage),
        },
        UnlockView::Activating { selection } => match event {
            EventView::Activated(Ok(_)) => (
                UnlockView::Opening { selection, activated: true },
                RequestView::OpenStorage { profile: selection },
            ),
            EventView::Activated(Err(e)) => failed(e),
            _ => failed(Error::Storage),
        },
        UnlockView::Opening { selection, activated } => match event {
            EventView::StorageOpened(Ok(peer)) => (
                UnlockView::Configuring { selection, activated },
                RequestView::ConfigureSigningKey { root: selection.root, peer },
            ),
            EventView::StorageOpened(Err(e)) => failed(e),
            _ => failed(Error::Storage),
        },
        UnlockView::Configuring { selection, activated } => match event {
            EventView::SigningKeyConfigured(Ok(_)) => (
                UnlockView::Done(OutcomeView::Unlocked { profile: selection, activated }),
                RequestView::Finish,
            ),
            EventView::SigningKeyConfigured(Err(e)) => failed(e),
            _ => failed(Error::Storage),
        },
        UnlockView::Done(outcome) => (UnlockView::Done(outcome), RequestView::Finish),
    }
}

/// How far the flow has come.
pub open spec fn rank(state: UnlockView) -> nat {
    match state {
        UnlockView::Listing { .. } => 0,
        UnlockView::Default { .. } => 1,
        UnlockView::Choosing { .. } => 2,
        UnlockView::Probing { .. } => 3,
        UnlockView::Passphrase { .. } => 4,
        UnlockView::Adding { .. } => 5,
        UnlockView::Activating { .. } => 6,
        UnlockView::Opening { .. } => 7,
        UnlockView::Configuring { .. } => 8,
        UnlockView::Done(_) => 9,
    }
}

fn fail(e: Error) -> (r: (Unlock, Request))
    ensures
        (r.0@, r.1@) == failed(e),
{
    (Unlock::Done(Outcome::Failed(e)), Request::Finish)
}

fn ready(current: Profile, selection: Profile) -> (r: (Unlock, Request))
    ensures
        (r.0@, r.1@) == ready_spec(current@, selection@),
{
    if !selection.id().same(current.id()) {
        let id = selection.id().clone();
        (Unlock::Activating { selection }, Request::SetActive { id })
    } else {
        let profile = selection.clone();
        (Unlock::Opening { selection, activated: false }, Request::OpenStorage { profile })
    }
}

impl Unlock {
    /// See [`start_spec`].
    pub fn start(options: Options) -> (r: (Unlock, Request))
        ensures
            (r.0@, r.1@) == start_spec(options),
    {
        if options.help {
            (Unlock::Done(Outcome::Usage), Request::ShowUsage)
        } else {
            (Unlock::Listing { init: options.init }, Request::ListProfiles)
        }
    }

    /// The outcome, once the flow has ended.
    pub fn outcome(&self) -> (o: Option<&Outcome>)
        ensures
            match o {
                Some(outcome) => self@ == UnlockView::Done(outcome@),
                None => !(self@ is Done),
            },
    {
        match self {
            Unlock::Done(outcome) => Some(outcome),
            _ => None,
        }
    }

    /// See [`step_spec`].
    pub fn step(self, event: Event) -> (r: (Unlock, Request))
        ensures
            (r.0@, r.1@) == step_spec(self@, event@),
    {
        match self {
            Unlock::Listing { init } => match event {
                Event::Listed(Ok(profiles)) => {
                    if init || profiles.len() == 0 {
                        (Unlock::Done(Outcome::Bootstrap), Request::Bootstrap)
                    } else {
                        (Unlock::Default { profiles }, Request::FetchDefault)
                    }
                },
                Event::Listed(Err(_)) => (Unlock::Done(Outcome::Bootstrap), Request::Bootstrap),
                _ => fail(Error::Storage),
            },
            Unlock::Default { profiles } => match event {
                Event::Default(Ok(current)) => {
                    if needs_prompt(&profiles) {
                        let candidates = copy_all(&profiles);
                        let shown = current.clone();
                        (
                            Unlock::Choosing { profiles, current },
                            Request::Choose { candidates, current: shown },
                        )
                    } else {
                        let profile = current.clone();
                        let selection = current.clone();
                        (Unlock::Probing { current, selection }, Request::CheckReady { profile })
                    }
                },
                Event::Default(Err(e)) => fail(e),
                _ => fail(Error::Storage),
            },
            Unlock::Choosing { profiles, current } => match event {
                Event::Chosen(choice) => match select(&profiles, &current, choice) {
                    Ok(selection) => {
                        let profile = selection.clone();
                        (Unlock::Probing { current, selection }, Request::CheckReady { profile })
                    },
                    Err(e) => fail(e),
                },
                _ => fail(Error::Storage),
            },
            Unlock::Probing { current, selection } => match event {
                Event::Readiness(Ok(true)) => ready(current, selection),
                Event::Readiness(Ok(false)) => (
                    Unlock::Passphrase { current, selection },
                    Request::AskPassphrase,
                ),
                Event::Readiness(Err(e)) => fail(e),
                _ => fail(Error::Storage),
            },
            Unlock::Passphrase { current, selection } => match event {
                Event::Passphrase(passphrase) => {
                    let profile = selection.clone();
                    (Unlock::Adding { current, selection }, Request::AddKey { profile, passphrase })
                },
                _ => fail(Error::Storage),
            },
            Unlock::Adding { current, selection } => match event {
                Event::KeyAdded(Ok(_)) => ready(current, selection),
                Event::KeyAdded(Err(e)) => fail(e),
                _ => fail(Error::Storage),
            },
            Unlock::Activating { selection } => match event {
                Event::Activated(Ok(_)) => {
                    let profile = selection.clone();
                    (
                        Unlock::Opening { selection, activated: true },
                        Request::OpenStorage { profile },
                    )
                },
                Event::Activated(Err(e)) => fail(e),
                _ => fail(Error::Storage),
            },
            Unlock::Opening { selection, activated } => match event {
                Event::StorageOpened(Ok(peer)) => {
                    let root = String::from_str(selection.root());
                    (
                        Unlock::Configuring { selection, activated },
                        Request::ConfigureSigningKey { root, peer },
                    )
                },
                Event::StorageOpened(Err(e)) => fail(e),
                _ => fail(Error::Storage),
            },
            Unlock::Configuring { selection, activated } => match event {
                Event::SigningKeyConfigured(Ok(_)) => (
                    Unlock::Done(Outcome::Unlocked { profile: selection, activated }),
                    Request::Finish,
                ),
                Event::SigningKeyConfigured(Err(e)) => fail(e),
                _ => fail(Error::Storage),
            },
            Unlock::Done(outcome) => (Unlock::Done(outcome), Request::Finish),
        }
    }
}

/// Whether `event` answers the request that is pending in `state`.
pub open spec fn expects(state: UnlockView, event: EventView) -> bool {
    match state {
        UnlockView::Listing { .. } => event is Listed,
        UnlockView::Default { .. } => event is Default,
        UnlockView::Choosing { .. } => event is Chosen,
        UnlockView::Probing { .. } => event is Readiness,
        UnlockView::Passphrase { .. } => event is Passphrase,
        UnlockView::Adding { .. } => event is KeyAdded,
        UnlockView::Activating { .. } => event is Activated,
        UnlockView::Opening { .. } => event is StorageOpened,
        UnlockView::Configuring { .. } => event is SigningKeyConfigured,
        UnlockView::Done(_) => false,
    }
}

/// Without profiles the flow always hands over to the creation of an
/// identity, and so it does when a new identity was asked for or the profiles
/// could not be enumerated.
pub proof fn law_no_profiles_hands_over(init: bool, listed: Result<Seq<ProfileView>, Error>)
    requires
        init || listed is Err || listed->Ok_0.len() == 0,
    ensures
        step_spec(UnlockView::Listing { init }, EventView::Listed(listed)) == (
            UnlockView::Done(OutcomeView::Bootstrap),
            RequestView::Bootstrap,
        ),
{
}

/// With a single profile nobody is asked: the flow goes on with the active
/// profile at once.
pub proof fn law_single_profile_not_prompted(profiles: Seq<ProfileView>, current: ProfileView)
    requires
        profiles.len() == 1,
    ensures
        step_spec(UnlockView::Default { profiles }, EventView::Default(Ok(current))) == (
            UnlockView::Probing { current, selection: current },
            RequestView::CheckReady { profile: current },
        ),
{
}

/// With several profiles the user is asked, with all of them to pick from,
/// and the flow goes on with exactly the one that was picked.
pub proof fn law_choice_is_selected(
    profiles: Seq<ProfileView>,
    current: ProfileView,
    choice: usize,
)
    requires
        profiles.len() >= 2,
        choice < profiles.len(),
    ensures
        step_spec(UnlockView::Default { profiles }, EventView::Default(Ok(current))) == (
            UnlockView::Choosing { profiles, current },
            RequestView::Choose { candidates: profiles, current },
        ),
        step_spec(UnlockView::Choosing { profiles, current }, EventView::Chosen(Some(choice)))
            == (
            UnlockView::Probing { current, selection: profiles[choice as int] },
            RequestView::CheckReady { profile: profiles[choice as int] },
        ),
{
}

/// A passphrase is asked for only when the agent said that the key is not
/// loaded, and a key is loaded only with a passphrase that was just typed,
/// for the profile that was selected.
pub proof fn law_passphrase_only_when_needed(state: UnlockView, event: EventView)
    ensures
        step_spec(state, event).1 is AskPassphrase ==> state is Probing && event
            == EventView::Readiness(Ok(false)),
        step_spec(state, event).1 is AddKey ==> (state matches UnlockView::Passphrase {
            selection,
            ..
        } && event matches EventView::Passphrase(passphrase) && step_spec(state, event).1
            == (RequestView::AddKey { profile: selection, passphrase })),
{
}

/// The active marker is set only to the selected profile, only once its key
/// is known to be loaded, and only if that profile was not active already.
pub proof fn law_activation_only_on_change(state: UnlockView, event: EventView)
    requires
        step_spec(state, event).1 is SetActive,
    ensures
        (state matches UnlockView::Probing { current, selection } && event
            == EventView::Readiness(Ok(true)) && selection.id != current.id && step_spec(
            state,
            event,
        ).1 == (RequestView::SetActive { id: selection.id })) || (state matches UnlockView::Adding {
            current,
            selection,
        } && event matches EventView::KeyAdded(Ok(_)) && selection.id != current.id && step_spec(
            state,
            event,
        ).1 == (RequestView::SetActive { id: selection.id })),
{
}

/// Every answer takes the flow further, so it ends after at most nine. An
/// ended flow stays as it is.
pub proof fn law_progress(state: UnlockView, event: EventView)
    ensures
        !(state is Done) ==> rank(step_spec(state, event).0) > rank(state),
        rank(step_spec(state, event).0) <= 9,
        state is Done ==> step_spec(state, event) == (state, RequestView::Finish),
{
}

/// A failure at any step after the enumeration of the profiles surfaces at
/// once and aborts the flow with that failure. A wrong passphrase therefore
/// ends the flow as `InvalidPassphrase`, an agent that does not answer as
/// `AgentUnreachable`.
pub proof fn law_failure_aborts(state: UnlockView, event: EventView, e: Error)
    requires
        expects(state, event),
        !(state is Listing),
        event.failure() == Some(e),
    ensures
        step_spec(state, event) == failed(e),
{
}

/// The flow ends unlocked only when the storage of the selected profile was
/// set to sign with its key.
pub proof fn law_unlocked_after_configuration(state: UnlockView, event: EventView)
    requires
        !(state is Done),
        step_spec(state, event).0 matches UnlockView::Done(OutcomeView::Unlocked { .. }),
    ensures
        state matches UnlockView::Configuring { selection, activated } && event
            matches EventView::SigningKeyConfigured(Ok(_)) && step_spec(state, event).0
            == UnlockView::Done(OutcomeView::Unlocked { profile: selection, activated }),
{
}

} // verus!
