//! A world held in memory: a registry and an agent that answer the requests
//! of the flows.
//!
//! It stands in for the profile store, the signing agent and the user where
//! none is at hand, and it is what the flows are held against: whatever is
//! typed and whatever decryption gives, a flow that runs against a world
//! keeps the two in step, and ends unlocked only when the agent holds the key
//! of the profile that the registry marks active.

use vstd::prelude::*;
use crate::bootstrap::{BootstrapView, CreatedView};
use crate::error::Error;
use crate::exchange::{Event, EventView, Request, RequestView};
use crate::keys::{add_spec, is_ready_spec, storage_spec, Agent, AgentView, Passphrase, Unseal};
use crate::person::{create_spec, Person};
use crate::profile::{copy_all, Profile, ProfileView, Urn};
use crate::registry::{active_profile, first_at, has_id, well_formed, Registry, RegistryView};
use crate::unlock::{OutcomeView, UnlockView};

verus! {

/// The registry and the agent that requests are carried out against.
pub struct World {
    pub registry: Registry,
    pub agent: Agent,
}

/// What contracts say of a world.
pub struct WorldView {
    pub registry: RegistryView,
    pub agent: AgentView,
}

impl View for World {
    type V = WorldView;

    open spec fn view(&self) -> WorldView {
        WorldView { registry: self.registry@, agent: self.agent@ }
    }
}

/// What comes from outside the world when a request is carried out: what the
/// user types and picks, what decrypting a key with the typed passphrase
/// gives, and what a creation yields.
pub struct Input {
    /// The place of the candidate that is picked.
    pub choice: Option<usize>,
    /// The username that is typed.
    pub username: String,
    /// The passphrase that is typed.
    pub passphrase: Passphrase,
    /// The passphrase that is typed again to confirm a new one.
    pub confirmation: Passphrase,
    /// What decrypting a persisted key with the passphrase gives.
    pub unseal: Unseal,
    /// The profile that creating one yields.
    pub fresh: Profile,
    /// The handle that signing a person record yields.
    pub urn: Urn,
}

/// What contracts say of an input.
pub struct InputView {
    pub choice: Option<usize>,
    pub username: Seq<char>,
    pub passphrase: Seq<char>,
    pub confirmation: Seq<char>,
    pub unseal: Unseal,
    pub fresh: ProfileView,
    pub urn: Seq<char>,
}

impl View for Input {
    type V = InputView;

    open spec fn view(&self) -> InputView {
        InputView {
            choice: self.choice,
            username: self.username@,
            passphrase: self.passphrase@,
            confirmation: self.confirmation@,
            unseal: self.unseal,
            fresh: self.fresh@,
            urn: self.urn@,
        }
    }
}

/// The view of an optional event.
pub open spec fn answer_view(answer: Option<Event>) -> Option<EventView> {
    match answer {
        Some(event) => Some(event@),
        None => None,
    }
}

/// The registry after an attempt to mark `id` active, and what the attempt
/// returns.
pub open spec fn set_active_spec(registry: RegistryView, id: Seq<char>) -> (
    RegistryView,
    Result<(), Error>,
) {
    if has_id(registry.profiles, id) {
        (RegistryView { profiles: registry.profiles, active: Some(id) }, Ok(()))
    } else {
        (registry, Err(Error::Storage))
    }
}

/// The world after a request was carried out, and the event that reports it.
/// The requests that end a flow or hand it over have no answer. Only two
/// requests change the world: loading a key changes the agent, and marking a
/// profile active changes the marker.
pub open spec fn answer_spec(world: WorldView, request: RequestView, input: InputView) -> (
    WorldView,
    Option<EventView>,
) {
    match request {
        RequestView::ShowUsage => (world, None),
        RequestView::Bootstrap => (world, None),
        RequestView::Finish => (world, None),
        RequestView::ListProfiles => (world, Some(EventView::Listed(Ok(world.registry.profiles)))),
        RequestView::FetchDefault => (
            world,
            Some(
                EventView::Default(
                    match active_profile(world.registry) {
                        Some(profile) => Ok(profile),
                        None => Err(Error::NoActiveProfile),
                    },
                ),
            ),
        ),
        RequestView::Choose { .. } => (world, Some(EventView::Chosen(input.choice))),
        RequestView::CheckReady { profile } => (
            world,
            Some(EventView::Readiness(is_ready_spec(world.agent, profile))),
        ),
        RequestView::AskUsername => (world, Some(EventView::Username(input.username))),
        RequestView::AskPassphrase => (world, Some(EventView::Passphrase(input.passphrase))),
        RequestView::AskNewPassphrase => (
            world,
            Some(
                EventView::NewPassphrase {
                    entry: input.passphrase,
                    confirmation: input.confirmation,
                },
            ),
        ),
        RequestView::CreateProfile { .. } => (
            world,
            Some(EventView::ProfileCreated(Ok(input.fresh))),
        ),
        RequestView::AddKey { profile, .. } => (
            WorldView {
                registry: world.registry,
                agent: add_spec(world.agent, profile, input.unseal).0,
            },
            Some(EventView::KeyAdded(add_spec(world.agent, profile, input.unseal).1)),
        ),
        RequestView::SetActive { id } => (
            WorldView { registry: set_active_spec(world.registry, id).0, agent: world.agent },
            Some(EventView::Activated(set_active_spec(world.registry, id).1)),
        ),
        RequestView::OpenStorage { profile } => (
            world,
            Some(
                EventView::StorageOpened(
                    match storage_spec(world.agent, profile) {
                        Ok((signer, _)) => Ok(signer.peer),
                        Err(e) => Err(e),
                    },
                ),
            ),
        ),
        RequestView::ConfigureSigningKey { .. } => (
            world,
            Some(EventView::SigningKeyConfigured(Ok(()))),
        ),
        RequestView::SignPerson { profile, username } => (
            world,
            Some(
                EventView::PersonSigned(
                    match storage_spec(world.agent, profile) {
                        Ok((signer, _)) => match create_spec(username, signer, input.urn) {
                            Ok(person) => Ok(person.urn),
                            Err(e) => Err(e),
                        },
                        Err(e) => Err(e),
                    },
                ),
            ),
        ),
    }
}

impl World {
    /// A world without profiles, with an agent that answers and holds no
    /// key.
    pub fn new() -> (world: World)
        ensures
            world.registry.wf(),
            world@.registry.profiles.len() == 0,
            world@.registry.active is None,
            world@.agent.reachable,
            world@.agent.loaded == Set::<Seq<char>>::empty(),
    {
        World { registry: Registry::new(), agent: Agent::new() }
    }

    /// Carries out a request. See [`answer_spec`].
    pub fn answer(&mut self, request: Request, input: Input) -> (answer: Option<Event>)
        requires
            old(self).registry.wf(),
        ensures
            final(self).registry.wf(),
            (final(self)@, answer_view(answer)) == answer_spec(old(self)@, request@, input@),
    {
        match request {
            Request::ShowUsage => None,
            Request::Bootstrap => None,
            Request::Finish => None,
            Request::ListProfiles => {
                let listed = copy_all(self.registry.list());
                Some(Event::Listed(Ok(listed)))
            },
            Request::FetchDefault => {
                match self.registry.default() {
                    Ok(profile) => Some(Event::Default(Ok(profile))),
                    Err(e) => {
                        Some(Event::Default(Err(e)))
                    },
                }
            },
            Request::Choose { .. } => Some(Event::Chosen(input.choice)),
            Request::CheckReady { profile } => Some(
                Event::Readiness(self.agent.is_ready(&profile)),
            ),
            Request::AskUsername => Some(Event::Username(input.username)),
            Request::AskPassphrase => Some(Event::Passphrase(input.passphrase)),
            Request::AskNewPassphrase => Some(
                Event::NewPassphrase { entry: input.passphrase, confirmation: input.confirmation },
            ),
            Request::CreateProfile { .. } => Some(Event::ProfileCreated(Ok(input.fresh))),
            Request::AddKey { profile, .. } => {
                let added = self.agent.add(&profile, input.unseal);
                Some(Event::KeyAdded(added))
            },
            Request::SetActive { id } => {
                match self.registry.set_active(&id) {
                    Ok(_) => Some(Event::Activated(Ok(()))),
                    Err(e) => Some(Event::Activated(Err(e))),
                }
            },
            Request::OpenStorage { profile } => {
                match self.agent.storage(&profile) {
                    Ok((signer, _)) => Some(Event::StorageOpened(Ok(signer.peer_id().clone()))),
                    Err(e) => Some(Event::StorageOpened(Err(e))),
                }
            },
            Request::ConfigureSigningKey { .. } => Some(Event::SigningKeyConfigured(Ok(()))),
            Request::SignPerson { profile, username } => {
                match self.agent.storage(&profile) {
                    Ok((signer, _)) => {
                        match Person::create(username.as_str(), &signer, input.urn) {
                            Ok(person) => Some(Event::PersonSigned(Ok(person.urn().clone()))),
                            Err(e) => Some(Event::PersonSigned(Err(e))),
                        }
                    },
                    Err(e) => Some(Event::PersonSigned(Err(e))),
                }
            },
        }
    }
}

/// The agent answers and holds the profile's key, and the registry holds the
/// profile and marks it active.
pub open spec fn unlocked(world: WorldView, profile: ProfileView) -> bool {
    &&& world.agent.reachable
    &&& world.agent.loaded.contains(profile.peer)
    &&& world.registry.profiles.contains(profile)
    &&& world.registry.active == Some(profile.id)
}

/// What holds of an unlock flow, its pending request and the world it runs
/// against, at every step.
pub open spec fn unlock_in_step(state: UnlockView, request: RequestView, world: WorldView) -> bool {
    match state {
        UnlockView::Listing { .. } => request is ListProfiles,
        UnlockView::Default { profiles } => {
            &&& request is FetchDefault
            &&& profiles == world.registry.profiles
        },
        UnlockView::Choosing { profiles, current } => {
            &&& request == (RequestView::Choose { candidates: profiles, current })
            &&& profiles == world.registry.profiles
            &&& active_profile(world.registry) == Some(current)
        },
        UnlockView::Probing { current, selection } => {
            &&& request == (RequestView::CheckReady { profile: selection })
            &&& world.registry.profiles.contains(selection)
            &&& active_profile(world.registry) == Some(current)
        },
        UnlockView::Passphrase { current, selection } => {
            &&& request is AskPassphrase
            &&& world.registry.profiles.contains(selection)
            &&& active_profile(world.registry) == Some(current)
        },
        UnlockView::Adding { current, selection } => {
            &&& request matches RequestView::AddKey { profile, .. } && profile == selection
            &&& world.registry.profiles.contains(selection)
            &&& active_profile(world.registry) == Some(current)
        },
        UnlockView::Activating { selection } => {
            &&& request == (RequestView::SetActive { id: selection.id })
            &&& world.registry.profiles.contains(selection)
            &&& world.agent.reachable
            &&& world.agent.loaded.contains(selection.peer)
        },
        UnlockView::Opening { selection, .. } => {
            &&& request == (RequestView::OpenStorage { profile: selection })
            &&& unlocked(world, selection)
        },
        UnlockView::Configuring { selection, .. } => {
            &&& request == (
                RequestView::ConfigureSigningKey { root: selection.root, peer: selection.peer }
            )
            &&& unlocked(world, selection)
        },
        UnlockView::Done(OutcomeView::Unlocked { profile, .. }) => {
            &&& request is Finish
            &&& unlocked(world, profile)
        },
        UnlockView::Done(_) => true,
    }
}

/// What holds of a bootstrap flow, its pending request and the world it runs
/// against, at every step.
pub open spec fn bootstrap_in_step(
    state: BootstrapView,
    request: RequestView,
    world: WorldView,
) -> bool {
    match state {
        BootstrapView::Username => request is AskUsername,
        BootstrapView::Passphrase { .. } => request is AskNewPassphrase,
        BootstrapView::Creating { passphrase, .. } => request == (
            RequestView::CreateProfile { passphrase }
        ),
        BootstrapView::Configuring { profile, .. } => request == (
            RequestView::ConfigureSigningKey { root: profile.root, peer: profile.peer }
        ),
        BootstrapView::Loading { profile, .. } => request matches RequestView::AddKey {
            profile: loaded,
            ..
        } && loaded == profile,
        BootstrapView::Signing { username, profile } => {
            &&& request == (RequestView::SignPerson { profile, username })
            &&& world.agent.reachable
            &&& world.agent.loaded.contains(profile.peer)
        },
        BootstrapView::Done(created) => {
            &&& request is Finish
            &&& world.agent.reachable
            &&& world.agent.loaded.contains(created.profile.peer)
            &&& created.person.peer == created.profile.peer
        },
        BootstrapView::Failed(_) => true,
    }
}

/// A flow that begins is in step with every world.
pub proof fn law_flows_begin_in_step(options: crate::unlock::Options, world: WorldView)
    ensures
        unlock_in_step(
            crate::unlock::start_spec(options).0,
            crate::unlock::start_spec(options).1,
            world,
        ),
        bootstrap_in_step(
            crate::bootstrap::start_spec().0,
            crate::bootstrap::start_spec().1,
            world,
        ),
{
}

/// An unlock flow that is in step with the world stays so when its request
/// is carried out and the answer is fed back, whatever comes from outside.
/// The profiles of the registry are never changed on the way.
pub proof fn law_unlock_stays_in_step(
    state: UnlockView,
    request: RequestView,
    world: WorldView,
    input: InputView,
)
    requires
        well_formed(world.registry),
        unlock_in_step(state, request, world),
        !(state is Done),
    ensures
        answer_spec(world, request, input).1 is Some,
        well_formed(answer_spec(world, request, input).0.registry),
        answer_spec(world, request, input).0.registry.profiles == world.registry.profiles,
        unlock_in_step(
            crate::unlock::step_spec(state, answer_spec(world, request, input).1->Some_0).0,
            crate::unlock::step_spec(state, answer_spec(world, request, input).1->Some_0).1,
            answer_spec(world, request, input).0,
        ),
{
    let registry = world.registry;
    match state {
        UnlockView::Default { profiles } => {
            if let Some(current) = active_profile(registry) {
                lemma_active_is_member(registry);
            }
        },
        UnlockView::Choosing { profiles, current } => {
            if let Some(i) = input.choice {
                if i < profiles.len() {
                    assert(profiles.contains(profiles[i as int]));
                }
            }
            lemma_active_is_member(registry);
        },
        UnlockView::Probing { current, selection } => {
            lemma_active_is_member(registry);
        },
        UnlockView::Adding { current, selection } => {
            lemma_active_is_member(registry);
        },
        UnlockView::Activating { selection } => {
            let k = choose|k: int| 0 <= k < registry.profiles.len() && registry.profiles[k] == selection;
            assert(registry.profiles[k].id == selection.id);
        },
        _ => {},
    }
}

/// A flow that ended unlocked in step with the world left it so that the
/// agent reports the key of the profile ready and the registry gives that
/// profile as the active one.
pub proof fn law_unlocked_is_ready_and_active(
    world: WorldView,
    profile: ProfileView,
    activated: bool,
)
    requires
        well_formed(world.registry),
        unlock_in_step(
            UnlockView::Done(OutcomeView::Unlocked { profile, activated }),
            RequestView::Finish,
            world,
        ),
    ensures
        is_ready_spec(world.agent, profile) == Ok::<bool, Error>(true),
        active_profile(world.registry) == Some(profile),
{
    let registry = world.registry;
    let at = choose|k: int| 0 <= k < registry.profiles.len() && registry.profiles[k] == profile;
    assert(registry.profiles[at].id == profile.id);
    let first = choose|k: int| first_at(registry.profiles, profile.id, k);
    lemma_first_exists(registry.profiles, profile.id);
    assert(first == at);
}

/// A bootstrap flow that is in step with the world stays so when its request
/// is carried out and the answer is fed back, whatever comes from outside.
/// The registry is not touched on the way.
pub proof fn law_bootstrap_stays_in_step(
    state: BootstrapView,
    request: RequestView,
    world: WorldView,
    input: InputView,
)
    requires
        bootstrap_in_step(state, request, world),
        !(state is Done),
        !(state is Failed),
    ensures
        answer_spec(world, request, input).1 is Some,
        answer_spec(world, request, input).0.registry == world.registry,
        bootstrap_in_step(
            crate::bootstrap::step_spec(state, answer_spec(world, request, input).1->Some_0).0,
            crate::bootstrap::step_spec(state, answer_spec(world, request, input).1->Some_0).1,
            answer_spec(world, request, input).0,
        ),
{
}

/// A bootstrap flow that ended well in step with the world left it so that
/// the agent reports the new key ready, and the person record is bound to
/// that key.
pub proof fn law_created_is_ready(world: WorldView, created: CreatedView)
    requires
        bootstrap_in_step(BootstrapView::Done(created), RequestView::Finish, world),
    ensures
        is_ready_spec(world.agent, created.profile) == Ok::<bool, Error>(true),
        created.person.peer == created.profile.peer,
{
}

/// The active profile of a well-formed registry is one of its profiles and
/// has the identifier that the marker holds.
proof fn lemma_active_is_member(registry: RegistryView)
    requires
        well_formed(registry),
        active_profile(registry) is Some,
    ensures
        registry.profiles.contains(active_profile(registry)->Some_0),
        registry.active == Some(active_profile(registry)->Some_0.id),
{
    let id = registry.active->Some_0;
    lemma_first_exists(registry.profiles, id);
    let k = choose|k: int| first_at(registry.profiles, id, k);
    assert(registry.profiles[k] == active_profile(registry)->Some_0);
}

/// Where an identifier occurs, it occurs at a first place.
proof fn lemma_first_exists(profiles: Seq<ProfileView>, id: Seq<char>)
    requires
        has_id(profiles, id),
    ensures
        exists|k: int| first_at(profiles, id, k),
    decreases profiles.len(),
{
    let w = choose|w: int| 0 <= w < profiles.len() && profiles[w].id == id;
    let front = profiles.take(w);
    if has_id(front, id) {
        lemma_first_exists(front, id);
        let k = choose|k: int| first_at(front, id, k);
        assert(first_at(profiles, id, k)) by {
            assert(profiles[k] == front[k]);
            assert forall|j: int| 0 <= j < k implies #[trigger] profiles[j].id != id by {
                assert(profiles[j] == front[j]);
            }
        }
    } else {
        assert(first_at(profiles, id, w)) by {
            assert forall|j: int| 0 <= j < w implies #[trigger] profiles[j].id != id by {
                assert(front[j] == profiles[j]);
                if profiles[j].id == id {
                    assert(front[j].id == id);
                }
            }
        }
    }
}

} // verus!
