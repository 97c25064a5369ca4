use rad_identity::error::Error;
use rad_identity::exchange::{Event, Request};
use rad_identity::keys::{Passphrase, Unseal};
use rad_identity::profile::{PeerId, Profile, ProfileId, Urn};
use rad_identity::unlock::{Options, Outcome, Unlock};
use rad_identity::world::{Input, World};

fn profile(name: &str) -> Profile {
    Profile::new(
        ProfileId::new(name.to_string()),
        format!("/home/user/.radicle/{}", name),
        PeerId::new(format!("peer-{}", name)),
    )
}

fn world_of(names: &[&str], active: Option<&str>) -> World {
    let mut world = World::new();
    for name in names {
        world.registry.insert(profile(name)).unwrap();
    }
    if let Some(name) = active {
        world.registry.set_active(&ProfileId::new(name.to_string())).unwrap();
    }
    world
}

fn input(choice: Option<usize>, unseal: Unseal) -> Input {
    Input {
        choice,
        username: String::new(),
        passphrase: Passphrase::new("correct-pw".to_string()),
        confirmation: Passphrase::new("correct-pw".to_string()),
        unseal,
        fresh: profile("fresh"),
        urn: Urn::new("rad:git:fresh".to_string()),
    }
}

fn name_of(request: &Request) -> &'static str {
    match request {
        Request::ShowUsage => "ShowUsage",
        Request::ListProfiles => "ListProfiles",
        Request::FetchDefault => "FetchDefault",
        Request::Choose { .. } => "Choose",
        Request::CheckReady { .. } => "CheckReady",
        Request::AskUsername => "AskUsername",
        Request::AskPassphrase => "AskPassphrase",
        Request::AskNewPassphrase => "AskNewPassphrase",
        Request::CreateProfile { .. } => "CreateProfile",
        Request::AddKey { .. } => "AddKey",
        Request::SetActive { .. } => "SetActive",
        Request::OpenStorage { .. } => "OpenStorage",
        Request::ConfigureSigningKey { .. } => "ConfigureSigningKey",
        Request::SignPerson { .. } => "SignPerson",
        Request::Bootstrap => "Bootstrap",
        Request::Finish => "Finish",
    }
}

/// Runs the flow against the world to its end and returns the outcome with
/// the names of the requests that were made, in order.
fn run(options: Options, world: &mut World, choice: Option<usize>, unseal: Unseal) -> (Outcome, Vec<&'static str>) {
    let (mut state, mut request) = Unlock::start(options);
    let mut trace = vec![name_of(&request)];
    for _ in 0..12 {
        let event = match world.answer(request, input(choice, unseal)) {
            Some(event) => event,
            None => break,
        };
        let (next, asked) = state.step(event);
        state = next;
        request = asked;
        trace.push(name_of(&request));
    }
    match state {
        Unlock::Done(outcome) => (outcome, trace),
        _ => panic!("the flow did not end"),
    }
}

const UNLOCK: Options = Options { init: false, help: false };

#[test]
fn help_shows_the_usage_and_nothing_else() {
    let (state, request) = Unlock::start(Options { init: false, help: true });
    assert!(matches!(request, Request::ShowUsage));
    assert!(matches!(state.outcome(), Some(Outcome::Usage)));
    let (state, request) = Unlock::start(Options { init: true, help: true });
    assert!(matches!(request, Request::ShowUsage));
    assert!(matches!(state, Unlock::Done(Outcome::Usage)));
}

#[test]
fn no_profiles_delegate_to_bootstrap() {
    let mut world = World::new();
    let (outcome, trace) = run(UNLOCK, &mut world, None, Unseal::Opened);
    assert!(matches!(outcome, Outcome::Bootstrap));
    assert_eq!(trace, vec!["ListProfiles", "Bootstrap"]);
}

#[test]
fn unreadable_profile_store_delegates_to_bootstrap() {
    let (state, _) = Unlock::start(UNLOCK);
    let (state, request) = state.step(Event::Listed(Err(Error::Storage)));
    assert!(matches!(request, Request::Bootstrap));
    assert!(matches!(state, Unlock::Done(Outcome::Bootstrap)));
}

#[test]
fn init_forces_bootstrap_even_with_profiles() {
    let mut world = world_of(&["a", "b"], Some("a"));
    let (outcome, trace) = run(Options { init: true, help: false }, &mut world, None, Unseal::Opened);
    assert!(matches!(outcome, Outcome::Bootstrap));
    assert_eq!(trace, vec!["ListProfiles", "Bootstrap"]);
}

#[test]
fn no_active_profile_aborts() {
    let mut world = world_of(&["a"], None);
    let (outcome, trace) = run(UNLOCK, &mut world, None, Unseal::Opened);
    assert!(matches!(outcome, Outcome::Failed(Error::NoActiveProfile)));
    assert_eq!(trace, vec!["ListProfiles", "FetchDefault", "Finish"]);
}

#[test]
fn single_profile_with_loaded_key_needs_no_prompt_at_all() {
    let mut world = world_of(&["a"], Some("a"));
    world.agent.add(&profile("a"), Unseal::Opened).unwrap();
    let (outcome, trace) = run(UNLOCK, &mut world, None, Unseal::WrongPassphrase);
    match outcome {
        Outcome::Unlocked { profile: unlocked, activated } => {
            assert_eq!(unlocked, profile("a"));
            assert!(!activated);
        }
        _ => panic!("not unlocked"),
    }
    assert_eq!(
        trace,
        vec!["ListProfiles", "FetchDefault", "CheckReady", "OpenStorage", "ConfigureSigningKey", "Finish"]
    );
}

#[test]
fn single_profile_without_loaded_key_asks_for_the_passphrase() {
    let mut world = world_of(&["a"], Some("a"));
    let (outcome, trace) = run(UNLOCK, &mut world, None, Unseal::Opened);
    assert!(matches!(outcome, Outcome::Unlocked { activated: false, .. }));
    assert_eq!(
        trace,
        vec![
            "ListProfiles",
            "FetchDefault",
            "CheckReady",
            "AskPassphrase",
            "AddKey",
            "OpenStorage",
            "ConfigureSigningKey",
            "Finish"
        ]
    );
    assert_eq!(world.agent.is_ready(&profile("a")), Ok(true));
    assert_eq!(world.registry.default(), Ok(profile("a")));
}

#[test]
fn wrong_passphrase_aborts_as_invalid_passphrase() {
    let mut world = world_of(&["a"], Some("a"));
    let (outcome, trace) = run(UNLOCK, &mut world, None, Unseal::WrongPassphrase);
    assert!(matches!(outcome, Outcome::Failed(Error::InvalidPassphrase)));
    assert_eq!(
        trace,
        vec!["ListProfiles", "FetchDefault", "CheckReady", "AskPassphrase", "AddKey", "Finish"]
    );
    assert_eq!(world.agent.is_ready(&profile("a")), Ok(false));
}

#[test]
fn unreachable_agent_aborts_as_agent_unreachable() {
    let mut world = world_of(&["a"], Some("a"));
    world.agent.set_reachable(false);
    let (outcome, trace) = run(UNLOCK, &mut world, None, Unseal::Opened);
    assert!(matches!(outcome, Outcome::Failed(Error::AgentUnreachable)));
    assert_eq!(trace, vec!["ListProfiles", "FetchDefault", "CheckReady", "Finish"]);
}

#[test]
fn choosing_another_profile_loads_its_key_and_activates_it() {
    let mut world = world_of(&["a", "b", "c"], Some("a"));
    let (outcome, trace) = run(UNLOCK, &mut world, Some(2), Unseal::Opened);
    match outcome {
        Outcome::Unlocked { profile: unlocked, activated } => {
            assert_eq!(unlocked, profile("c"));
            assert!(activated);
        }
        _ => panic!("not unlocked"),
    }
    assert_eq!(
        trace,
        vec![
            "ListProfiles",
            "FetchDefault",
            "Choose",
            "CheckReady",
            "AskPassphrase",
            "AddKey",
            "SetActive",
            "OpenStorage",
            "ConfigureSigningKey",
            "Finish"
        ]
    );
    assert_eq!(world.registry.default(), Ok(profile("c")));
    assert_eq!(world.registry.list(), &vec![profile("a"), profile("b"), profile("c")]);
    assert_eq!(world.agent.is_ready(&profile("c")), Ok(true));
    assert_eq!(world.agent.is_ready(&profile("a")), Ok(false));
    assert_eq!(world.agent.is_ready(&profile("b")), Ok(false));
}

#[test]
fn choosing_the_active_profile_activates_nothing() {
    let mut world = world_of(&["a", "b"], Some("b"));
    let (outcome, trace) = run(UNLOCK, &mut world, Some(1), Unseal::Opened);
    assert!(matches!(outcome, Outcome::Unlocked { activated: false, .. }));
    assert!(!trace.contains(&"SetActive"));
    assert!(trace.contains(&"Choose"));
    assert_eq!(world.registry.default(), Ok(profile("b")));
}

#[test]
fn a_choice_that_names_no_candidate_aborts() {
    let mut world = world_of(&["a", "b"], Some("a"));
    let (outcome, trace) = run(UNLOCK, &mut world, Some(5), Unseal::Opened);
    assert!(matches!(outcome, Outcome::Failed(Error::Storage)));
    assert_eq!(trace, vec!["ListProfiles", "FetchDefault", "Choose", "Finish"]);
    assert_eq!(world.registry.default(), Ok(profile("a")));
}

#[test]
fn choose_presents_all_candidates_and_the_current_one() {
    let (state, _) = Unlock::start(UNLOCK);
    let (state, _) = state.step(Event::Listed(Ok(vec![profile("a"), profile("b")])));
    let (state, request) = state.step(Event::Default(Ok(profile("b"))));
    match request {
        Request::Choose { candidates, current } => {
            assert_eq!(candidates, vec![profile("a"), profile("b")]);
            assert_eq!(current, profile("b"));
        }
        _ => panic!("no prompt"),
    }
    let (_, request) = state.step(Event::Chosen(Some(0)));
    match request {
        Request::CheckReady { profile: checked } => assert_eq!(checked, profile("a")),
        _ => panic!("no probe"),
    }
}

#[test]
fn add_key_carries_the_selection_and_the_typed_passphrase() {
    let (state, _) = Unlock::start(UNLOCK);
    let (state, _) = state.step(Event::Listed(Ok(vec![profile("a")])));
    let (state, _) = state.step(Event::Default(Ok(profile("a"))));
    let (state, request) = state.step(Event::Readiness(Ok(false)));
    assert!(matches!(request, Request::AskPassphrase));
    let (state, request) = state.step(Event::Passphrase(Passphrase::new("s3cret".to_string())));
    match request {
        Request::AddKey { profile: loaded, passphrase } => {
            assert_eq!(loaded, profile("a"));
            assert_eq!(passphrase.expose(), "s3cret");
        }
        _ => panic!("no key is loaded"),
    }
    let (state, request) = state.step(Event::KeyAdded(Ok(ProfileId::new("a".to_string()))));
    assert!(matches!(request, Request::OpenStorage { .. }));
    let (_, request) = state.step(Event::StorageOpened(Ok(PeerId::new("peer-a".to_string()))));
    match request {
        Request::ConfigureSigningKey { root, peer } => {
            assert_eq!(root, "/home/user/.radicle/a");
            assert_eq!(peer.as_str(), "peer-a");
        }
        _ => panic!("the storage is not configured"),
    }
}

#[test]
fn failures_of_later_steps_abort_with_their_own_error() {
    let begin = || {
        let (state, _) = Unlock::start(UNLOCK);
        let (state, _) = state.step(Event::Listed(Ok(vec![profile("a"), profile("b")])));
        let (state, _) = state.step(Event::Default(Ok(profile("a"))));
        let (state, _) = state.step(Event::Chosen(Some(1)));
        let (state, request) = state.step(Event::Readiness(Ok(true)));
        match request {
            Request::SetActive { id } => assert_eq!(id.as_str(), "b"),
            _ => panic!("the selection is not activated"),
        }
        state
    };
    let (state, request) = begin().step(Event::Activated(Err(Error::Storage)));
    assert!(matches!(request, Request::Finish));
    assert!(matches!(state, Unlock::Done(Outcome::Failed(Error::Storage))));

    let (state, _) = begin().step(Event::Activated(Ok(())));
    let (state, _) = state.step(Event::StorageOpened(Err(Error::AgentUnreachable)));
    assert!(matches!(state, Unlock::Done(Outcome::Failed(Error::AgentUnreachable))));

    let (state, _) = begin().step(Event::Activated(Ok(())));
    let (state, _) = state.step(Event::StorageOpened(Ok(PeerId::new("peer-b".to_string()))));
    let (state, _) = state.step(Event::SigningKeyConfigured(Err(Error::Storage)));
    assert!(matches!(state, Unlock::Done(Outcome::Failed(Error::Storage))));
}

#[test]
fn an_event_out_of_turn_aborts() {
    let (state, _) = Unlock::start(UNLOCK);
    let (state, request) = state.step(Event::Readiness(Ok(true)));
    assert!(matches!(request, Request::Finish));
    assert!(matches!(state, Unlock::Done(Outcome::Failed(Error::Storage))));
}

#[test]
fn an_ended_flow_stays_as_it_is() {
    let (state, _) = Unlock::start(UNLOCK);
    let (state, _) = state.step(Event::Listed(Ok(Vec::new())));
    let (state, request) = state.step(Event::Readiness(Ok(true)));
    assert!(matches!(request, Request::Finish));
    assert!(matches!(state, Unlock::Done(Outcome::Bootstrap)));
    assert!(state.outcome().is_some());
}
