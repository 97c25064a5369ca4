use rad_identity::error::Error;
use rad_identity::profile::{PeerId, Profile, ProfileId};
use rad_identity::registry::{needs_prompt, position, select, Registry};

fn profile(name: &str) -> Profile {
    Profile::new(
        ProfileId::new(name.to_string()),
        format!("/home/user/.radicle/{}", name),
        PeerId::new(format!("peer-{}", name)),
    )
}

fn registry_of(names: &[&str]) -> Registry {
    let mut registry = Registry::new();
    for name in names {
        assert_eq!(registry.insert(profile(name)), Ok(()));
    }
    registry
}

#[test]
fn new_registry_is_empty_and_has_no_default() {
    let registry = Registry::new();
    assert!(registry.is_empty());
    assert!(registry.list().is_empty());
    assert_eq!(registry.default(), Err(Error::NoActiveProfile));
}

#[test]
fn list_keeps_the_order_of_insertion() {
    let registry = registry_of(&["a", "b", "c"]);
    let listed: Vec<&str> = registry.list().iter().map(|p| p.id().as_str()).collect();
    assert_eq!(listed, vec!["a", "b", "c"]);
    assert!(!registry.is_empty());
}

#[test]
fn insert_refuses_a_second_profile_with_the_same_id() {
    let mut registry = registry_of(&["a"]);
    let twin = Profile::new(
        ProfileId::new("a".to_string()),
        "/elsewhere".to_string(),
        PeerId::new("another-key".to_string()),
    );
    assert_eq!(registry.insert(twin), Err(Error::Storage));
    assert_eq!(registry.list().len(), 1);
    assert_eq!(registry.list()[0], profile("a"));
}

#[test]
fn insert_refuses_a_second_profile_with_the_same_key() {
    let mut registry = registry_of(&["a"]);
    let twin = Profile::new(
        ProfileId::new("b".to_string()),
        "/elsewhere".to_string(),
        PeerId::new("peer-a".to_string()),
    );
    assert_eq!(registry.insert(twin), Err(Error::Storage));
    assert_eq!(registry.list().len(), 1);
}

#[test]
fn default_fails_until_a_profile_is_marked_active() {
    let mut registry = registry_of(&["a", "b"]);
    assert_eq!(registry.default(), Err(Error::NoActiveProfile));
    assert_eq!(registry.set_active(&ProfileId::new("b".to_string())), Ok(()));
    assert_eq!(registry.default(), Ok(profile("b")));
}

#[test]
fn set_active_replaces_the_marker_and_leaves_the_profiles() {
    let mut registry = registry_of(&["a", "b", "c"]);
    assert_eq!(registry.set_active(&ProfileId::new("a".to_string())), Ok(()));
    assert_eq!(registry.set_active(&ProfileId::new("c".to_string())), Ok(()));
    assert_eq!(registry.default(), Ok(profile("c")));
    assert_eq!(registry.list(), &vec![profile("a"), profile("b"), profile("c")]);
}

#[test]
fn set_active_refuses_an_unknown_profile() {
    let mut registry = registry_of(&["a", "b"]);
    assert_eq!(registry.set_active(&ProfileId::new("a".to_string())), Ok(()));
    assert_eq!(registry.set_active(&ProfileId::new("z".to_string())), Err(Error::Storage));
    assert_eq!(registry.default(), Ok(profile("a")));
}

#[test]
fn single_profile_is_selected_without_a_prompt() {
    let mut registry = registry_of(&["only"]);
    registry.set_active(&ProfileId::new("only".to_string())).unwrap();
    let current = registry.default().unwrap();
    assert!(!needs_prompt(registry.list()));
    assert_eq!(select(registry.list(), &current, None), Ok(profile("only")));
    assert_eq!(select(registry.list(), &current, Some(0)), Ok(profile("only")));
    assert_eq!(select(registry.list(), &current, Some(7)), Ok(profile("only")));
}

#[test]
fn no_candidates_keep_the_current_profile() {
    let none: Vec<Profile> = Vec::new();
    assert!(!needs_prompt(&none));
    assert_eq!(select(&none, &profile("a"), Some(0)), Ok(profile("a")));
}

#[test]
fn several_profiles_select_exactly_the_chosen_one() {
    let mut registry = registry_of(&["a", "b", "c"]);
    registry.set_active(&ProfileId::new("a".to_string())).unwrap();
    let current = registry.default().unwrap();
    assert!(needs_prompt(registry.list()));
    assert_eq!(select(registry.list(), &current, Some(0)), Ok(profile("a")));
    assert_eq!(select(registry.list(), &current, Some(1)), Ok(profile("b")));
    assert_eq!(select(registry.list(), &current, Some(2)), Ok(profile("c")));
    assert_eq!(registry.list(), &vec![profile("a"), profile("b"), profile("c")]);
    assert_eq!(registry.default(), Ok(profile("a")));
}

#[test]
fn a_choice_that_names_no_candidate_fails() {
    let registry = registry_of(&["a", "b"]);
    let current = profile("a");
    assert_eq!(select(registry.list(), &current, Some(2)), Err(Error::Storage));
    assert_eq!(select(registry.list(), &current, None), Err(Error::Storage));
}

#[test]
fn position_finds_the_first_place_of_an_id() {
    let registry = registry_of(&["a", "b", "c"]);
    assert_eq!(position(registry.list(), &ProfileId::new("a".to_string())), Some(0));
    assert_eq!(position(registry.list(), &ProfileId::new("c".to_string())), Some(2));
    assert_eq!(position(registry.list(), &ProfileId::new("z".to_string())), None);
    let twice = vec![profile("x"), profile("y"), profile("x")];
    assert_eq!(position(&twice, &ProfileId::new("x".to_string())), Some(0));
}

#[test]
fn profile_keeps_what_it_was_made_of() {
    let p = profile("a");
    assert_eq!(p.id().as_str(), "a");
    assert_eq!(p.root(), "/home/user/.radicle/a");
    assert_eq!(p.peer().as_str(), "peer-a");
    assert_eq!(p.clone(), p);
    assert!(p.id().same(&ProfileId::new("a".to_string())));
    assert!(!p.id().same(&ProfileId::new("b".to_string())));
    assert!(p.peer().same(&PeerId::new("peer-a".to_string())));
    assert!(!p.peer().same(&PeerId::new("peer-b".to_string())));
}
