use rad_identity::error::Error;
use rad_identity::keys::Unseal;
use rad_identity::profile::{PeerId, Profile, ProfileId, Urn};
use rad_identity::tracking::Tracking;
use rad_identity::untrack::{run, Options};
use rad_identity::world::World;

fn urn(name: &str) -> Urn {
    Urn::new(format!("rad:git:{}", name))
}

fn peer(name: &str) -> PeerId {
    PeerId::new(name.to_string())
}

fn world() -> World {
    let mut world = World::new();
    let profile = Profile::new(
        ProfileId::new("a".to_string()),
        "/home/user/.radicle/a".to_string(),
        PeerId::new("peer-a".to_string()),
    );
    world.agent.add(&profile, Unseal::Opened).unwrap();
    world.registry.insert(profile).unwrap();
    world.registry.set_active(&ProfileId::new("a".to_string())).unwrap();
    world
}

fn graph() -> Tracking {
    let mut graph = Tracking::new();
    graph.track(&urn("x"), Some(&peer("pa")));
    graph.track(&urn("x"), Some(&peer("pb")));
    graph.track(&urn("y"), Some(&peer("pa")));
    graph
}

#[test]
fn untrack_command_with_a_peer_removes_that_edge() {
    let mut graph = graph();
    let options = Options { urn: urn("x"), peer: Some(peer("pa")) };
    assert_eq!(run(options, &world(), &mut graph), Ok(1));
    assert!(!graph.is_tracked(&urn("x"), Some(&peer("pa"))));
    assert!(graph.is_tracked(&urn("x"), Some(&peer("pb"))));
    assert!(graph.is_tracked(&urn("y"), Some(&peer("pa"))));
    assert_eq!(graph.edges().len(), 2);
}

#[test]
fn untrack_command_with_an_untracked_peer_fails() {
    let mut graph = graph();
    let options = Options { urn: urn("y"), peer: Some(peer("pb")) };
    assert_eq!(run(options, &world(), &mut graph), Err(Error::TrackingEdgeMissing));
    assert_eq!(graph.edges().len(), 3);
}

#[test]
fn untrack_command_without_a_peer_removes_all_edges_of_the_urn() {
    let mut graph = graph();
    assert_eq!(run(Options { urn: urn("x"), peer: None }, &world(), &mut graph), Ok(2));
    assert_eq!(graph.edges().len(), 1);
    assert!(graph.is_tracked(&urn("y"), Some(&peer("pa"))));
    assert_eq!(run(Options { urn: urn("x"), peer: None }, &world(), &mut graph), Ok(0));
    assert_eq!(run(Options { urn: urn("z"), peer: None }, &world(), &mut graph), Ok(0));
    assert_eq!(graph.edges().len(), 1);
}

#[test]
fn untrack_command_needs_an_active_profile() {
    let mut graph = graph();
    let world = World::new();
    assert_eq!(
        run(Options { urn: urn("x"), peer: None }, &world, &mut graph),
        Err(Error::NoActiveProfile)
    );
    assert_eq!(graph.edges().len(), 3);
}

#[test]
fn untrack_command_needs_an_agent_that_answers() {
    let mut graph = graph();
    let mut world = world();
    world.agent.set_reachable(false);
    assert_eq!(
        run(Options { urn: urn("x"), peer: Some(peer("pa")) }, &world, &mut graph),
        Err(Error::AgentUnreachable)
    );
    assert_eq!(graph.edges().len(), 3);
}
