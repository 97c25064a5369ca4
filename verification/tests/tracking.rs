use rad_identity::error::Error;
use rad_identity::profile::{PeerId, Urn};
use rad_identity::tracking::{Edge, Tracking, Untrack, UntrackAll};
use rad_identity::untrack::{plan, Options, Removal};

fn urn(name: &str) -> Urn {
    Urn::new(format!("rad:git:{}", name))
}

fn peer(name: &str) -> PeerId {
    PeerId::new(name.to_string())
}

fn edge(u: &str, p: Option<&str>) -> Edge {
    Edge::new(urn(u), p.map(peer))
}

fn graph() -> Tracking {
    let mut graph = Tracking::new();
    assert!(graph.track(&urn("x"), Some(&peer("pa"))));
    assert!(graph.track(&urn("y"), Some(&peer("pa"))));
    assert!(graph.track(&urn("x"), Some(&peer("pb"))));
    assert!(graph.track(&urn("x"), None));
    assert!(graph.track(&urn("y"), Some(&peer("pc"))));
    graph
}

#[test]
fn track_adds_an_edge_once() {
    let mut graph = Tracking::new();
    assert!(graph.track(&urn("x"), Some(&peer("pa"))));
    assert!(!graph.track(&urn("x"), Some(&peer("pa"))));
    assert_eq!(graph.edges(), &vec![edge("x", Some("pa"))]);
    assert!(graph.is_tracked(&urn("x"), Some(&peer("pa"))));
    assert!(!graph.is_tracked(&urn("x"), None));
    assert!(!graph.is_tracked(&urn("x"), Some(&peer("pb"))));
    assert!(!graph.is_tracked(&urn("y"), Some(&peer("pa"))));
}

#[test]
fn untrack_must_exist_on_a_missing_edge_is_tracking_edge_missing() {
    let mut graph = graph();
    let before = graph.edges().clone();
    assert_eq!(
        graph.untrack(&urn("x"), &peer("pc"), Untrack::MustExist),
        Err(Error::TrackingEdgeMissing)
    );
    assert_eq!(
        graph.untrack(&urn("z"), &peer("pa"), Untrack::MustExist),
        Err(Error::TrackingEdgeMissing)
    );
    assert_eq!(graph.edges(), &before);
}

#[test]
fn untrack_must_exist_on_an_empty_graph_is_tracking_edge_missing() {
    let mut graph = Tracking::new();
    assert_eq!(
        graph.untrack(&urn("x"), &peer("pa"), Untrack::MustExist),
        Err(Error::TrackingEdgeMissing)
    );
    assert!(graph.edges().is_empty());
}

#[test]
fn untrack_removes_exactly_that_edge() {
    let mut graph = graph();
    assert_eq!(graph.untrack(&urn("x"), &peer("pa"), Untrack::MustExist), Ok(true));
    assert_eq!(
        graph.edges(),
        &vec![
            edge("y", Some("pa")),
            edge("x", Some("pb")),
            edge("x", None),
            edge("y", Some("pc")),
        ]
    );
    assert!(!graph.is_tracked(&urn("x"), Some(&peer("pa"))));
    assert!(graph.is_tracked(&urn("x"), Some(&peer("pb"))));
    assert!(graph.is_tracked(&urn("x"), None));
    assert!(graph.is_tracked(&urn("y"), Some(&peer("pa"))));
}

#[test]
fn untrack_twice_fails_the_second_time() {
    let mut graph = graph();
    assert_eq!(graph.untrack(&urn("x"), &peer("pb"), Untrack::MustExist), Ok(true));
    assert_eq!(
        graph.untrack(&urn("x"), &peer("pb"), Untrack::MustExist),
        Err(Error::TrackingEdgeMissing)
    );
    assert_eq!(graph.edges().len(), 4);
}

#[test]
fn untrack_any_on_a_missing_edge_succeeds_and_removes_nothing() {
    let mut graph = graph();
    let before = graph.edges().clone();
    assert_eq!(graph.untrack(&urn("x"), &peer("pc"), Untrack::Any), Ok(false));
    assert_eq!(graph.edges(), &before);
    assert_eq!(graph.untrack(&urn("x"), &peer("pa"), Untrack::Any), Ok(true));
    assert_eq!(graph.edges().len(), 4);
}

#[test]
fn untrack_all_of_an_untracked_urn_succeeds_and_removes_nothing() {
    let mut graph = graph();
    let before = graph.edges().clone();
    let removed = graph.untrack_all(&urn("z"), UntrackAll::Any);
    assert!(removed.is_empty());
    assert_eq!(graph.edges(), &before);
    let mut empty = Tracking::new();
    assert!(empty.untrack_all(&urn("x"), UntrackAll::Any).is_empty());
    assert!(empty.edges().is_empty());
}

#[test]
fn untrack_all_removes_exactly_the_edges_of_the_urn() {
    let mut graph = graph();
    let removed = graph.untrack_all(&urn("x"), UntrackAll::Any);
    assert_eq!(removed, vec![edge("x", Some("pa")), edge("x", Some("pb")), edge("x", None)]);
    assert_eq!(graph.edges(), &vec![edge("y", Some("pa")), edge("y", Some("pc"))]);
    let again = graph.untrack_all(&urn("x"), UntrackAll::Any);
    assert!(again.is_empty());
    assert_eq!(graph.edges().len(), 2);
}

#[test]
fn edge_keeps_what_it_was_made_of() {
    let scoped = edge("x", Some("pa"));
    assert_eq!(scoped.urn().as_str(), "rad:git:x");
    assert_eq!(scoped.peer().map(|p| p.as_str()), Some("pa"));
    assert_eq!(edge("x", None).peer(), None);
    assert_eq!(scoped.clone(), scoped);
    assert!(urn("x").same(&urn("x")));
    assert!(!urn("x").same(&urn("y")));
}

#[test]
fn plan_with_a_peer_removes_one_edge_that_must_exist() {
    let removal = plan(Options { urn: urn("x"), peer: Some(peer("pa")) });
    match &removal {
        Removal::Peer { urn: u, peer: p, policy } => {
            assert_eq!(u.as_str(), "rad:git:x");
            assert_eq!(p.as_str(), "pa");
            assert_eq!(*policy, Untrack::MustExist);
        }
        Removal::All { .. } => panic!("a peer was given"),
    }
    let mut graph = graph();
    assert_eq!(removal.apply(&mut graph), Ok(1));
    assert_eq!(graph.edges().len(), 4);
    assert_eq!(removal.apply(&mut graph), Err(Error::TrackingEdgeMissing));
    assert_eq!(graph.edges().len(), 4);
}

#[test]
fn plan_without_a_peer_removes_all_edges_under_any() {
    let removal = plan(Options { urn: urn("x"), peer: None });
    match &removal {
        Removal::All { urn: u, policy } => {
            assert_eq!(u.as_str(), "rad:git:x");
            assert_eq!(*policy, UntrackAll::Any);
        }
        Removal::Peer { .. } => panic!("no peer was given"),
    }
    let mut graph = graph();
    assert_eq!(removal.apply(&mut graph), Ok(3));
    assert_eq!(graph.edges(), &vec![edge("y", Some("pa")), edge("y", Some("pc"))]);
    assert_eq!(removal.apply(&mut graph), Ok(0));
    assert_eq!(graph.edges().len(), 2);
}

#[test]
fn removal_under_any_counts_a_missing_edge_as_zero() {
    let removal = Removal::Peer { urn: urn("x"), peer: peer("pz"), policy: Untrack::Any };
    let mut graph = graph();
    assert_eq!(removal.apply(&mut graph), Ok(0));
    assert_eq!(graph.edges().len(), 5);
}
