//! The untrack command: which removal it asks of the tracking graph.
//!
//! With a peer, the one edge to that peer is removed and has to exist.
//! Without, every edge of the identity is removed, and it is no failure if
//! there is none.

use vstd::prelude::*;
use crate::error::Error;
use crate::keys::storage_spec;
use crate::profile::{PeerId, Urn};
use crate::registry::active_profile;
use crate::tracking::{
    taken, untrack_all_spec, untrack_spec, EdgeView, Tracking, Untrack, UntrackAll,
};

use crate::world::{World, WorldView};

verus! {

/// What the command line asked for.
#[derive(Debug)]
pub struct Options {
    /// The identity to stop tracking.
    pub urn: Urn,
    /// The one peer to stop tracking it from, if only one.
    pub peer: Option<PeerId>,
}

/// A removal and the policy it is made under.
#[derive(Debug)]
#[allow(inconsistent_fields)]
pub enum Removal {
    /// Remove the edge from `urn` to `peer`.
    Peer { urn: Urn, peer: PeerId, policy: Untrack },
    /// Remove every edge of `urn`.
    All { urn: Urn, policy: UntrackAll },
}

/// What contracts say of a removal.
#[allow(inconsistent_fields)]
pub enum RemovalView {
    Peer { urn: Seq<char>, peer: Seq<char>, policy: Untrack },
    All { urn: Seq<char>, policy: UntrackAll },
}

impl View for Removal {
    type V = RemovalView;

    open spec fn view(&self) -> RemovalView {
        match *self {
            Removal::Peer { urn, peer, policy } => RemovalView::Peer {
                urn: urn@,
                peer: peer@,
                policy,
            },
            Removal::All { urn, policy } => RemovalView::All { urn: urn@, policy },
        }
    }
}

/// The removal that the options ask for.
pub open spec fn plan_spec(urn: Seq<char>, peer: Option<Seq<char>>) -> RemovalView {
    match peer {
        Some(peer) => RemovalView::Peer { urn, peer, policy: Untrack::MustExist },
        None => RemovalView::All { urn, policy: UntrackAll::Any },
    }
}

/// The graph after a removal, and the number of edges removed or the reason
/// why none was.
pub open spec fn apply_spec(edges: Seq<EdgeView>, removal: RemovalView) -> (
    Seq<EdgeView>,
    Result<nat, Error>,
) {
    match removal {
        RemovalView::Peer { urn, peer, policy } => (
            untrack_spec(edges, urn, peer, policy).0,
            match untrack_spec(edges, urn, peer, policy).1 {
                Ok(removed) => Ok(
                    if removed {
                        1nat
                    } else {
                        0nat
                    },
                ),
                Err(e) => Err(e),
            },
        ),
        RemovalView::All { urn, policy } => (
            untrack_all_spec(edges, urn, policy).0,
            Ok(untrack_all_spec(edges, urn, policy).1.len()),
        ),
    }
}

/// See [`plan_spec`].
pub fn plan(options: Options) -> (removal: Removal)
    ensures
        removal@ == plan_spec(
            options.urn@,
            match options.peer {
                Some(peer) => Some(peer@),
                None => None,
            },
        ),
{
    match options.peer {
        Some(peer) => Removal::Peer { urn: options.urn, peer, policy: Untrack::MustExist },
        None => Removal::All { urn: options.urn, policy: UntrackAll::Any },
    }
}

impl Removal {
    /// See [`apply_spec`].
    pub fn apply(&self, graph: &mut Tracking) -> (r: Result<usize, Error>)
        requires
            old(graph).wf(),
        ensures
            final(graph).wf(),
            final(graph)@ == apply_spec(old(graph)@, self@).0,
            match r {
                Ok(n) => apply_spec(old(graph)@, self@).1 == Ok::<nat, Error>(n as nat),
                Err(e) => apply_spec(old(graph)@, self@).1 == Err::<nat, Error>(e),
            },
    {
        match self {
            Removal::Peer { urn, peer, policy } => {
                match graph.untrack(urn, peer, *policy) {
                    Ok(true) => Ok(1),
                    Ok(false) => Ok(0),
                    Err(e) => Err(e),
                }
            },
            Removal::All { urn, policy } => {
                let removed = graph.untrack_all(urn, *policy);
                Ok(removed.len())
            },
        }
    }
}

/// What the command does against a world and a graph, and what it returns.
/// It needs an active profile, or fails with `NoActiveProfile`, and an agent
/// that lets the profile's storage be opened, or fails as the agent does.
/// Only then is the removal made. A command that fails removes nothing.
pub open spec fn run_spec(
    world: WorldView,
    edges: Seq<EdgeView>,
    urn: Seq<char>,
    peer: Option<Seq<char>>,
) -> (Seq<EdgeView>, Result<nat, Error>) {
    match active_profile(world.registry) {
        None => (edges, Err(Error::NoActiveProfile)),
        Some(profile) => match storage_spec(world.agent, profile) {
            Err(e) => (edges, Err(e)),
            Ok(_) => apply_spec(edges, plan_spec(urn, peer)),
        },
    }
}

/// See [`run_spec`]. The world is only read.
pub fn run(options: Options, world: &World, graph: &mut Tracking) -> (r: Result<usize, Error>)
    requires
        world.registry.wf(),
        old(graph).wf(),
    ensures
        final(graph).wf(),
        final(graph)@ == run_spec(
            world@,
            old(graph)@,
            options.urn@,
            match options.peer {
                Some(peer) => Some(peer@),
                None => None,
            },
        ).0,
        match r {
            Ok(n) => run_spec(
                world@,
                old(graph)@,
                options.urn@,
                match options.peer {
                    Some(peer) => Some(peer@),
                    None => None,
                },
            ).1 == Ok::<nat, Error>(n as nat),
            Err(e) => run_spec(
                world@,
                old(graph)@,
                options.urn@,
                match options.peer {
                    Some(peer) => Some(peer@),
                    None => None,
                },
            ).1 == Err::<nat, Error>(e),
        },
{
    let profile = match world.registry.default() {
        Ok(profile) => profile,
        Err(e) => {
            return Err(e);
        },
    };
    match world.agent.storage(&profile) {
        Ok(_) => {},
        Err(e) => {
            return Err(e);
        },
    }
    plan(options).apply(graph)
}

/// A failed command leaves the graph as it was.
pub proof fn law_failure_removes_nothing(
    world: WorldView,
    edges: Seq<EdgeView>,
    urn: Seq<char>,
    peer: Option<Seq<char>>,
)
    requires
        run_spec(world, edges, urn, peer).1 is Err,
    ensures
        run_spec(world, edges, urn, peer).0 == edges,
{
}

/// The command with a peer fails with `TrackingEdgeMissing`, and removes
/// nothing, when the edge to that peer does not exist.
pub proof fn law_peer_must_be_tracked(edges: Seq<EdgeView>, urn: Seq<char>, peer: Seq<char>)
    requires
        !edges.contains(EdgeView { urn, peer: Some(peer) }),
    ensures
        apply_spec(edges, plan_spec(urn, Some(peer))) == (
            edges,
            Err::<nat, Error>(Error::TrackingEdgeMissing),
        ),
{
}

/// The command without a peer never fails, and the number it returns is the
/// number of edges that the identity had.
pub proof fn law_all_never_fails(edges: Seq<EdgeView>, urn: Seq<char>)
    ensures
        apply_spec(edges, plan_spec(urn, None)).1 == Ok::<nat, Error>(
            taken(edges, urn, None).len(),
        ),
{
}

} // verus!
