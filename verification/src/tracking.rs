//! Tracking relationships and their removal.
//!
//! A relationship is a directed edge from the local identity to a remote
//! identity, optionally scoped to one remote peer. The graph holds each edge
//! at most once, in the order in which the edges were added.

use vstd::prelude::*;
use crate::error::Error;
use crate::profile::{PeerId, Urn};

verus! {

/// What contracts say of an edge.
pub struct EdgeView {
    pub urn: Seq<char>,
    pub peer: Option<Seq<char>>,
}

/// One tracking relationship.
#[derive(Debug, PartialEq, Eq)]
pub struct Edge {
    urn: Urn,
    peer: Option<PeerId>,
}

/// The view of an optional peer.
pub open spec fn scope_view(scope: Option<&PeerId>) -> Option<Seq<char>> {
    match scope {
        Some(peer) => Some(peer@),
        None => None,
    }
}

impl View for Edge {
    type V = EdgeView;

    closed spec fn view(&self) -> EdgeView {
        EdgeView {
            urn: self.urn@,
            peer: match self.peer {
                Some(peer) => Some(peer@),
                None => None,
            },
        }
    }
}

impl Edge {
    pub fn new(urn: Urn, peer: Option<PeerId>) -> (edge: Edge)
        ensures
            edge@.urn == urn@,
            edge@.peer == match peer {
                Some(p) => Some(p@),
                None => None,
            },
    {
        Edge { urn, peer }
    }

    /// The remote identity that is tracked.
    pub fn urn(&self) -> (urn: &Urn)
        ensures
            urn@ == self@.urn,
    {
        &self.urn
    }

    /// The remote peer the edge is scoped to, if it is scoped.
    pub fn peer(&self) -> (peer: Option<&PeerId>)
        ensures
            scope_view(peer) == self@.peer,
    {
        match &self.peer {
            Some(peer) => Some(peer),
            None => None,
        }
    }

    /// Whether a removal for `urn`, scoped to `scope` or to nothing, takes
    /// this edge.
    fn is_selected(&self, urn: &Urn, scope: Option<&PeerId>) -> (b: bool)
        ensures
            b == selected(self@, urn@, scope_view(scope)),
    {
        if !self.urn.same(urn) {
            return false;
        }
        match scope {
            None => true,
            Some(wanted) => match &self.peer {
                Some(peer) => peer.same(wanted),
                None => false,
            },
        }
    }
}

impl Clone for Edge {
    fn clone(&self) -> (edge: Edge)
        ensures
            edge@ == self@,
    {
        Edge {
            urn: self.urn.clone(),
            peer: match &self.peer {
                Some(peer) => Some(peer.clone()),
                None => None,
            },
        }
    }
}

/// What removing one edge does when the edge is not there.
#[derive(Clone, Copy, Debug, PartialEq, Eq, Structural)]
pub enum Untrack {
    /// Nothing: the removal succeeds either way.
    Any,
    /// The removal fails with `TrackingEdgeMissing`.
    MustExist,
}

/// What removing all edges of an identity does when there are none.
#[derive(Clone, Copy, Debug, PartialEq, Eq, Structural)]
pub enum UntrackAll {
    /// Nothing: the removal succeeds either way.
    Any,
}

/// The views of a list of edges, in order.
pub open spec fn edge_views(edges: Seq<Edge>) -> Seq<EdgeView> {
    Seq::new(edges.len(), |i: int| edges[i]@)
}

/// Whether a removal for `urn` takes the edge: with a scope, only the edge to
/// that peer; without, every edge of the identity.
pub open spec fn selected(edge: EdgeView, urn: Seq<char>, scope: Option<Seq<char>>) -> bool {
    edge.urn == urn && (scope is None || edge.peer == scope)
}

/// The edges that a removal takes, in order.
pub open spec fn taken(edges: Seq<EdgeView>, urn: Seq<char>, scope: Option<Seq<char>>) -> Seq<
    EdgeView,
> {
    edges.filter(|e: EdgeView| selected(e, urn, scope))
}

/// The edges that a removal leaves, in order.
pub open spec fn left(edges: Seq<EdgeView>, urn: Seq<char>, scope: Option<Seq<char>>) -> Seq<
    EdgeView,
> {
    edges.filter(|e: EdgeView| !selected(e, urn, scope))
}

/// The graph after the removal of the edge from `urn` to `peer`, and what the
/// removal returns: whether an edge was removed, or `TrackingEdgeMissing` when
/// there was none and the policy asked for one.
pub open spec fn untrack_spec(
    edges: Seq<EdgeView>,
    urn: Seq<char>,
    peer: Seq<char>,
    policy: Untrack,
) -> (Seq<EdgeView>, Result<bool, Error>) {
    if edges.contains(EdgeView { urn, peer: Some(peer) }) {
        (left(edges, urn, Some(peer)), Ok(true))
    } else {
        (
            edges,
            match policy {
                Untrack::MustExist => Err(Error::TrackingEdgeMissing),
                Untrack::Any => Ok(false),
            },
        )
    }
}

/// The graph after the removal of every edge of `urn`, and the edges removed.
pub open spec fn untrack_all_spec(edges: Seq<EdgeView>, urn: Seq<char>, policy: UntrackAll) -> (
    Seq<EdgeView>,
    Seq<EdgeView>,
) {
    (left(edges, urn, None), taken(edges, urn, None))
}

/// The tracking graph of the local identity.
#[derive(Debug)]
pub struct Tracking {
    edges: Vec<Edge>,
}

impl View for Tracking {
    type V = Seq<EdgeView>;

    closed spec fn view(&self) -> Seq<EdgeView> {
        edge_views(self.edges@)
    }
}

impl Tracking {
    /// The invariant of a graph: no edge is held twice. `new` establishes it
    /// and every method keeps it.
    pub open spec fn wf(&self) -> bool {
        self@.no_duplicates()
    }

    /// A graph without edges.
    pub fn new() -> (graph: Tracking)
        ensures
            graph.wf(),
            graph@.len() == 0,
    {
        Tracking { edges: Vec::new() }
    }

    /// All edges, in the order in which they were added.
    pub fn edges(&self) -> (edges: &Vec<Edge>)
        ensures
            edge_views(edges@) == self@,
    {
        &self.edges
    }

    /// Whether the graph holds the edge from `urn` to `peer`.
    pub fn is_tracked(&self, urn: &Urn, peer: Option<&PeerId>) -> (b: bool)
        ensures
            b == self@.contains(EdgeView { urn: urn@, peer: scope_view(peer) }),
    {
        let ghost edge = EdgeView { urn: urn@, peer: scope_view(peer) };
        let mut i: usize = 0;
        while i < self.edges.len()
            invariant
                i <= self.edges.len(),
                edge == (EdgeView { urn: urn@, peer: scope_view(peer) }),
                forall|j: int| 0 <= j < i ==> #[trigger] self@[j] != edge,
            decreases self.edges.len() - i,
        {
            let here = &self.edges[i];
            let same_peer = match peer {
                Some(p) => match here.peer() {
                    Some(q) => q.same(p),
                    None => false,
                },
                None => here.peer().is_none(),
            };
            if here.urn().same(urn) && same_peer {
                assert(self@[i as int] == edge);
                return true;
            }
            i += 1;
        }
        false
    }

    /// Adds the edge from `urn` to `peer` unless it is there, and says
    /// whether it was added.
    pub fn track(&mut self, urn: &Urn, peer: Option<&PeerId>) -> (added: bool)
        requires
            old(self).wf(),
        ensures
            final(self).wf(),
            added == !old(self)@.contains(EdgeView { urn: urn@, peer: scope_view(peer) }),
            final(self)@ == if added {
                old(self)@.push(EdgeView { urn: urn@, peer: scope_view(peer) })
            } else {
                old(self)@
            },
    {
        if self.is_tracked(urn, peer) {
            return false;
        }
        let ghost before = self@;
        let edge = Edge {
            urn: urn.clone(),
            peer: match peer {
                Some(p) => Some(p.clone()),
                None => None,
            },
        };
        self.edges.push(edge);
        assert(self@ =~= before.push(edge@));
        true
    }

    /// Takes the selected edges out of the graph and returns them.
    fn take_out(&mut self, urn: &Urn, scope: Option<&PeerId>) -> (removed: Vec<Edge>)
        requires
            old(self).wf(),
        ensures
            final(self).wf(),
            final(self)@ == left(old(self)@, urn@, scope_view(scope)),
            edge_views(removed@) == taken(old(self)@, urn@, scope_view(scope)),
    {
        let ghost before = self@;
        let ghost keep = |e: EdgeView| !selected(e, urn@, scope_view(scope));
        let ghost take = |e: EdgeView| selected(e, urn@, scope_view(scope));
        let mut all: Vec<Edge> = Vec::new();
        std::mem::swap(&mut self.edges, &mut all);
        let mut removed: Vec<Edge> = Vec::new();
        let mut i: usize = 0;
        assert(before.take(0) =~= Seq::<EdgeView>::empty());
        assert(self@ =~= before.take(0).filter(keep)) by {
            reveal(Seq::filter);
        }
        assert(edge_views(removed@) =~= before.take(0).filter(take)) by {
            reveal(Seq::filter);
        }
        while i < all.len()
            invariant
                i <= all.len(),
                before == edge_views(all@),
                keep == |e: EdgeView| !selected(e, urn@, scope_view(scope)),
                take == |e: EdgeView| selected(e, urn@, scope_view(scope)),
                self@ == before.take(i as int).filter(keep),
                edge_views(removed@) == before.take(i as int).filter(take),
            decreases all.len() - i,
        {
            let edge = all[i].clone();
            let ghost kept = self@;
            let ghost gone = edge_views(removed@);
            proof {
                assert(before.take(i + 1) =~= before.take(i as int).push(edge@));
                before.take(i as int).lemma_filter_push(edge@, keep);
                before.take(i as int).lemma_filter_push(edge@, take);
            }
            if edge.is_selected(urn, scope) {
                removed.push(edge);
                assert(edge_views(removed@) =~= gone.push(edge@));
            } else {
                self.edges.push(edge);
                assert(self@ =~= kept.push(edge@));
            }
            i += 1;
        }
        proof {
            assert(before.take(all.len() as int) =~= before);
            lemma_filter_no_duplicates(before, keep);
        }
        removed
    }

    /// See [`untrack_spec`]. Edges to other peers and of other identities stay
    /// as they are, in their order.
    pub fn untrack(&mut self, urn: &Urn, peer: &PeerId, policy: Untrack) -> (r: Result<bool, Error>)
        requires
            old(self).wf(),
        ensures
            final(self).wf(),
            (final(self)@, r) == untrack_spec(old(self)@, urn@, peer@, policy),
    {
        if !self.is_tracked(urn, Some(peer)) {
            return match policy {
                Untrack::MustExist => Err(Error::TrackingEdgeMissing),
                Untrack::Any => Ok(false),
            };
        }
        let _ = self.take_out(urn, Some(peer));
        Ok(true)
    }

    /// See [`untrack_all_spec`]. It never fails; with no edge of `urn` it
    /// removes nothing.
    pub fn untrack_all(&mut self, urn: &Urn, policy: UntrackAll) -> (removed: Vec<Edge>)
        requires
            old(self).wf(),
        ensures
            final(self).wf(),
            (final(self)@, edge_views(removed@)) == untrack_all_spec(old(self)@, urn@, policy),
    {
        self.take_out(urn, None)
    }
}

/// Removing an edge that must exist and does not fails with
/// `TrackingEdgeMissing` and leaves the graph as it was.
pub proof fn law_untrack_missing_edge(edges: Seq<EdgeView>, urn: Seq<char>, peer: Seq<char>)
    requires
        !edges.contains(EdgeView { urn, peer: Some(peer) }),
    ensures
        untrack_spec(edges, urn, peer, Untrack::MustExist) == (
            edges,
            Err::<bool, Error>(Error::TrackingEdgeMissing),
        ),
        untrack_spec(edges, urn, peer, Untrack::Any) == (edges, Ok::<bool, Error>(false)),
{
}

/// Removing an edge that exists succeeds under either policy and removes
/// exactly that edge: it is gone, the graph is one edge shorter, and every
/// other edge, of the same identity or of another, is there as before.
pub proof fn law_untrack_removes_exactly_that_edge(
    edges: Seq<EdgeView>,
    urn: Seq<char>,
    peer: Seq<char>,
    policy: Untrack,
    other: EdgeView,
)
    requires
        edges.no_duplicates(),
        edges.contains(EdgeView { urn, peer: Some(peer) }),
    ensures
        untrack_spec(edges, urn, peer, policy).1 == Ok::<bool, Error>(true),
        untrack_spec(edges, urn, peer, policy).0.no_duplicates(),
        untrack_spec(edges, urn, peer, policy).0.len() == edges.len() - 1,
        !untrack_spec(edges, urn, peer, policy).0.contains(EdgeView { urn, peer: Some(peer) }),
        other != (EdgeView { urn, peer: Some(peer) }) ==> untrack_spec(
            edges,
            urn,
            peer,
            policy,
        ).0.contains(other) == edges.contains(other),
{
    let edge = EdgeView { urn, peer: Some(peer) };
    let keep = |e: EdgeView| !selected(e, urn, Some(peer));
    let take = |e: EdgeView| selected(e, urn, Some(peer));
    let gone = edges.filter(take);
    lemma_filter_no_duplicates(edges, keep);
    lemma_filter_no_duplicates(edges, take);
    lemma_filter_member(edges, keep, edge);
    lemma_filter_member(edges, keep, other);
    lemma_filter_member(edges, take, edge);
    lemma_filter_lengths(edges, take, keep);
    assert(gone.len() == 1) by {
        let k = choose|k: int| 0 <= k < gone.len() && gone[k] == edge;
        assert forall|j: int| 0 <= j < gone.len() implies gone[j] == edge by {
            edges.lemma_filter_pred(take, j);
        }
        if gone.len() > 1 {
            assert(gone[0] == gone[1]);
        }
    }
}

/// Removing all edges of an identity that has none removes nothing.
pub proof fn law_untrack_all_of_untracked(edges: Seq<EdgeView>, urn: Seq<char>)
    requires
        forall|i: int| 0 <= i < edges.len() ==> (#[trigger] edges[i]).urn != urn,
    ensures
        untrack_all_spec(edges, urn, UntrackAll::Any) == (edges, Seq::<EdgeView>::empty()),
{
    let keep = |e: EdgeView| !selected(e, urn, None);
    let take = |e: EdgeView| selected(e, urn, None);
    lemma_filter_lengths(edges, take, keep);
    assert(edges.filter(take).len() == 0) by {
        if edges.filter(take).len() > 0 {
            let e = edges.filter(take)[0];
            edges.lemma_filter_pred(take, 0);
            lemma_filter_member(edges, take, e);
        }
    }
    lemma_filter_all(edges, keep);
    assert(edges.filter(take) =~= Seq::<EdgeView>::empty());
}

/// Removing all edges of an identity removes exactly those: each edge of the
/// graph is either among the removed, if it is an edge of the identity, or
/// still in the graph, if it is not; nothing else is in either.
pub proof fn law_untrack_all_removes_exactly(edges: Seq<EdgeView>, urn: Seq<char>, edge: EdgeView)
    requires
        edges.no_duplicates(),
    ensures
        untrack_all_spec(edges, urn, UntrackAll::Any).0.no_duplicates(),
        untrack_all_spec(edges, urn, UntrackAll::Any).1.no_duplicates(),
        untrack_all_spec(edges, urn, UntrackAll::Any).0.len() + untrack_all_spec(
            edges,
            urn,
            UntrackAll::Any,
        ).1.len() == edges.len(),
        untrack_all_spec(edges, urn, UntrackAll::Any).1.contains(edge) <==> edges.contains(edge)
            && edge.urn == urn,
        untrack_all_spec(edges, urn, UntrackAll::Any).0.contains(edge) <==> edges.contains(edge)
            && edge.urn != urn,
{
    let keep = |e: EdgeView| !selected(e, urn, None);
    let take = |e: EdgeView| selected(e, urn, None);
    lemma_filter_no_duplicates(edges, keep);
    lemma_filter_no_duplicates(edges, take);
    lemma_filter_member(edges, keep, edge);
    lemma_filter_member(edges, take, edge);
    lemma_filter_lengths(edges, take, keep);
}

/// What passes a filter is what was there and meets the condition.
proof fn lemma_filter_member(s: Seq<EdgeView>, pred: spec_fn(EdgeView) -> bool, e: EdgeView)
    ensures
        s.filter(pred).contains(e) <==> s.contains(e) && pred(e),
{
    if s.filter(pred).contains(e) {
        s.lemma_filter_contains_rev(pred, e);
        let k = choose|k: int| 0 <= k < s.filter(pred).len() && s.filter(pred)[k] == e;
        s.lemma_filter_pred(pred, k);
    }
    if s.contains(e) && pred(e) {
        let k = choose|k: int| 0 <= k < s.len() && s[k] == e;
        s.lemma_filter_contains(pred, k);
    }
}

/// A condition and its opposite part a sequence in two.
proof fn lemma_filter_lengths(
    s: Seq<EdgeView>,
    pred: spec_fn(EdgeView) -> bool,
    rest: spec_fn(EdgeView) -> bool,
)
    requires
        forall|e: EdgeView| #[trigger] rest(e) == !pred(e),
    ensures
        s.filter(pred).len() + s.filter(rest).len() == s.len(),
    decreases s.len(),
{
    reveal(Seq::filter);
    if s.len() > 0 {
        lemma_filter_lengths(s.drop_last(), pred, rest);
    }
}

/// A filter that every element passes changes nothing.
proof fn lemma_filter_all(s: Seq<EdgeView>, pred: spec_fn(EdgeView) -> bool)
    requires
        forall|i: int| 0 <= i < s.len() ==> pred(#[trigger] s[i]),
    ensures
        s.filter(pred) == s,
    decreases s.len(),
{
    reveal(Seq::filter);
    if s.len() > 0 {
        let front = s.drop_last();
        assert forall|i: int| 0 <= i < front.len() implies pred(#[trigger] front[i]) by {
            assert(front[i] == s[i]);
        }
        lemma_filter_all(front, pred);
        assert(front.push(s.last()) =~= s);
    }
}

/// What was without duplicates stays so when some of it is filtered out.
proof fn lemma_filter_no_duplicates(s: Seq<EdgeView>, pred: spec_fn(EdgeView) -> bool)
    requires
        s.no_duplicates(),
    ensures
        s.filter(pred).no_duplicates(),
    decreases s.len(),
{
    reveal(Seq::filter);
    if s.len() > 0 {
        let rest = s.drop_last();
        lemma_filter_no_duplicates(rest, pred);
        if pred(s.last()) {
            if rest.filter(pred).contains(s.last()) {
                rest.lemma_filter_contains_rev(pred, s.last());
                let k = choose|k: int| 0 <= k < rest.len() && rest[k] == s.last();
                assert(s[k] == s[s.len() - 1]);
            }
        }
    }
}

} // verus!
