//! The follow graph: directed edges between users, at most one per ordered
//! pair and none from a user to themselves.

use vstd::prelude::*;

verus! {

/// A follow edge: `follower_id` follows `followed_id` since `created_at`.
#[derive(Debug, Clone, Copy, PartialEq, Eq)]
pub struct Follow {
    pub follower_id: u64,
    pub followed_id: u64,
    pub created_at: Option<i64>,
}

impl Follow {
    /// The ordered pair that the edge joins.
    pub open spec fn pair(self) -> (u64, u64) {
        (self.follower_id, self.followed_id)
    }
}

/// The two states of an ordered pair of users.
#[derive(Debug, Clone, Copy, PartialEq, Eq, Structural)]
pub enum EdgeState {
    Absent,
    Present,
}

/// The two transitions of an ordered pair.
#[derive(Debug, Clone, Copy, PartialEq, Eq, Structural)]
pub enum EdgeOp {
    Follow,
    Unfollow,
}

/// Why the graph refused an operation.
#[derive(Debug, Clone, PartialEq, Eq)]
pub enum FollowError {
    /// The operation makes no sense for any state, such as following oneself.
    InvalidOperation(String),
    /// The pair is not in the state that the operation starts from.
    Conflict(String),
}

/// A `FollowError` with its reason as a sequence of characters.
pub enum FollowErrorView {
    InvalidOperation(Seq<char>),
    Conflict(Seq<char>),
}

impl FollowErrorView {
    pub open spec fn reason(self) -> Seq<char> {
        match self {
            FollowErrorView::InvalidOperation(m) => m,
            FollowErrorView::Conflict(m) => m,
        }
    }
}

impl View for FollowError {
    type V = FollowErrorView;

    open spec fn view(&self) -> FollowErrorView {
        match *self {
            FollowError::InvalidOperation(m) => FollowErrorView::InvalidOperation(m@),
            FollowError::Conflict(m) => FollowErrorView::Conflict(m@),
        }
    }
}

/// The edges of a graph: the creation time of each pair that is present.
pub type Edges = Map<(u64, u64), Option<i64>>;

/// The state of the pair `(follower_id, followed_id)` among `edges`.
pub open spec fn state_of(edges: Edges, follower_id: u64, followed_id: u64) -> EdgeState {
    if edges.contains_key((follower_id, followed_id)) {
        EdgeState::Present
    } else {
        EdgeState::Absent
    }
}

/// The refusal of an operation on a pair of one user with themselves.
pub open spec fn self_reference(op: EdgeOp) -> FollowErrorView {
    match op {
        EdgeOp::Follow => FollowErrorView::InvalidOperation("self-follow"@),
        EdgeOp::Unfollow => FollowErrorView::InvalidOperation("self-unfollow"@),
    }
}

/// The state machine of one ordered pair: `Absent` becomes `Present` by
/// `Follow`, `Present` becomes `Absent` by `Unfollow`, and there is no other
/// transition.
pub open spec fn transition(state: EdgeState, op: EdgeOp) -> Result<EdgeState, FollowErrorView> {
    match (state, op) {
        (EdgeState::Absent, EdgeOp::Follow) => Ok(EdgeState::Present),
        (EdgeState::Present, EdgeOp::Follow) => Err(
            FollowErrorView::Conflict("already following"@),
        ),
        (EdgeState::Present, EdgeOp::Unfollow) => Ok(EdgeState::Absent),
        (EdgeState::Absent, EdgeOp::Unfollow) => Err(FollowErrorView::Conflict("not following"@)),
    }
}

/// What `op` on the pair `(follower_id, followed_id)` comes to when the pair
/// is in `state`: the self-reference check comes first, then the transition.
pub open spec fn attempt(op: EdgeOp, follower_id: u64, followed_id: u64, state: EdgeState) -> Result<
    EdgeState,
    FollowErrorView,
> {
    if follower_id == followed_id {
        Err(self_reference(op))
    } else {
        transition(state, op)
    }
}

/// The edges after `follow` at time `now`: the new edge joins them where the
/// operation is allowed, and nothing changes where it is refused.
pub open spec fn after_follow(edges: Edges, follower_id: u64, followed_id: u64, now: i64) -> Edges {
    if attempt(EdgeOp::Follow, follower_id, followed_id, state_of(edges, follower_id, followed_id))
        is Ok {
        edges.insert((follower_id, followed_id), Some(now))
    } else {
        edges
    }
}

/// The edges after `unfollow`: the edge leaves them where the operation is
/// allowed, and nothing changes where it is refused.
pub open spec fn after_unfollow(edges: Edges, follower_id: u64, followed_id: u64) -> Edges {
    if attempt(
        EdgeOp::Unfollow,
        follower_id,
        followed_id,
        state_of(edges, follower_id, followed_id),
    ) is Ok {
        edges.remove((follower_id, followed_id))
    } else {
        edges
    }
}

/// The pairs among `edges` that end in `user_id`.
pub open spec fn followers_of(edges: Edges, user_id: u64) -> Set<(u64, u64)> {
    edges.dom().filter(|p: (u64, u64)| p.1 == user_id)
}

/// How many users follow `user_id`.
pub open spec fn follower_count(edges: Edges, user_id: u64) -> nat {
    followers_of(edges, user_id).len()
}

/// The view of a state-machine result.
pub open spec fn transition_view(r: Result<EdgeState, FollowError>) -> Result<
    EdgeState,
    FollowErrorView,
> {
    match r {
        Ok(s) => Ok(s),
        Err(e) => Err(e@),
    }
}

impl EdgeState {
    /// Applies `op` to a pair in this state.
    pub fn apply(self, op: EdgeOp) -> (r: Result<EdgeState, FollowError>)
        ensures
            transition_view(r) == transition(self, op),
    {
        match (self, op) {
            (EdgeState::Absent, EdgeOp::Follow) => Ok(EdgeState::Present),
            (EdgeState::Present, EdgeOp::Follow) => Err(
                FollowError::Conflict("already following".to_owned()),
            ),
            (EdgeState::Present, EdgeOp::Unfollow) => Ok(EdgeState::Absent),
            (EdgeState::Absent, EdgeOp::Unfollow) => Err(
                FollowError::Conflict("not following".to_owned()),
            ),
        }
    }

    /// The state that an existence query reports.
    pub fn from_presence(present: bool) -> (state: EdgeState)
        ensures
            state == (if present {
                EdgeState::Present
            } else {
                EdgeState::Absent
            }),
    {
        if present {
            EdgeState::Present
        } else {
            EdgeState::Absent
        }
    }
}

/// Refuses an operation of a user on themselves, whatever the graph holds.
pub fn check_distinct(op: EdgeOp, follower_id: u64, followed_id: u64) -> (r: Result<
    (),
    FollowError,
>)
    ensures
        follower_id != followed_id ==> r is Ok,
        follower_id == followed_id ==> (r matches Err(e) && e@ == self_reference(op)),
{
    if follower_id == followed_id {
        match op {
            EdgeOp::Follow => Err(FollowError::InvalidOperation("self-follow".to_owned())),
            EdgeOp::Unfollow => Err(FollowError::InvalidOperation("self-unfollow".to_owned())),
        }
    } else {
        Ok(())
    }
}

/// Decides `op` for a pair whose state is known: the check for
/// self-reference, then the state machine.
pub fn decide(op: EdgeOp, follower_id: u64, followed_id: u64, state: EdgeState) -> (r: Result<
    EdgeState,
    FollowError,
>)
    ensures
        transition_view(r) == attempt(op, follower_id, followed_id, state),
{
    match check_distinct(op, follower_id, followed_id) {
        Err(e) => Err(e),
        Ok(()) => state.apply(op),
    }
}

spec fn unique_pairs(s: Seq<Follow>) -> bool {
    forall|i: int, j: int| 0 <= i < j < s.len() ==> s[i].pair() != s[j].pair()
}

spec fn no_self_edges(s: Seq<Follow>) -> bool {
    forall|i: int| 0 <= i < s.len() ==> (#[trigger] s[i]).follower_id != s[i].followed_id
}

spec fn edge_map(s: Seq<Follow>) -> Edges
    decreases s.len(),
{
    if s.len() == 0 {
        Map::empty()
    } else {
        edge_map(s.drop_last()).insert(s.last().pair(), s.last().created_at)
    }
}

proof fn lemma_edge_map_dom(s: Seq<Follow>)
    ensures
        edge_map(s).dom().finite(),
        forall|p: (u64, u64)|
            edge_map(s).contains_key(p) <==> exists|i: int|
                0 <= i < s.len() && (#[trigger] s[i]).pair() == p,
    decreases s.len(),
{
    if s.len() > 0 {
        let front = s.drop_last();
        lemma_edge_map_dom(front);
        assert forall|p: (u64, u64)|
            edge_map(s).contains_key(p) <==> exists|i: int|
                0 <= i < s.len() && (#[trigger] s[i]).pair() == p by {
            if edge_map(s).contains_key(p) {
                if p == s.last().pair() {
                    assert(s[s.len() - 1].pair() == p);
                } else {
                    let i = choose|i: int| 0 <= i < front.len() && (#[trigger] front[i]).pair() == p;
                    assert(s[i].pair() == p);
                }
            }
            if exists|i: int| 0 <= i < s.len() && (#[trigger] s[i]).pair() == p {
                let i = choose|i: int| 0 <= i < s.len() && (#[trigger] s[i]).pair() == p;
                if i < s.len() - 1 {
                    assert(front[i].pair() == p);
                }
            }
        }
    }
}

proof fn lemma_edge_map_push(s: Seq<Follow>, e: Follow)
    requires
        unique_pairs(s.push(e)),
    ensures
        edge_map(s.push(e)) == edge_map(s).insert(e.pair(), e.created_at),
        !edge_map(s).contains_key(e.pair()),
        unique_pairs(s),
{
    let t = s.push(e);
    assert(t.drop_last() =~= s);
    lemma_edge_map_dom(s);
    assert forall|i: int, j: int| 0 <= i < j < s.len() implies s[i].pair() != s[j].pair() by {
        assert(t[i].pair() != t[j].pair());
    }
    if edge_map(s).contains_key(e.pair()) {
        let i = choose|i: int| 0 <= i < s.len() && (#[trigger] s[i]).pair() == e.pair();
        assert(t[i].pair() != t[s.len() as int].pair());
    }
}

proof fn lemma_edge_map_remove(s: Seq<Follow>, i: int)
    requires
        unique_pairs(s),
        0 <= i < s.len(),
    ensures
        edge_map(s.remove(i)) == edge_map(s).remove(s[i].pair()),
        unique_pairs(s.remove(i)),
    decreases s.len(),
{
    let front = s.drop_last();
    let last = s.last();
    lemma_edge_map_push(front, last);
    let r = s.remove(i);
    assert forall|a: int, b: int| 0 <= a < b < r.len() implies r[a].pair() != r[b].pair() by {
        let a0 = if a < i {
            a
        } else {
            a + 1
        };
        let b0 = if b < i {
            b
        } else {
            b + 1
        };
        assert(s[a0].pair() != s[b0].pair());
    }
    if i == s.len() - 1 {
        assert(r =~= front);
    } else {
        lemma_edge_map_remove(front, i);
        assert(r.drop_last() =~= front.remove(i));
        assert(s[i].pair() != last.pair());
    }
}

proof fn lemma_count_push(s: Seq<Follow>, e: Follow, user_id: u64)
    requires
        unique_pairs(s.push(e)),
    ensures
        follower_count(edge_map(s.push(e)), user_id) == follower_count(edge_map(s), user_id) + (if e.followed_id
            == user_id {
            1nat
        } else {
            0nat
        }),
{
    lemma_edge_map_push(s, e);
    lemma_edge_map_dom(s);
    let before = followers_of(edge_map(s), user_id);
    let after = followers_of(edge_map(s.push(e)), user_id);
    edge_map(s).dom().lemma_len_filter(|p: (u64, u64)| p.1 == user_id);
    if e.followed_id == user_id {
        assert(after =~= before.insert(e.pair()));
    } else {
        assert(after =~= before);
    }
}

/// The follow graph held in memory.
pub struct FollowGraph {
    edges: Vec<Follow>,
}

impl View for FollowGraph {
    type V = Edges;

    closed spec fn view(&self) -> Edges {
        edge_map(self.edges@)
    }
}

/// Where the edge of a pair stands among `edges`, if it is there.
fn position(edges: &Vec<Follow>, follower_id: u64, followed_id: u64) -> (r: Option<usize>)
    ensures
        match r {
            Some(i) => i < edges@.len() && edges@[i as int].pair() == (follower_id, followed_id),
            None => forall|i: int|
                0 <= i < edges@.len() ==> (#[trigger] edges@[i]).pair() != (
                    follower_id,
                    followed_id,
                ),
        },
{
    let mut i: usize = 0;
    while i < edges.len()
        invariant
            i <= edges@.len(),
            forall|k: int|
                0 <= k < i ==> (#[trigger] edges@[k]).pair() != (follower_id, followed_id),
        decreases edges@.len() - i,
    {
        if edges[i].follower_id == follower_id && edges[i].followed_id == followed_id {
            return Some(i);
        }
        i = i + 1;
    }
    None
}

impl FollowGraph {
    #[verifier::type_invariant]
    spec fn well_formed(self) -> bool {
        unique_pairs(self.edges@) && no_self_edges(self.edges@)
    }

    /// A graph without edges.
    pub fn new() -> (graph: Self)
        ensures
            graph@ == Map::<(u64, u64), Option<i64>>::empty(),
    {
        FollowGraph { edges: Vec::new() }
    }

    /// A graph holds finitely many edges.
    pub proof fn lemma_finite(&self)
        ensures
            self@.dom().finite(),
    {
        lemma_edge_map_dom(self.edges@);
    }

    /// The state of the pair `(follower_id, followed_id)`, which is
    /// `Absent` for a pair of one user with themselves.
    pub fn state(&self, follower_id: u64, followed_id: u64) -> (state: EdgeState)
        ensures
            state == state_of(self@, follower_id, followed_id),
            follower_id == followed_id ==> state == EdgeState::Absent,
    {
        proof {
            use_type_invariant(self);
            lemma_edge_map_dom(self.edges@);
        }
        match position(&self.edges, follower_id, followed_id) {
            Some(_) => EdgeState::Present,
            None => EdgeState::Absent,
        }
    }

    /// The edge of the pair `(follower_id, followed_id)`, if it is present.
    pub fn get(&self, follower_id: u64, followed_id: u64) -> (r: Option<Follow>)
        ensures
            match r {
                Some(edge) => self@.contains_key((follower_id, followed_id)) && edge == (Follow {
                    follower_id,
                    followed_id,
                    created_at: self@[(follower_id, followed_id)],
                }),
                None => !self@.contains_key((follower_id, followed_id)),
            },
    {
        proof {
            use_type_invariant(self);
            lemma_edge_map_dom(self.edges@);
        }
        match position(&self.edges, follower_id, followed_id) {
            Some(i) => {
                proof {
                    lemma_edge_map_lookup(self.edges@, i as int);
                }
                Some(self.edges[i])
            },
            None => None,
        }
    }
}

proof fn lemma_edge_map_lookup(s: Seq<Follow>, i: int)
    requires
        unique_pairs(s),
        0 <= i < s.len(),
    ensures
        edge_map(s).contains_key(s[i].pair()),
        edge_map(s)[s[i].pair()] == s[i].created_at,
    decreases s.len(),
{
    let front = s.drop_last();
    lemma_edge_map_push(front, s.last());
    if i < s.len() - 1 {
        lemma_edge_map_lookup(front, i);
    }
}

impl Follow {
    /// Makes `follower_id` follow `followed_id` from `now` on.
    ///
    /// Fails with `InvalidOperation("self-follow")` where the two are one
    /// user, whatever the graph holds, and with
    /// `Conflict("already following")` where the edge is present; the graph
    /// is then unchanged. Otherwise the edge joins the graph and is returned.
    pub fn create(follower_id: u64, followed_id: u64, graph: &mut FollowGraph, now: i64) -> (r: Result<
        Follow,
        FollowError,
    >)
        ensures
            final(graph)@ == after_follow(old(graph)@, follower_id, followed_id, now),
            match attempt(
                EdgeOp::Follow,
                follower_id,
                followed_id,
                state_of(old(graph)@, follower_id, followed_id),
            ) {
                Ok(_) => r matches Ok(edge) && edge == (Follow {
                    follower_id,
                    followed_id,
                    created_at: Some(now),
                }),
                Err(refusal) => r matches Err(e) && e@ == refusal,
            },
    {
        proof {
            use_type_invariant(&*graph);
        }
        let state = graph.state(follower_id, followed_id);
        match decide(EdgeOp::Follow, follower_id, followed_id, state) {
            Err(e) => Err(e),
            Ok(_) => {
                let edge = Follow { follower_id, followed_id, created_at: Some(now) };
                let mut edges = Vec::new();
                std::mem::swap(&mut edges, &mut graph.edges);
                let ghost before = edges@;
                edges.push(edge);
                proof {
                    lemma_edge_map_dom(before);
                    assert forall|i: int, j: int| 0 <= i < j < edges@.len() implies edges@[i].pair()
                        != edges@[j].pair() by {
                        if j == before.len() {
                            assert(before[i].pair() != edge.pair());
                        }
                    }
                    lemma_edge_map_push(before, edge);
                }
                graph.edges = edges;
                Ok(edge)
            },
        }
    }

    /// Makes `follower_id` stop following `followed_id`.
    ///
    /// Fails with `InvalidOperation("self-unfollow")` where the two are one
    /// user, and with `Conflict("not following")` where the edge is absent;
    /// the graph is then unchanged. Otherwise the edge leaves the graph.
    pub fn delete(follower_id: u64, followed_id: u64, graph: &mut FollowGraph) -> (r: Result<
        (),
        FollowError,
    >)
        ensures
            final(graph)@ == after_unfollow(old(graph)@, follower_id, followed_id),
            match attempt(
                EdgeOp::Unfollow,
                follower_id,
                followed_id,
                state_of(old(graph)@, follower_id, followed_id),
            ) {
                Ok(_) => r is Ok,
                Err(refusal) => r matches Err(e) && e@ == refusal,
            },
    {
        proof {
            use_type_invariant(&*graph);
            lemma_edge_map_dom(graph.edges@);
        }
        match check_distinct(EdgeOp::Unfollow, follower_id, followed_id) {
            Err(e) => Err(e),
            Ok(()) => match position(&graph.edges, follower_id, followed_id) {
                None => match EdgeState::Absent.apply(EdgeOp::Unfollow) {
                    Err(e) => Err(e),
                    Ok(_) => Ok(()),
                },
                Some(i) => {
                    let mut edges = Vec::new();
                    std::mem::swap(&mut edges, &mut graph.edges);
                    let ghost before = edges@;
                    edges.remove(i);
                    proof {
                        lemma_edge_map_remove(before, i as int);
                        assert forall|k: int| 0 <= k < edges@.len() implies (#[trigger] edges@[k]).follower_id
                            != edges@[k].followed_id by {
                            let k0 = if k < i {
                                k
                            } else {
                                k + 1
                            };
                            assert(before[k0].follower_id != before[k0].followed_id);
                        }
                    }
                    graph.edges = edges;
                    Ok(())
                },
            },
        }
    }

    /// Whether `follower_id` follows `followed_id`, which nobody does with
    /// themselves. The graph is not touched.
    pub fn edge_exists(follower_id: u64, followed_id: u64, graph: &FollowGraph) -> (r: bool)
        ensures
            r == graph@.contains_key((follower_id, followed_id)),
            follower_id == followed_id ==> !r,
    {

        match graph.state(follower_id, followed_id) {
            EdgeState::Present => true,
            EdgeState::Absent => false,
        }
    }

    /// How many users follow `user_id`: the number of edges that end in it,
    /// which is 0 for a user whom nobody follows. The graph is not touched.
    pub fn get_follower_count(user_id: u64, graph: &FollowGraph) -> (count: u64)
        ensures
            count == follower_count(graph@, user_id),
    {
        proof {
            use_type_invariant(graph);
        }
        let mut count: u64 = 0;
        let mut i: usize = 0;
        assert(followers_of(edge_map(Seq::<Follow>::empty()), user_id) =~= Set::<
            (u64, u64),
        >::empty());
        while i < graph.edges.len()
            invariant
                i <= graph.edges@.len(),
                unique_pairs(graph.edges@),
                count <= i,
                count == follower_count(edge_map(graph.edges@.take(i as int)), user_id),
            decreases graph.edges@.len() - i,
        {
            let edge = graph.edges[i];
            proof {
                let s = graph.edges@;
                let front = s.take(i as int);
                let next = s.take(i + 1);
                assert(next =~= front.push(edge));
                assert forall|a: int, b: int| 0 <= a < b < next.len() implies next[a].pair()
                    != next[b].pair() by {
                    assert(s[a].pair() != s[b].pair());
                }
                lemma_count_push(front, edge, user_id);
            }
            if edge.followed_id == user_id {
                count = count + 1;
            }
            i = i + 1;
        }
        assert(graph.edges@.take(i as int) =~= graph.edges@);
        count
    }
}

/// Following oneself is refused as an invalid operation whatever the graph
/// holds, and leaves the graph as it was.
pub proof fn lemma_self_follow_refused(edges: Edges, user_id: u64, now: i64)
    ensures
        attempt(EdgeOp::Follow, user_id, user_id, state_of(edges, user_id, user_id)) matches Err(
            FollowErrorView::InvalidOperation(reason),
        ) && reason == "self-follow"@,
        after_follow(edges, user_id, user_id, now) == edges,
{
}

/// After a follow of two distinct users, whatever it came to, a second follow
/// of the same pair is refused as a conflict and changes nothing.
pub proof fn lemma_second_follow_conflicts(
    edges: Edges,
    follower_id: u64,
    followed_id: u64,
    first: i64,
    second: i64,
)
    requires
        follower_id != followed_id,
    ensures
        ({
            let once = after_follow(edges, follower_id, followed_id, first);
            &&& attempt(
                EdgeOp::Follow,
                follower_id,
                followed_id,
                state_of(once, follower_id, followed_id),
            ) matches Err(FollowErrorView::Conflict(reason)) && reason == "already following"@
            &&& after_follow(once, follower_id, followed_id, second) == once
        }),
{
}

/// An unfollow of two distinct users without an edge between them is refused
/// as a conflict and changes nothing.
pub proof fn lemma_unfollow_absent_conflicts(edges: Edges, follower_id: u64, followed_id: u64)
    requires
        follower_id != followed_id,
        !edges.contains_key((follower_id, followed_id)),
    ensures
        attempt(
            EdgeOp::Unfollow,
            follower_id,
            followed_id,
            state_of(edges, follower_id, followed_id),
        ) matches Err(FollowErrorView::Conflict(reason)) && reason == "not following"@,
        after_unfollow(edges, follower_id, followed_id) == edges,
{
}

/// A user in whom no edge ends has no followers.
pub proof fn lemma_nobody_follows(edges: Edges, user_id: u64)
    requires
        forall|p: (u64, u64)| edges.contains_key(p) ==> p.1 != user_id,
    ensures
        follower_count(edges, user_id) == 0,
{
    assert(followers_of(edges, user_id) =~= Set::<(u64, u64)>::empty());
}

/// A follow that succeeds adds one follower to the followed user and none to
/// anyone else; the unfollow that comes after it succeeds and gives back the
/// edges, and with them every count, as they were.
pub proof fn lemma_follow_then_unfollow(
    edges: Edges,
    follower_id: u64,
    followed_id: u64,
    now: i64,
    user_id: u64,
)
    requires
        edges.dom().finite(),
        follower_id != followed_id,
        !edges.contains_key((follower_id, followed_id)),
    ensures
        ({
            let once = after_follow(edges, follower_id, followed_id, now);
            &&& follower_count(once, user_id) == follower_count(edges, user_id) + (if user_id
                == followed_id {
                1nat
            } else {
                0nat
            })
            &&& attempt(
                EdgeOp::Unfollow,
                follower_id,
                followed_id,
                state_of(once, follower_id, followed_id),
            ) is Ok
            &&& after_unfollow(once, follower_id, followed_id) == edges
        }),
{
    let pair = (follower_id, followed_id);
    let once = after_follow(edges, follower_id, followed_id, now);
    assert(once.remove(pair) =~= edges);
    edges.dom().lemma_len_filter(|p: (u64, u64)| p.1 == user_id);
    if user_id == followed_id {
        assert(followers_of(once, user_id) =~= followers_of(edges, user_id).insert(pair));
    } else {
        assert(followers_of(once, user_id) =~= followers_of(edges, user_id));
    }
}

} // verus!
