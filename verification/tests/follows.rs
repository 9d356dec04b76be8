use web_api::models::follows::{
    check_distinct, decide, EdgeOp, EdgeState, Follow, FollowError, FollowGraph,
};

fn invalid(reason: &str) -> FollowError {
    FollowError::InvalidOperation(reason.to_string())
}

fn conflict(reason: &str) -> FollowError {
    FollowError::Conflict(reason.to_string())
}

#[test]
fn the_state_machine_of_a_pair() {
    assert_eq!(EdgeState::Absent.apply(EdgeOp::Follow), Ok(EdgeState::Present));
    assert_eq!(EdgeState::Present.apply(EdgeOp::Unfollow), Ok(EdgeState::Absent));
    assert_eq!(EdgeState::Present.apply(EdgeOp::Follow), Err(conflict("already following")));
    assert_eq!(EdgeState::Absent.apply(EdgeOp::Unfollow), Err(conflict("not following")));
}

#[test]
fn the_state_that_a_lookup_reports() {
    assert_eq!(EdgeState::from_presence(true), EdgeState::Present);
    assert_eq!(EdgeState::from_presence(false), EdgeState::Absent);
}

#[test]
fn an_operation_on_oneself_is_invalid() {
    assert_eq!(check_distinct(EdgeOp::Follow, 1, 2), Ok(()));
    assert_eq!(check_distinct(EdgeOp::Unfollow, 2, 1), Ok(()));
    assert_eq!(check_distinct(EdgeOp::Follow, 3, 3), Err(invalid("self-follow")));
    assert_eq!(check_distinct(EdgeOp::Unfollow, 3, 3), Err(invalid("self-unfollow")));
}

#[test]
fn the_self_check_comes_before_the_state() {
    for state in [EdgeState::Absent, EdgeState::Present] {
        assert_eq!(decide(EdgeOp::Follow, 4, 4, state), Err(invalid("self-follow")));
        assert_eq!(decide(EdgeOp::Unfollow, 4, 4, state), Err(invalid("self-unfollow")));
    }
    assert_eq!(decide(EdgeOp::Follow, 4, 5, EdgeState::Absent), Ok(EdgeState::Present));
    assert_eq!(decide(EdgeOp::Follow, 4, 5, EdgeState::Present), Err(conflict("already following")));
    assert_eq!(decide(EdgeOp::Unfollow, 4, 5, EdgeState::Present), Ok(EdgeState::Absent));
    assert_eq!(decide(EdgeOp::Unfollow, 4, 5, EdgeState::Absent), Err(conflict("not following")));
}

#[test]
fn a_new_graph_is_empty() {
    let graph = FollowGraph::new();
    assert!(!Follow::edge_exists(1, 2, &graph));
    assert_eq!(Follow::get_follower_count(2, &graph), 0);
    assert_eq!(graph.state(1, 2), EdgeState::Absent);
    assert_eq!(graph.get(1, 2), None);
}

#[test]
fn follow_inserts_the_edge_with_its_time() {
    let mut graph = FollowGraph::new();
    let edge = Follow::create(1, 2, &mut graph, 1_700_000_000).unwrap();
    assert_eq!(edge, Follow { follower_id: 1, followed_id: 2, created_at: Some(1_700_000_000) });
    assert!(Follow::edge_exists(1, 2, &graph));
    assert_eq!(graph.get(1, 2), Some(edge));
    assert_eq!(graph.state(1, 2), EdgeState::Present);
}

#[test]
fn edges_are_directed() {
    let mut graph = FollowGraph::new();
    Follow::create(1, 2, &mut graph, 5).unwrap();
    assert!(!Follow::edge_exists(2, 1, &graph));
    assert_eq!(Follow::get_follower_count(1, &graph), 0);
    assert_eq!(Follow::get_follower_count(2, &graph), 1);
    assert_eq!(Follow::create(2, 1, &mut graph, 6).map(|e| e.created_at), Ok(Some(6)));
    assert_eq!(Follow::get_follower_count(1, &graph), 1);
}

#[test]
fn following_oneself_always_fails() {
    let mut graph = FollowGraph::new();
    assert_eq!(Follow::create(7, 7, &mut graph, 0), Err(invalid("self-follow")));
    Follow::create(7, 8, &mut graph, 0).unwrap();
    Follow::create(8, 7, &mut graph, 0).unwrap();
    assert_eq!(Follow::create(7, 7, &mut graph, 0), Err(invalid("self-follow")));
    assert_eq!(Follow::create(0, 0, &mut graph, 0), Err(invalid("self-follow")));
    assert_eq!(Follow::create(u64::MAX, u64::MAX, &mut graph, 0), Err(invalid("self-follow")));
    assert!(!Follow::edge_exists(7, 7, &graph));
    assert_eq!(graph.state(7, 7), EdgeState::Absent);
    assert_eq!(graph.get(7, 7), None);
    assert_eq!(Follow::get_follower_count(7, &graph), 1);
}

#[test]
fn a_second_follow_is_a_conflict() {
    let mut graph = FollowGraph::new();
    assert!(Follow::create(1, 2, &mut graph, 10).is_ok());
    assert_eq!(Follow::create(1, 2, &mut graph, 20), Err(conflict("already following")));
    assert_eq!(Follow::get_follower_count(2, &graph), 1);
    assert_eq!(graph.get(1, 2).unwrap().created_at, Some(10));
}

#[test]
fn an_unfollow_without_a_follow_is_a_conflict() {
    let mut graph = FollowGraph::new();
    assert_eq!(Follow::delete(1, 2, &mut graph), Err(conflict("not following")));
    Follow::create(2, 1, &mut graph, 0).unwrap();
    assert_eq!(Follow::delete(1, 2, &mut graph), Err(conflict("not following")));
    assert!(Follow::edge_exists(2, 1, &graph));
}

#[test]
fn unfollowing_oneself_is_invalid() {
    let mut graph = FollowGraph::new();
    assert_eq!(Follow::delete(3, 3, &mut graph), Err(invalid("self-unfollow")));
}

#[test]
fn a_second_unfollow_is_a_conflict() {
    let mut graph = FollowGraph::new();
    Follow::create(1, 2, &mut graph, 0).unwrap();
    assert_eq!(Follow::delete(1, 2, &mut graph), Ok(()));
    assert_eq!(Follow::delete(1, 2, &mut graph), Err(conflict("not following")));
}

#[test]
fn unfollow_removes_only_its_edge() {
    let mut graph = FollowGraph::new();
    Follow::create(1, 9, &mut graph, 1).unwrap();
    Follow::create(2, 9, &mut graph, 2).unwrap();
    Follow::create(3, 9, &mut graph, 3).unwrap();
    Follow::create(2, 1, &mut graph, 4).unwrap();
    assert_eq!(Follow::delete(2, 9, &mut graph), Ok(()));
    assert!(Follow::edge_exists(1, 9, &graph));
    assert!(!Follow::edge_exists(2, 9, &graph));
    assert!(Follow::edge_exists(3, 9, &graph));
    assert!(Follow::edge_exists(2, 1, &graph));
    assert_eq!(graph.get(3, 9).unwrap().created_at, Some(3));
    assert_eq!(Follow::get_follower_count(9, &graph), 2);
    assert_eq!(Follow::delete(1, 9, &mut graph), Ok(()));
    assert_eq!(Follow::delete(3, 9, &mut graph), Ok(()));
    assert_eq!(Follow::get_follower_count(9, &graph), 0);
    assert_eq!(Follow::get_follower_count(1, &graph), 1);
}

#[test]
fn a_follow_after_an_unfollow_succeeds_again() {
    let mut graph = FollowGraph::new();
    Follow::create(1, 2, &mut graph, 10).unwrap();
    Follow::delete(1, 2, &mut graph).unwrap();
    assert_eq!(Follow::create(1, 2, &mut graph, 30).unwrap().created_at, Some(30));
    assert_eq!(graph.get(1, 2).unwrap().created_at, Some(30));
}

#[test]
fn the_follower_count_counts_the_edges_that_end_in_the_user() {
    let mut graph = FollowGraph::new();
    for follower in 1..=20u64 {
        Follow::create(follower, 100, &mut graph, 0).unwrap();
        if follower % 2 == 0 {
            Follow::create(follower, 200, &mut graph, 0).unwrap();
        }
        Follow::create(100, follower, &mut graph, 0).unwrap();
    }
    assert_eq!(Follow::get_follower_count(100, &graph), 20);
    assert_eq!(Follow::get_follower_count(200, &graph), 10);
    assert_eq!(Follow::get_follower_count(7, &graph), 1);
    assert_eq!(Follow::get_follower_count(300, &graph), 0);
}

#[test]
fn reads_do_not_change_the_graph() {
    let mut graph = FollowGraph::new();
    Follow::create(1, 2, &mut graph, 0).unwrap();
    for _ in 0..3 {
        assert!(Follow::edge_exists(1, 2, &graph));
        assert!(!Follow::edge_exists(2, 1, &graph));
        assert_eq!(Follow::get_follower_count(2, &graph), 1);
    }
}
