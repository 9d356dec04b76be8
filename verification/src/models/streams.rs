//! The stream record.

use vstd::prelude::*;

verus! {

/// A stream of a user. Times are Unix seconds.
#[derive(Debug, Clone, PartialEq, Eq)]
pub struct Stream {
    pub id: i64,
    pub user_id: i64,
    pub title: String,
    pub category: String,
    pub is_live: bool,
    pub started_at: Option<i64>,
    pub ended_at: Option<i64>,
}

} // verus!
