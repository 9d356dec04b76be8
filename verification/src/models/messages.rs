//! The message record.

use vstd::prelude::*;

verus! {

/// A message sent to a stream. `sent_at` is in Unix seconds.
#[derive(Debug, Clone, PartialEq, Eq)]
pub struct Message {
    pub id: u64,
    pub stream_id: u64,
    pub user_id: u64,
    pub content: String,
    pub sent_at: Option<i64>,
}

} // verus!
