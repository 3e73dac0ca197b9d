//! The queries the RPC log repository hands to the database.
use crate::model::ObjectId;
use vstd::prelude::*;

verus! {

/// A query for RPC logs: those of one user, or of everyone; newest first
/// means in descending order of the document id, which grows with the time
/// of insertion; at most `limit` logs, in MongoDB's sense of a limit.
#[derive(Clone, Copy, Debug)]
pub struct LogQuery {
    pub user_id: Option<ObjectId>,
    pub newest_first: bool,
    pub limit: i64,
}

/// The latest `limit` logs of one user, newest first.
pub fn user_logs_query(user_id: ObjectId, limit: i64) -> (query: LogQuery)
    ensures
        query.user_id == Some(user_id),
        query.newest_first,
        query.limit == limit,
{
    LogQuery { user_id: Some(user_id), newest_first: true, limit }
}

/// The latest `limit` logs of all users, newest first.
pub fn recent_logs_query(limit: i64) -> (query: LogQuery)
    ensures
        query.user_id is None,
        query.newest_first,
        query.limit == limit,
{
    LogQuery { user_id: None, newest_first: true, limit }
}

} // verus!
