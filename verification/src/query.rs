//! Query parameters of the user endpoints.

use vstd::prelude::*;

verus! {

/// The parameters of a user search.
#[derive(Debug, Clone)]
pub struct UsersQuery {
    /// The search text.
    pub q: Option<String>,
    /// Comma-separated user ids.
    pub ids: Option<String>,
    /// Comma-separated user URNs.
    pub urns: Option<String>,
    /// The page size.
    pub limit: Option<i32>,
    /// The index of the first result.
    pub offset: Option<i32>,
    /// Whether the answer links to the next page.
    pub linked_partitioning: Option<bool>,
}

impl Default for UsersQuery {
    /// No parameter set.
    fn default() -> (q: Self)
        ensures
            q.q is None,
            q.ids is None,
            q.urns is None,
            q.limit is None,
            q.offset is None,
            q.linked_partitioning is None,
    {
        UsersQuery { q: None, ids: None, urns: None, limit: None, offset: None, linked_partitioning: None }
    }
}

/// The parameters of a listing of a user's liked tracks.
#[derive(Debug, Clone)]
pub struct UserTrackLikesQuery {
    /// The page size.
    pub limit: Option<u32>,
    /// The cursor of the first result.
    pub offset: Option<String>,
}

impl Default for UserTrackLikesQuery {
    /// No parameter set.
    fn default() -> (q: Self)
        ensures
            q.limit is None,
            q.offset is None,
    {
        UserTrackLikesQuery { limit: None, offset: None }
    }
}

} // verus!
