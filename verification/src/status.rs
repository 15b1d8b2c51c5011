//! The status query: how many users are joined to a playlist.

use crate::registry::Registry;
use vstd::prelude::*;

verus! {

/// The answer to a status query.
#[derive(Debug, PartialEq, Eq)]
pub struct PlaylistResponse {
    /// The playlist that was asked about.
    pub name: String,
    /// The number of users joined to it at the time of the query.
    pub user_count: usize,
}

impl Clone for PlaylistResponse {
    fn clone(&self) -> (copy: Self)
        ensures
            copy == *self,
    {
        PlaylistResponse { name: self.name.clone(), user_count: self.user_count }
    }
}

/// The status of the playlist `name`: its name as given and the number of
/// users subscribed to it, which is zero for a name that nobody ever joined.
/// The query changes nothing; in particular it creates no playlist.
pub fn get_status(registry: &Registry, name: String) -> (status: PlaylistResponse)
    ensures
        status.name == name,
        !registry@.contains_key(name@) ==> status.user_count == 0,
{
    let user_count: usize = registry.subscriber_count(name.as_str());
    PlaylistResponse { name, user_count }
}

} // verus!
