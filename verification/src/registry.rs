//! The playlist registry: which channel belongs to which playlist name.

use crate::channel::{open_channel, requested_capacity, CHANNEL_CAPACITY};
use tokio::sync::broadcast::Sender;
use vstd::hash_map::StringHashMap;
use vstd::prelude::*;

verus! {

/// Maps each playlist name that was ever joined to the channel of that
/// playlist. A name has at most one channel, and an entry, once made, is
/// never replaced or removed.
///
/// The view is the map from names to channel handles.
pub struct Registry {
    channels: StringHashMap<Sender<String>>,
}

impl View for Registry {
    type V = Map<Seq<char>, Sender<String>>;

    closed spec fn view(&self) -> Self::V {
        self.channels@
    }
}

/// What `get_or_create` does to the registry's view: a known name keeps its
/// channel and the map stays as it is; a new name is added with `tx` as its
/// channel, and no other entry changes.
pub open spec fn joined(
    before: Map<Seq<char>, Sender<String>>,
    name: Seq<char>,
    tx: Sender<String>,
    after: Map<Seq<char>, Sender<String>>,
) -> bool {
    if before.contains_key(name) {
        after == before && tx == before[name]
    } else {
        after == before.insert(name, tx)
    }
}

impl Registry {
    /// A registry without playlists.
    pub fn new() -> (registry: Self)
        ensures
            registry@ == Map::<Seq<char>, Sender<String>>::empty(),
    {
        Registry { channels: StringHashMap::new() }
    }

    /// The channel of `name`, if the playlist exists. Never adds an entry.
    pub fn lookup(&self, name: &str) -> (found: Option<Sender<String>>)
        ensures
            self@.contains_key(name@) ==> found == Some(self@[name@]),
            !self@.contains_key(name@) ==> found is None,
    {
        match self.channels.get(name) {
            Some(tx) => Some(tx.clone()),
            None => None,
        }
    }

    /// The channel of `name`. The first call for a name opens the playlist's
    /// channel, with room for `CHANNEL_CAPACITY` messages, and records it;
    /// every later call returns that same channel and leaves the registry as
    /// it is.
    pub fn get_or_create(&mut self, name: &str) -> (tx: Sender<String>)
        ensures
            joined(old(self)@, name@, tx, final(self)@),
            !old(self)@.contains_key(name@) ==> requested_capacity(tx) == CHANNEL_CAPACITY,
    {
        match self.channels.get(name) {
            Some(known) => known.clone(),
            None => {
                let tx = open_channel(CHANNEL_CAPACITY);
                self.channels.insert(name.to_owned(), tx.clone());
                tx
            },
        }
    }

    /// The number of users currently subscribed to `name`: zero for a name
    /// without a playlist, else what the playlist's channel reports at the
    /// moment of the call. Never adds an entry.
    pub fn subscriber_count(&self, name: &str) -> (count: usize)
        ensures
            !self@.contains_key(name@) ==> count == 0,
    {
        let live = match self.channels.get(name) {
            Some(tx) => Some(tx.receiver_count()),
            None => None,
        };
        count_or_zero(live)
    }
}

/// The subscriber count to report for a playlist, given what its channel
/// reports if the playlist exists: that number, and zero for a playlist that
/// does not exist.
pub fn count_or_zero(live: Option<usize>) -> (count: usize)
    ensures
        count == match live {
            Some(subscribers) => subscribers,
            None => 0,
        },
{
    match live {
        Some(subscribers) => subscribers,
        None => 0,
    }
}

/// Playlists are kept apart: a join leaves every playlist of another name as
/// it was. It creates none, removes none, and none gets another channel.
pub proof fn lemma_join_leaves_others(
    before: Map<Seq<char>, Sender<String>>,
    name: Seq<char>,
    tx: Sender<String>,
    after: Map<Seq<char>, Sender<String>>,
    other: Seq<char>,
)
    requires
        joined(before, name, tx, after),
        other != name,
    ensures
        after.contains_key(other) == before.contains_key(other),
        before.contains_key(other) ==> after[other] == before[other],
{
}

/// A join: the name that was asked for and the channel that was returned.
pub type Join = (Seq<char>, Sender<String>);

/// Whether `registry` is what a registry holds after `joins`: after calls of
/// `get_or_create` on a new registry, one for each element, in order, with the
/// element's name as argument and the element's channel as result.
pub open spec fn reached(joins: Seq<Join>, registry: Map<Seq<char>, Sender<String>>) -> bool
    decreases joins.len(),
{
    if joins.len() == 0 {
        registry == Map::<Seq<char>, Sender<String>>::empty()
    } else {
        exists|earlier: Map<Seq<char>, Sender<String>>|
            reached(joins.drop_last(), earlier) && #[trigger] joined(
                earlier,
                joins.last().0,
                joins.last().1,
                registry,
            )
    }
}

/// A join on a registry that joins have made of a new one gives such a
/// registry again, with the join added to those that made it.
pub proof fn lemma_join_extends_reached(
    joins: Seq<Join>,
    before: Map<Seq<char>, Sender<String>>,
    name: Seq<char>,
    tx: Sender<String>,
    after: Map<Seq<char>, Sender<String>>,
)
    requires
        reached(joins, before),
        joined(before, name, tx, after),
    ensures
        reached(joins.push((name, tx)), after),
{
    let longer = joins.push((name, tx));
    assert(longer.drop_last() == joins);
    assert(longer.last() == (name, tx));
    assert(joined(before, longer.last().0, longer.last().1, after));
}

/// Every join of a playlist got the channel that the registry holds for it in
/// the end. So a playlist has one channel for all who join it, however the
/// joins of this and of other playlists follow each other.
pub proof fn lemma_one_channel_per_name(
    joins: Seq<Join>,
    registry: Map<Seq<char>, Sender<String>>,
    i: int,
)
    requires
        reached(joins, registry),
        0 <= i < joins.len(),
    ensures
        registry.contains_key(joins[i].0),
        registry[joins[i].0] == joins[i].1,
    decreases joins.len(),
{
    let earlier = choose|earlier: Map<Seq<char>, Sender<String>>|
        reached(joins.drop_last(), earlier) && #[trigger] joined(
            earlier,
            joins.last().0,
            joins.last().1,
            registry,
        );
    if i < joins.len() - 1 {
        lemma_one_channel_per_name(joins.drop_last(), earlier, i);
    }
}

/// The playlists of a registry are those that were joined: a name is known
/// exactly if some join asked for it.
pub proof fn lemma_known_iff_joined(
    joins: Seq<Join>,
    registry: Map<Seq<char>, Sender<String>>,
    name: Seq<char>,
)
    requires
        reached(joins, registry),
    ensures
        registry.contains_key(name) <==> exists|i: int|
            0 <= i < joins.len() && (#[trigger] joins[i]).0 == name,
    decreases joins.len(),
{
    if joins.len() > 0 {
        let earlier = choose|earlier: Map<Seq<char>, Sender<String>>|
            reached(joins.drop_last(), earlier) && #[trigger] joined(
                earlier,
                joins.last().0,
                joins.last().1,
                registry,
            );
        lemma_known_iff_joined(joins.drop_last(), earlier, name);
        if registry.contains_key(name) {
            if earlier.contains_key(name) {
                let i = choose|i: int|
                    0 <= i < joins.drop_last().len() && (#[trigger] joins.drop_last()[i]).0
                        == name;
                assert(joins[i].0 == name);
            } else {
                assert(joins[joins.len() - 1].0 == name);
            }
        }
        if exists|i: int| 0 <= i < joins.len() && (#[trigger] joins[i]).0 == name {
            let i = choose|i: int| 0 <= i < joins.len() && (#[trigger] joins[i]).0 == name;
            if i < joins.len() - 1 {
                assert(joins.drop_last()[i].0 == name);
            }
        }
    }
}

} // verus!
