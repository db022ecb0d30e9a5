//! The session store: the counter of game ids, the invites and the sessions
//! by id, the active session of each address, and the list of open invites.

use crate::state::{
    view_of, GameId, GameInvite, GameInviteView, GameSession, GameSessionView, OpenInvites,
};
use std::collections::HashMap;
use vstd::prelude::*;

verus! {

/// Mathematical value of a [`Store`]: one entry per stored item.
pub struct StoreView {
    /// The id given to the latest invite; 0 before the first.
    pub game_id_inc: GameId,
    /// The invite stored under each id.
    pub game_invites: Map<GameId, GameInviteView>,
    /// The session stored under each id.
    pub game_session: Map<GameId, GameSessionView>,
    /// The id of the latest invite that each address posted or accepted.
    pub user_session: Map<Seq<char>, GameId>,
    /// The ids of the invites that nobody has accepted yet.
    pub open_invites: Seq<GameId>,
}

/// What a map holds under a key, if anything.
pub open spec fn get<K, V>(m: Map<K, V>, k: K) -> Option<V> {
    if m.contains_key(k) {
        Some(m[k])
    } else {
        None
    }
}

/// The store before the first invite.
pub open spec fn empty_store() -> StoreView {
    StoreView {
        game_id_inc: 0,
        game_invites: Map::empty(),
        game_session: Map::empty(),
        user_session: Map::empty(),
        open_invites: Seq::empty(),
    }
}

/// The id that the first entry with the address `key` carries.
pub open spec fn lookup(entries: Seq<(String, GameId)>, key: Seq<char>) -> Option<GameId>
    decreases entries.len(),
{
    if entries.len() == 0 {
        None
    } else if entries[0].0@ == key {
        Some(entries[0].1)
    } else {
        lookup(entries.drop_first(), key)
    }
}

/// An entry that follows only entries of other addresses is the one found.
proof fn lemma_lookup_found(entries: Seq<(String, GameId)>, key: Seq<char>, i: int)
    requires
        0 <= i < entries.len(),
        entries[i].0@ == key,
        forall|j: int| 0 <= j < i ==> (#[trigger] entries[j]).0@ != key,
    ensures
        lookup(entries, key) == Some(entries[i].1),
    decreases i,
{
    if i > 0 {
        lemma_lookup_found(entries.drop_first(), key, i - 1);
    }
}

/// Where no entry carries the address, nothing is found.
proof fn lemma_lookup_absent(entries: Seq<(String, GameId)>, key: Seq<char>)
    requires
        forall|j: int| 0 <= j < entries.len() ==> (#[trigger] entries[j]).0@ != key,
    ensures
        lookup(entries, key) is None,
    decreases entries.len(),
{
    if entries.len() > 0 {
        lemma_lookup_absent(entries.drop_first(), key);
    }
}

/// Replacing the first entry of an address changes what is found for that
/// address and for no other.
proof fn lemma_lookup_replaced(
    entries: Seq<(String, GameId)>,
    i: int,
    entry: (String, GameId),
    other: Seq<char>,
)
    requires
        0 <= i < entries.len(),
        entries[i].0@ == entry.0@,
        forall|j: int| 0 <= j < i ==> (#[trigger] entries[j]).0@ != entry.0@,
    ensures
        lookup(entries.update(i, entry), other) == if other == entry.0@ {
            Some(entry.1)
        } else {
            lookup(entries, other)
        },
    decreases i,
{
    let updated = entries.update(i, entry);
    if i == 0 {
        assert(updated.drop_first() =~= entries.drop_first());
    } else {
        assert(updated.drop_first() =~= entries.drop_first().update(i - 1, entry));
        lemma_lookup_replaced(entries.drop_first(), i - 1, entry, other);
    }
}

/// Appending an entry for an address that has none changes what is found for
/// that address and for no other.
proof fn lemma_lookup_appended(
    entries: Seq<(String, GameId)>,
    entry: (String, GameId),
    other: Seq<char>,
)
    requires
        forall|j: int| 0 <= j < entries.len() ==> (#[trigger] entries[j]).0@ != entry.0@,
    ensures
        lookup(entries.push(entry), other) == if other == entry.0@ {
            Some(entry.1)
        } else {
            lookup(entries, other)
        },
    decreases entries.len(),
{
    if entries.len() == 0 {
        assert(entries.push(entry).drop_first() =~= entries);
    } else {
        assert(entries.push(entry).drop_first() =~= entries.drop_first().push(entry));
        lemma_lookup_appended(entries.drop_first(), entry, other);
    }
}

/// The persisted state of the contract, item by item.
pub struct Store {
    game_id_inc: GameId,
    game_invites: HashMap<GameId, GameInvite>,
    game_session: HashMap<GameId, GameSession>,
    user_session: Vec<(String, GameId)>,
    open_invites: OpenInvites,
}

impl View for Store {
    type V = StoreView;

    closed spec fn view(&self) -> StoreView {
        StoreView {
            game_id_inc: self.game_id_inc,
            game_invites: Map::new(
                |g: GameId| self.game_invites@.contains_key(g),
                |g: GameId| self.game_invites@[g]@,
            ),
            game_session: Map::new(
                |g: GameId| self.game_session@.contains_key(g),
                |g: GameId| self.game_session@[g]@,
            ),
            user_session: Map::new(
                |a: Seq<char>| lookup(self.user_session@, a) is Some,
                |a: Seq<char>| lookup(self.user_session@, a).unwrap(),
            ),
            open_invites: self.open_invites@,
        }
    }
}

impl Store {
    /// A store that holds nothing, with the counter at 0.
    pub fn new() -> (store: Store)
        ensures
            store@ == empty_store(),
    {
        let store = Store {
            game_id_inc: 0,
            game_invites: HashMap::new(),
            game_session: HashMap::new(),
            user_session: Vec::new(),
            open_invites: OpenInvites { invites: Vec::new() },
        };
        assert(store@.game_invites =~= Map::empty());
        assert(store@.game_session =~= Map::empty());
        assert(store@.user_session =~= Map::empty());
        store
    }

    /// The id given to the latest invite.
    pub fn game_id_inc(&self) -> (id: GameId)
        ensures
            id == self@.game_id_inc,
    {
        self.game_id_inc
    }

    /// Stores the id given to the latest invite.
    pub fn save_game_id_inc(&mut self, id: GameId)
        ensures
            final(self)@ == (StoreView { game_id_inc: id, ..old(self)@ }),
    {
        self.game_id_inc = id;
    }

    /// The invite stored under `game_id`, if there is one.
    pub fn game_invite(&self, game_id: GameId) -> (invite: Option<GameInvite>)
        ensures
            view_of(invite) == get(self@.game_invites, game_id),
    {
        match self.game_invites.get(&game_id) {
            Some(i) => Some(i.clone()),
            None => None,
        }
    }

    /// Stores `invite` under `game_id`, in place of what was there.
    pub fn save_game_invite(&mut self, game_id: GameId, invite: GameInvite)
        ensures
            final(self)@ == (StoreView {
                game_invites: old(self)@.game_invites.insert(game_id, invite@),
                ..old(self)@
            }),
    {
        self.game_invites.insert(game_id, invite);
        assert(self@.game_invites =~= old(self)@.game_invites.insert(game_id, invite@));
    }

    /// The session stored under `game_id`, if there is one.
    pub fn game_session(&self, game_id: GameId) -> (session: Option<GameSession>)
        ensures
            view_of(session) == get(self@.game_session, game_id),
    {
        match self.game_session.get(&game_id) {
            Some(s) => Some(s.clone()),
            None => None,
        }
    }

    /// Stores `session` under `game_id`, in place of what was there.
    pub fn save_game_session(&mut self, game_id: GameId, session: GameSession)
        ensures
            final(self)@ == (StoreView {
                game_session: old(self)@.game_session.insert(game_id, session@),
                ..old(self)@
            }),
    {
        self.game_session.insert(game_id, session);
        assert(self@.game_session =~= old(self)@.game_session.insert(game_id, session@));
    }

    /// The position of the first entry for `addr`, if there is one.
    fn find_user(&self, addr: &String) -> (at: Option<usize>)
        ensures
            match at {
                Some(i) => i < self.user_session@.len() && self.user_session@[i as int].0@
                    == addr@ && forall|j: int|
                    0 <= j < i ==> (#[trigger] self.user_session@[j]).0@ != addr@,
                None => forall|j: int|
                    0 <= j < self.user_session@.len() ==> (#[trigger] self.user_session@[j]).0@
                        != addr@,
            },
    {
        let mut i: usize = 0;
        while i < self.user_session.len()
            invariant
                i <= self.user_session@.len(),
                forall|j: int| 0 <= j < i ==> (#[trigger] self.user_session@[j]).0@ != addr@,
            decreases self.user_session@.len() - i,
        {
            if self.user_session[i].0 == *addr {
                return Some(i);
            }
            i += 1;
        }
        None
    }

    /// The id of the latest invite that `addr` posted or accepted, if any.
    pub fn user_session(&self, addr: &String) -> (game_id: Option<GameId>)
        ensures
            game_id == get(self@.user_session, addr@),
    {
        match self.find_user(addr) {
            Some(i) => {
                proof {
                    lemma_lookup_found(self.user_session@, addr@, i as int);
                }
                Some(self.user_session[i].1)
            },
            None => {
                proof {
                    lemma_lookup_absent(self.user_session@, addr@);
                }
                None
            },
        }
    }

    /// Stores `game_id` as the active session of `addr`, in place of what
    /// was there.
    pub fn save_user_session(&mut self, addr: String, game_id: GameId)
        ensures
            final(self)@ == (StoreView {
                user_session: old(self)@.user_session.insert(addr@, game_id),
                ..old(self)@
            }),
    {
        let ghost key = addr@;
        let ghost before = self.user_session@;
        match self.find_user(&addr) {
            Some(i) => {
                self.user_session.set(i, (addr, game_id));
                assert forall|other: Seq<char>|
                    lookup(self.user_session@, other) == if other == key {
                        Some(game_id)
                    } else {
                        lookup(before, other)
                    } by {
                    lemma_lookup_replaced(before, i as int, self.user_session@[i as int], other);
                }
            },
            None => {
                self.user_session.push((addr, game_id));
                assert forall|other: Seq<char>|
                    lookup(self.user_session@, other) == if other == key {
                        Some(game_id)
                    } else {
                        lookup(before, other)
                    } by {
                    lemma_lookup_appended(before, self.user_session@.last(), other);
                }
            },
        }
        assert(self@.user_session =~= old(self)@.user_session.insert(key, game_id));
    }

    /// The list of open invites.
    pub fn open_invites(&self) -> (open: OpenInvites)
        ensures
            open@ == self@.open_invites,
    {
        self.open_invites.clone()
    }

    /// Stores the list of open invites, in place of what was there.
    pub fn save_open_invites(&mut self, open: OpenInvites)
        ensures
            final(self)@ == (StoreView { open_invites: open@, ..old(self)@ }),
    {
        self.open_invites = open;
    }
}

} // verus!
