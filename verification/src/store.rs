//! The record store: an ordered sequence of records, searched front to back.

use vstd::prelude::*;
use crate::user::{User, UserView};

verus! {

/// Whether some record of `s` carries `id`.
pub open spec fn has_id(s: Seq<UserView>, id: u32) -> bool {
    exists|i: int| 0 <= i < s.len() && (#[trigger] s[i]).id == id
}

/// Whether `i` is the position of the first record of `s` that carries `id`.
pub open spec fn is_first_match(s: Seq<UserView>, id: u32, i: int) -> bool {
    &&& 0 <= i < s.len()
    &&& s[i].id == id
    &&& forall|j: int| 0 <= j < i ==> (#[trigger] s[j]).id != id
}

/// The position of the first record of `s` that carries `id`, if there is one.
pub open spec fn position(s: Seq<UserView>, id: u32) -> Option<int> {
    if has_id(s, id) {
        Some(choose|i: int| is_first_match(s, id, i))
    } else {
        None
    }
}

/// What a lookup of `id` in `s` yields: the first record that carries it.
pub open spec fn find_spec(s: Seq<UserView>, id: u32) -> Option<UserView> {
    match position(s, id) {
        Some(i) => Some(s[i]),
        None => None,
    }
}

/// The sequence after `u` has been appended to `s`.
pub open spec fn insert_spec(s: Seq<UserView>, u: UserView) -> Seq<UserView> {
    s.push(u)
}

/// The sequence after the first record of `s` that carries `id` has been
/// overwritten by `u`; `s` itself where no record carries `id`.
pub open spec fn replace_spec(s: Seq<UserView>, id: u32, u: UserView) -> Seq<UserView> {
    match position(s, id) {
        Some(i) => s.update(i, u),
        None => s,
    }
}

/// The sequence after the first record of `s` that carries `id` has been
/// taken out, the later records moving down one place; `s` itself where no
/// record carries `id`.
pub open spec fn remove_spec(s: Seq<UserView>, id: u32) -> Seq<UserView> {
    match position(s, id) {
        Some(i) => s.remove(i),
        None => s,
    }
}

/// Two first matches of the same id in the same sequence coincide.
pub proof fn lemma_first_match_unique(s: Seq<UserView>, id: u32, i: int, j: int)
    requires
        is_first_match(s, id, i),
        is_first_match(s, id, j),
    ensures
        i == j,
{
    if i < j {
        assert(s[i].id != id);
    } else if j < i {
        assert(s[j].id != id);
    }
}

/// A sequence that holds `id` at all has a first record that carries it.
pub proof fn lemma_first_match_exists(s: Seq<UserView>, id: u32, k: int)
    requires
        0 <= k < s.len(),
        s[k].id == id,
    ensures
        exists|i: int| 0 <= i <= k && is_first_match(s, id, i),
    decreases k,
{
    if exists|j: int| 0 <= j < k && (#[trigger] s[j]).id == id {
        let j = choose|j: int| 0 <= j < k && (#[trigger] s[j]).id == id;
        lemma_first_match_exists(s, id, j);
    } else {
        assert(is_first_match(s, id, k));
    }
}

/// `position` is `Some(i)` exactly for the first match `i`.
pub proof fn lemma_position_some(s: Seq<UserView>, id: u32, i: int)
    requires
        is_first_match(s, id, i),
    ensures
        position(s, id) == Some(i),
        find_spec(s, id) == Some(s[i]),
{
    assert(has_id(s, id));
    let c = choose|c: int| is_first_match(s, id, c);
    lemma_first_match_unique(s, id, i, c);
}

/// `position` is `None` exactly where no record carries the id.
pub proof fn lemma_position_none(s: Seq<UserView>, id: u32)
    requires
        forall|j: int| 0 <= j < s.len() ==> (#[trigger] s[j]).id != id,
    ensures
        position(s, id) == None::<int>,
        find_spec(s, id) == None::<UserView>,
{
}

/// What `position` returns is a first match.
pub proof fn lemma_position_is_first(s: Seq<UserView>, id: u32)
    ensures
        match position(s, id) {
            Some(i) => is_first_match(s, id, i),
            None => forall|j: int| 0 <= j < s.len() ==> (#[trigger] s[j]).id != id,
        },
{
    if has_id(s, id) {
        let k = choose|k: int| 0 <= k < s.len() && (#[trigger] s[k]).id == id;
        lemma_first_match_exists(s, id, k);
    }
}

/// The view of an optional record.
pub open spec fn view_of(o: Option<User>) -> Option<UserView> {
    match o {
        Some(u) => Some(u@),
        None => None,
    }
}

/// The two records that the store holds when the service starts.
pub open spec fn seed_spec() -> Seq<UserView> {
    seq![
        UserView { id: 1, name: "Hassan"@ },
        UserView { id: 2, name: "Hanzala"@ },
    ]
}

/// The authoritative collection of records, in insertion order.
pub struct RecordStore {
    users: Vec<User>,
}

impl View for RecordStore {
    type V = Seq<UserView>;

    closed spec fn view(&self) -> Seq<UserView> {
        self.users@.map_values(|u: User| u@)
    }
}

impl RecordStore {
    /// A store without records.
    pub fn new() -> (res: Self)
        ensures
            res@ == Seq::<UserView>::empty(),
    {
        let res = RecordStore { users: Vec::new() };
        assert(res@ =~= Seq::<UserView>::empty());
        res
    }

    /// A store that holds the given records, in their order.
    pub fn with_records(records: Vec<User>) -> (res: Self)
        ensures
            res@ == records@.map_values(|u: User| u@),
    {
        RecordStore { users: records }
    }

    /// A store that holds the two initial records.
    pub fn seeded() -> (res: Self)
        ensures
            res@ == seed_spec(),
    {
        let mut users: Vec<User> = Vec::new();
        users.push(User::new(1, "Hassan".to_owned()));
        users.push(User::new(2, "Hanzala".to_owned()));
        let res = RecordStore { users };
        assert(res@ =~= seed_spec());
        res
    }

    /// The number of records held.
    pub fn len(&self) -> (n: usize)
        ensures
            n == self@.len(),
    {
        self.users.len()
    }

    /// The position of the first record that carries `id`.
    fn index_of(&self, id: u32) -> (res: Option<usize>)
        ensures
            match res {
                Some(i) => is_first_match(self@, id, i as int) && position(self@, id) == Some(
                    i as int,
                ),
                None => !has_id(self@, id) && position(self@, id).is_none(),
            },
    {
        let mut i: usize = 0;
        while i < self.users.len()
            invariant
                0 <= i <= self.users.len(),
                forall|j: int| 0 <= j < i ==> (#[trigger] self@[j]).id != id,
            decreases self.users.len() - i,
        {
            if self.users[i].id == id {
                proof {
                    assert(self@[i as int].id == id);
                    lemma_position_some(self@, id, i as int);
                }
                return Some(i);
            }
            i += 1;
        }
        proof {
            lemma_position_none(self@, id);
        }
        None
    }

    /// Looks up the first record that carries `id` and returns a copy of it;
    /// `None` where no record carries it.
    pub fn find(&self, id: u32) -> (res: Option<User>)
        ensures
            view_of(res) == find_spec(self@, id),
    {
        match self.index_of(id) {
            Some(i) => Some(self.users[i].clone()),
            None => None,
        }
    }

    /// Appends `user` to the end of the sequence, whatever ids are already
    /// present, and returns a copy of it.
    pub fn insert(&mut self, user: User) -> (res: User)
        ensures
            final(self)@ == insert_spec(old(self)@, user@),
            res@ == user@,
    {
        let res = user.clone();
        self.users.push(user);
        assert(self@ =~= insert_spec(old(self)@, user@));
        res
    }

    /// Overwrites the first record that carries `id` with `user`, id included,
    /// and returns a copy of the stored record; where no record carries `id`,
    /// returns `None` and leaves the store as it was.
    pub fn replace(&mut self, id: u32, user: User) -> (res: Option<User>)
        ensures
            final(self)@ == replace_spec(old(self)@, id, user@),
            view_of(res) == (if has_id(old(self)@, id) { Some(user@) } else { None }),
    {
        match self.index_of(id) {
            Some(i) => {
                let res = user.clone();
                self.users[i] = user;
                assert(self@ =~= old(self)@.update(i as int, user@));
                Some(res)
            },
            None => None,
        }
    }

    /// Takes the first record that carries `id` out of the sequence and
    /// returns `true`; where no record carries `id`, returns `false` and
    /// leaves the store as it was.
    pub fn remove(&mut self, id: u32) -> (res: bool)
        ensures
            final(self)@ == remove_spec(old(self)@, id),
            res == has_id(old(self)@, id),
    {
        match self.index_of(id) {
            Some(i) => {
                self.users.remove(i);
                assert(self@ =~= old(self)@.remove(i as int));
                true
            },
            None => false,
        }
    }
}

} // verus!
