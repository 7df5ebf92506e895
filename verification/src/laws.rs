//! Laws that relate the store's operations to one another.

use vstd::prelude::*;
use crate::store::{
    find_spec, has_id, insert_spec, is_first_match, lemma_position_is_first, lemma_position_none,
    lemma_position_some, position, remove_spec, replace_spec, seed_spec,
};
use crate::user::UserView;

verus! {

/// A lookup after an insert: an id that was present before is still answered
/// by the record that answered it before; the inserted record answers for its
/// own id only where that id was absent; any other id stays absent.
pub proof fn law_find_after_any_insert(s: Seq<UserView>, u: UserView, id: u32)
    ensures
        find_spec(insert_spec(s, u), id) == (if has_id(s, id) {
            find_spec(s, id)
        } else if u.id == id {
            Some(u)
        } else {
            None
        }),
{
    let t = insert_spec(s, u);
    lemma_position_is_first(s, id);
    match position(s, id) {
        Some(i) => {
            assert(t[i] == s[i]);
            assert forall|j: int| 0 <= j < i implies (#[trigger] t[j]).id != id by {
                assert(t[j] == s[j]);
            }
            lemma_position_some(t, id, i);
        },
        None => {
            assert forall|j: int| 0 <= j < s.len() implies (#[trigger] t[j]).id != id by {
                assert(t[j] == s[j]);
            }
            if u.id == id {
                assert(t[s.len() as int] == u);
                lemma_position_some(t, id, s.len() as int);
            } else {
                lemma_position_none(t, id);
            }
        },
    }
}

/// A record inserted under an id that no stored record carries is what a
/// lookup of that id returns afterwards.
pub proof fn law_find_after_insert(s: Seq<UserView>, u: UserView)
    requires
        !has_id(s, u.id),
    ensures
        find_spec(insert_spec(s, u), u.id) == Some(u),
{
    law_find_after_any_insert(s, u, u.id);
}

/// A lookup is absent exactly for the ids that no stored record carries.
pub proof fn law_absent_iff_not_held(s: Seq<UserView>, id: u32)
    ensures
        find_spec(s, id).is_none() <==> !has_id(s, id),
{
}

/// In the initial store every id other than the two seeded ones is absent.
pub proof fn law_seed_absent(id: u32)
    requires
        id != 1,
        id != 2,
    ensures
        find_spec(seed_spec(), id).is_none(),
{
    lemma_position_none(seed_spec(), id);
}

/// A replace keeps the length and changes at most the place of the first
/// record that carries the id: that place then holds the new record, and
/// every other place holds what it held.
pub proof fn law_replace_changes_one_place(s: Seq<UserView>, id: u32, u: UserView)
    ensures
        replace_spec(s, id, u).len() == s.len(),
        forall|j: int|
            0 <= j < s.len() && position(s, id) != Some(j) ==> #[trigger] replace_spec(s, id, u)[j]
                == s[j],
        position(s, id) matches Some(i) ==> replace_spec(s, id, u)[i] == u,
{
    lemma_position_is_first(s, id);
}

/// A lookup of another id after a replace. It returns the new record where
/// that record carries the id looked up and now stands before every stored
/// record that carries it; in every other case it returns what it returned
/// before.
pub proof fn law_find_after_replace(s: Seq<UserView>, id: u32, u: UserView, other: u32)
    requires
        other != id,
    ensures
        find_spec(replace_spec(s, id, u), other) == (if has_id(s, id) && u.id == other && (
        match (position(s, id), position(s, other)) {
            (Some(p), Some(q)) => p < q,
            _ => true,
        }) {
            Some(u)
        } else {
            find_spec(s, other)
        }),
{
    let t = replace_spec(s, id, u);
    lemma_position_is_first(s, id);
    lemma_position_is_first(s, other);
    match position(s, id) {
        Some(p) => {
            assert(t == s.update(p, u));
            match position(s, other) {
                Some(q) => {
                    if u.id == other && p < q {
                        assert forall|j: int| 0 <= j < p implies (#[trigger] t[j]).id != other by {
                            assert(t[j] == s[j]);
                        }
                        lemma_position_some(t, other, p);
                    } else {
                        assert(t[q] == s[q]);
                        assert forall|j: int| 0 <= j < q implies (#[trigger] t[j]).id != other by {
                            if j != p {
                                assert(t[j] == s[j]);
                            }
                        }
                        lemma_position_some(t, other, q);
                    }
                },
                None => {
                    if u.id == other {
                        assert forall|j: int| 0 <= j < p implies (#[trigger] t[j]).id != other by {
                            assert(t[j] == s[j]);
                        }
                        lemma_position_some(t, other, p);
                    } else {
                        assert forall|j: int| 0 <= j < t.len() implies (#[trigger] t[j]).id
                            != other by {
                            if j != p {
                                assert(t[j] == s[j]);
                            }
                        }
                        lemma_position_none(t, other);
                    }
                },
            }
        },
        None => {},
    }
}

/// A replace leaves the lookup of every id unaffected that is neither the id
/// replaced nor the id of the new record.
pub proof fn law_replace_preserves_others(s: Seq<UserView>, id: u32, u: UserView, other: u32)
    requires
        other != id,
        other != u.id,
    ensures
        find_spec(replace_spec(s, id, u), other) == find_spec(s, other),
{
    law_find_after_replace(s, id, u, other);
}

/// Removing an id that is held shortens the sequence by exactly one;
/// removing an id that is not held leaves the sequence as it was.
pub proof fn law_remove_shrinks_by_one(s: Seq<UserView>, id: u32)
    ensures
        has_id(s, id) ==> remove_spec(s, id).len() == s.len() - 1,
        !has_id(s, id) ==> remove_spec(s, id) == s,
{
    lemma_position_is_first(s, id);
}

/// Where exactly one record carries the id, a first remove takes it out and
/// a second one finds nothing: the id is absent and the sequence stays as
/// the first remove left it.
pub proof fn law_second_remove_fails(s: Seq<UserView>, id: u32)
    requires
        has_id(s, id),
        forall|i: int, j: int|
            0 <= i < s.len() && 0 <= j < s.len() && (#[trigger] s[i]).id == id && (#[trigger] s[j]).id
                == id ==> i == j,
    ensures
        !has_id(remove_spec(s, id), id),
        remove_spec(remove_spec(s, id), id) == remove_spec(s, id),
{
    lemma_position_is_first(s, id);
    let p = position(s, id).unwrap();
    let t = remove_spec(s, id);
    assert forall|j: int| 0 <= j < t.len() implies (#[trigger] t[j]).id != id by {
        if j < p {
            assert(t[j] == s[j]);
        } else {
            assert(t[j] == s[j + 1]);
        }
    }
    lemma_position_none(t, id);
}

/// A remove leaves the lookup of every other id unaffected.
pub proof fn law_remove_preserves_others(s: Seq<UserView>, id: u32, other: u32)
    requires
        other != id,
    ensures
        find_spec(remove_spec(s, id), other) == find_spec(s, other),
{
    let t = remove_spec(s, id);
    lemma_position_is_first(s, id);
    lemma_position_is_first(s, other);
    match position(s, id) {
        Some(p) => {
            match position(s, other) {
                Some(q) => {
                    let k = if q < p {
                        q
                    } else {
                        q - 1
                    };
                    assert(t[k] == s[q]);
                    assert forall|j: int| 0 <= j < k implies (#[trigger] t[j]).id != other by {
                        if j < p {
                            assert(t[j] == s[j]);
                        } else {
                            assert(t[j] == s[j + 1]);
                        }
                    }
                    lemma_position_some(t, other, k);
                },
                None => {
                    assert forall|j: int| 0 <= j < t.len() implies (#[trigger] t[j]).id
                        != other by {
                        if j < p {
                            assert(t[j] == s[j]);
                        } else {
                            assert(t[j] == s[j + 1]);
                        }
                    }
                    lemma_position_none(t, other);
                },
            }
        },
        None => {},
    }
}

/// The sequence after the records of `us` have been inserted one after the
/// other, in their order.
pub open spec fn insert_all_spec(s: Seq<UserView>, us: Seq<UserView>) -> Seq<UserView>
    decreases us.len(),
{
    if us.len() == 0 {
        s
    } else {
        insert_spec(insert_all_spec(s, us.drop_last()), us.last())
    }
}

/// Inserting one after the other appends the records in their order.
pub proof fn law_insert_all_appends(s: Seq<UserView>, us: Seq<UserView>)
    ensures
        insert_all_spec(s, us) == s + us,
    decreases us.len(),
{
    if us.len() == 0 {
        assert(s + us =~= s);
    } else {
        law_insert_all_appends(s, us.drop_last());
        assert((s + us.drop_last()).push(us.last()) =~= s + us);
    }
}

/// No insert is lost: after any number of inserts, in whatever order they
/// were serialised, the length has grown by their number; and where their
/// ids differ from one another and from every id held before, each record
/// is what a lookup of its id returns.
pub proof fn law_inserts_all_found(s: Seq<UserView>, us: Seq<UserView>)
    requires
        forall|i: int| 0 <= i < us.len() ==> !has_id(s, (#[trigger] us[i]).id),
        forall|i: int, j: int|
            0 <= i < us.len() && 0 <= j < us.len() && i != j ==> (#[trigger] us[i]).id != (
            #[trigger] us[j]).id,
    ensures
        insert_all_spec(s, us).len() == s.len() + us.len(),
        forall|i: int|
            0 <= i < us.len() ==> find_spec(insert_all_spec(s, us), (#[trigger] us[i]).id) == Some(
                us[i],
            ),
{
    law_insert_all_appends(s, us);
    let t = s + us;
    assert forall|i: int| 0 <= i < us.len() implies find_spec(t, (#[trigger] us[i]).id) == Some(
        us[i],
    ) by {
        let id = us[i].id;
        let k = s.len() + i;
        assert(t[k] == us[i]);
        assert(!has_id(s, id));
        assert forall|j: int| 0 <= j < k implies (#[trigger] t[j]).id != id by {
            if j < s.len() {
                assert(t[j] == s[j]);
            } else {
                assert(t[j] == us[j - s.len()]);
            }
        }
        lemma_position_some(t, id, k);
    }
}

} // verus!
