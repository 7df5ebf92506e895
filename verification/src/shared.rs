//! A store shared by concurrent callers behind one exclusive lock.
//!
//! Every operation takes the lock, performs one operation on the records,
//! and gives the lock back when it returns, whatever the outcome. Reads take
//! the same lock as writes, so no two operations ever overlap. What a caller
//! sees of the records depends on what other callers did before, so the
//! contracts of `SharedStore` state only what holds of every content of the
//! store. The exact contracts are those of the functions named `*_held`:
//! each takes the outcome of taking the lock, the records where it is held
//! and nothing where it is poisoned, and says what the operation returns and
//! how it leaves the records.

use vstd::prelude::*;
use std::sync::{Mutex, MutexGuard};
use crate::handlers::{handle, next_spec, respond_spec, Request, Response};
use crate::store::{
    find_spec, has_id, insert_spec, lemma_position_is_first, remove_spec, replace_spec, view_of,
    RecordStore,
};
use crate::user::{User, UserView};

verus! {

/// The lock of the standard library. Nothing is known of what it guards
/// until it is held.
#[verifier::external_type_specification]
#[verifier::external_body]
#[verifier::reject_recursive_types(T)]
pub struct ExMutex<T: ?Sized>(Mutex<T>);

/// The proof that the lock is held. The lock is given back when this value
/// goes out of scope.
#[verifier::external_type_specification]
#[verifier::external_body]
#[verifier::reject_recursive_types(T)]
pub struct ExMutexGuard<'a, T: ?Sized + 'a>(MutexGuard<'a, T>);

/// Why an operation on the shared store did not take place.
#[derive(Debug, Clone, Copy, PartialEq, Eq)]
pub enum StoreError {
    /// An earlier holder of the lock ended abnormally while it held it, so
    /// the records can no longer be trusted. This is fatal: there is no
    /// other way to the records.
    LockUnavailable,
}

/// The records behind their lock. One instance lives as long as the service
/// and is reached by reference from every caller.
pub struct SharedStore {
    users: Mutex<RecordStore>,
}

/// `Mutex::new`: puts the records behind a new lock, which nobody holds.
/// Nothing is claimed of the result.
#[verifier::external_body]
fn new_lock(store: RecordStore) -> (res: Mutex<RecordStore>) {
    Mutex::new(store)
}

/// `Mutex::lock`: waits until the lock is free and takes it. `None` stands
/// for a poisoned lock. Nothing is claimed of the result. The call does not
/// return where the calling thread already holds the lock; no function of
/// this file calls it while it holds a guard, and no guard leaves this file.
#[verifier::external_body]
fn acquire<'a>(lock: &'a Mutex<RecordStore>) -> (res: Option<MutexGuard<'a, RecordStore>>) {
    lock.lock().ok()
}

/// `DerefMut::deref_mut` of the guard: the records that the held lock
/// guards. Nothing is claimed of them: they are what the last holder left.
#[verifier::external_body]
fn held<'a, 'b>(guard: &'a mut MutexGuard<'b, RecordStore>) -> (res: &'a mut RecordStore) {
    &mut **guard
}

impl SharedStore {
    /// Puts `store` behind a lock.
    pub fn new(store: RecordStore) -> (res: Self) {
        SharedStore { users: new_lock(store) }
    }

    /// The number of records held at the moment of the call. For each
    /// outcome of taking the lock, the result is that of `len_held`.
    pub fn len(&self) -> (res: Result<usize, StoreError>) {
        let mut guard = acquire(&self.users);
        let users = match &mut guard {
            Some(g) => Some(&*held(g)),
            None => None,
        };
        len_held(users)
    }

    /// Looks `id` up under the lock. What is returned is the answer of the
    /// lookup on the records held at that moment, so a record that is
    /// returned carries `id`. For each outcome of taking the lock, the
    /// result is that of `find_held`.
    pub fn find(&self, id: u32) -> (res: Result<Option<User>, StoreError>)
        ensures
            res matches Ok(found) ==> exists|s: Seq<UserView>| view_of(found) == find_spec(s, id),
            res matches Ok(Some(u)) ==> u@.id == id,
    {
        let mut guard = acquire(&self.users);
        let users = match &mut guard {
            Some(g) => Some(&*held(g)),
            None => None,
        };
        proof {
            if let Some(r) = users {
                lemma_position_is_first(r@, id);
            }
        }
        find_held(users, id)
    }

    /// Appends `user` under the lock and returns a copy of it. For each
    /// outcome of taking the lock, the result is that of `insert_held`.
    pub fn insert(&self, user: User) -> (res: Result<User, StoreError>)
        ensures
            res matches Ok(u) ==> u@ == user@,
    {
        let mut guard = acquire(&self.users);
        let users = match &mut guard {
            Some(g) => Some(held(g)),
            None => None,
        };
        insert_held(users, user)
    }

    /// Overwrites, under the lock, the first record that carries `id` with
    /// `user`. A record that is returned is a copy of `user`. For each
    /// outcome of taking the lock, the result is that of `replace_held`.
    pub fn replace(&self, id: u32, user: User) -> (res: Result<Option<User>, StoreError>)
        ensures
            res matches Ok(Some(u)) ==> u@ == user@,
    {
        let mut guard = acquire(&self.users);
        let users = match &mut guard {
            Some(g) => Some(held(g)),
            None => None,
        };
        replace_held(users, id, user)
    }

    /// Takes, under the lock, the first record that carries `id` out of the
    /// records, and says whether there was one. For each outcome of taking
    /// the lock, the result is that of `remove_held`.
    pub fn remove(&self, id: u32) -> (res: Result<bool, StoreError>) {
        let mut guard = acquire(&self.users);
        let users = match &mut guard {
            Some(g) => Some(held(g)),
            None => None,
        };
        remove_held(users, id)
    }

    /// Handles one request under the lock, which is held from before the
    /// store operation until the response is built. The response is the one
    /// that the request gets from the records held at that moment. For each
    /// outcome of taking the lock, the result is that of `serve_held`.
    pub fn serve(&self, request: Request) -> (res: Result<Response, StoreError>)
        ensures
            res matches Ok(r) ==> exists|s: Seq<UserView>| r@ == respond_spec(s, request@),
    {
        let mut guard = acquire(&self.users);
        let users = match &mut guard {
            Some(g) => Some(held(g)),
            None => None,
        };
        serve_held(users, request)
    }
}

/// What `SharedStore::len` returns for each outcome of taking the lock: the
/// number of the records where they are held, the error where they are not.
pub fn len_held(held: Option<&RecordStore>) -> (res: Result<usize, StoreError>)
    ensures
        res == (match held {
            Some(users) => Ok(users@.len() as usize),
            None => Err(StoreError::LockUnavailable),
        }),
{
    match held {
        Some(users) => Ok(users.len()),
        None => Err(StoreError::LockUnavailable),
    }
}

/// What `SharedStore::find` returns for each outcome of taking the lock: the
/// answer of the lookup on the records where they are held, the error where
/// they are not.
pub fn find_held(held: Option<&RecordStore>, id: u32) -> (res: Result<Option<User>, StoreError>)
    ensures
        match held {
            Some(users) => res matches Ok(found) && view_of(found) == find_spec(users@, id),
            None => res == Err::<Option<User>, StoreError>(StoreError::LockUnavailable),
        },
{
    match held {
        Some(users) => Ok(users.find(id)),
        None => Err(StoreError::LockUnavailable),
    }
}

/// What `SharedStore::insert` does for each outcome of taking the lock:
/// where the records are held, `user` is appended to them and a copy of it
/// is returned; where they are not, the error.
pub fn insert_held(held: Option<&mut RecordStore>, user: User) -> (res: Result<User, StoreError>)
    ensures
        match held {
            Some(users) => final(users)@ == insert_spec(users@, user@) && (res matches Ok(u)
                && u@ == user@),
            None => res == Err::<User, StoreError>(StoreError::LockUnavailable),
        },
{
    match held {
        Some(users) => Ok(users.insert(user)),
        None => Err(StoreError::LockUnavailable),
    }
}

/// What `SharedStore::replace` does for each outcome of taking the lock:
/// where the records are held, the first of them that carries `id` is
/// overwritten by `user`, and a copy of `user` is returned if there was one;
/// where they are not, the error.
pub fn replace_held(held: Option<&mut RecordStore>, id: u32, user: User) -> (res: Result<
    Option<User>,
    StoreError,
>)
    ensures
        match held {
            Some(users) => final(users)@ == replace_spec(users@, id, user@) && (res matches Ok(
                stored,
            ) && view_of(stored) == (if has_id(users@, id) {
                Some(user@)
            } else {
                None
            })),
            None => res == Err::<Option<User>, StoreError>(StoreError::LockUnavailable),
        },
{
    match held {
        Some(users) => Ok(users.replace(id, user)),
        None => Err(StoreError::LockUnavailable),
    }
}

/// What `SharedStore::remove` does for each outcome of taking the lock:
/// where the records are held, the first of them that carries `id` is taken
/// out, and the result says whether there was one; where they are not, the
/// error.
pub fn remove_held(held: Option<&mut RecordStore>, id: u32) -> (res: Result<bool, StoreError>)
    ensures
        match held {
            Some(users) => final(users)@ == remove_spec(users@, id) && res == Ok::<
                bool,
                StoreError,
            >(has_id(users@, id)),
            None => res == Err::<bool, StoreError>(StoreError::LockUnavailable),
        },
{
    match held {
        Some(users) => Ok(users.remove(id)),
        None => Err(StoreError::LockUnavailable),
    }
}

/// What `SharedStore::serve` does for each outcome of taking the lock: where
/// the records are held, the request is handled on them; where they are
/// not, the error.
pub fn serve_held(held: Option<&mut RecordStore>, request: Request) -> (res: Result<
    Response,
    StoreError,
>)
    ensures
        match held {
            Some(users) => final(users)@ == next_spec(users@, request@) && (res matches Ok(r)
                && r@ == respond_spec(users@, request@)),
            None => res == Err::<Response, StoreError>(StoreError::LockUnavailable),
        },
{
    match held {
        Some(users) => Ok(handle(request, users)),
        None => Err(StoreError::LockUnavailable),
    }
}

} // verus!
