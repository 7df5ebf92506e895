//! The record type held by the store.

use vstd::prelude::*;

verus! {

/// The mathematical value of a record: its id and the characters of its name.
pub struct UserView {
    pub id: u32,
    pub name: Seq<char>,
}

/// A user record. Both fields are supplied by the caller and are not
/// validated: any id and any name are accepted.
#[derive(Debug, PartialEq, Eq)]
pub struct User {
    pub id: u32,
    pub name: String,
}

impl View for User {
    type V = UserView;

    open spec fn view(&self) -> UserView {
        UserView { id: self.id, name: self.name@ }
    }
}

impl Clone for User {
    /// A copy with the same id and the same name.
    fn clone(&self) -> (res: Self)
        ensures
            res@ == self@,
    {
        User { id: self.id, name: self.name.clone() }
    }
}

impl User {
    /// Builds a record from an id and a name.
    pub fn new(id: u32, name: String) -> (res: Self)
        ensures
            res@ == (UserView { id: id, name: name@ }),
    {
        User { id, name }
    }
}

} // verus!
