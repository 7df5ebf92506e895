//! The request handlers: each performs one store operation and maps its
//! outcome to a response.

use vstd::prelude::*;
use crate::store::{RecordStore, find_spec, has_id, insert_spec, remove_spec, replace_spec};
use crate::user::{User, UserView};

verus! {

/// Status of a successful lookup or update.
pub const STATUS_OK: u16 = 200;

/// Status of a successful creation.
pub const STATUS_CREATED: u16 = 201;

/// Status of a successful deletion.
pub const STATUS_NO_CONTENT: u16 = 204;

/// Status of a request whose target id is absent.
pub const STATUS_NOT_FOUND: u16 = 404;

/// The mathematical value of a response body.
pub enum BodyView {
    Record(UserView),
    Text(Seq<char>),
    Empty,
}

/// What a response carries: a record to be encoded, a plain text, or nothing.
#[derive(Debug, PartialEq, Eq)]
pub enum Body {
    Record(User),
    Text(String),
    Empty,
}

impl View for Body {
    type V = BodyView;

    open spec fn view(&self) -> BodyView {
        match self {
            Body::Record(u) => BodyView::Record(u@),
            Body::Text(t) => BodyView::Text(t@),
            Body::Empty => BodyView::Empty,
        }
    }
}

/// The mathematical value of a response.
pub struct ResponseView {
    pub status: u16,
    pub body: BodyView,
}

/// A response: a status code and a body.
#[derive(Debug, PartialEq, Eq)]
pub struct Response {
    pub status: u16,
    pub body: Body,
}

impl View for Response {
    type V = ResponseView;

    open spec fn view(&self) -> ResponseView {
        ResponseView { status: self.status, body: self.body@ }
    }
}

/// The response to a request whose target id is absent.
pub open spec fn not_found_spec() -> ResponseView {
    ResponseView { status: 404, body: BodyView::Text("User not found"@) }
}

/// The response to a lookup of `id` in `s`.
pub open spec fn get_spec(s: Seq<UserView>, id: u32) -> ResponseView {
    match find_spec(s, id) {
        Some(u) => ResponseView { status: 200, body: BodyView::Record(u) },
        None => not_found_spec(),
    }
}

/// The response to the creation of `u`.
pub open spec fn create_spec(u: UserView) -> ResponseView {
    ResponseView { status: 201, body: BodyView::Record(u) }
}

/// The response to an update of `id` in `s` by `u`.
pub open spec fn update_spec(s: Seq<UserView>, id: u32, u: UserView) -> ResponseView {
    if has_id(s, id) {
        ResponseView { status: 200, body: BodyView::Record(u) }
    } else {
        not_found_spec()
    }
}

/// The response to a deletion of `id` from `s`.
pub open spec fn delete_spec(s: Seq<UserView>, id: u32) -> ResponseView {
    if has_id(s, id) {
        ResponseView { status: 204, body: BodyView::Empty }
    } else {
        not_found_spec()
    }
}

/// Builds the response to a request whose target id is absent.
pub fn not_found() -> (res: Response)
    ensures
        res@ == not_found_spec(),
{
    Response { status: STATUS_NOT_FOUND, body: Body::Text("User not found".to_owned()) }
}

/// Looks `user_id` up and answers with the record found, or with the
/// not-found response. The store is only read.
pub fn get_user(user_id: u32, users: &RecordStore) -> (res: Response)
    ensures
        res@ == get_spec(users@, user_id),
{
    match users.find(user_id) {
        Some(user) => Response { status: STATUS_OK, body: Body::Record(user) },
        None => not_found(),
    }
}

/// Appends `user` to the store and answers with a copy of it. Never fails.
pub fn create_user(user: User, users: &mut RecordStore) -> (res: Response)
    ensures
        res@ == create_spec(user@),
        final(users)@ == insert_spec(old(users)@, user@),
{
    let stored = users.insert(user);
    Response { status: STATUS_CREATED, body: Body::Record(stored) }
}

/// Overwrites the first record that carries `user_id` with `updated_user`
/// and answers with the stored record, or with the not-found response, in
/// which case the store is left as it was.
pub fn update_user(user_id: u32, updated_user: User, users: &mut RecordStore) -> (res: Response)
    ensures
        res@ == update_spec(old(users)@, user_id, updated_user@),
        final(users)@ == replace_spec(old(users)@, user_id, updated_user@),
{
    match users.replace(user_id, updated_user) {
        Some(stored) => Response { status: STATUS_OK, body: Body::Record(stored) },
        None => not_found(),
    }
}

/// Takes the first record that carries `user_id` out of the store and
/// answers with an empty response, or with the not-found response, in which
/// case the store is left as it was.
pub fn delete_user(user_id: u32, users: &mut RecordStore) -> (res: Response)
    ensures
        res@ == delete_spec(old(users)@, user_id),
        final(users)@ == remove_spec(old(users)@, user_id),
{
    if users.remove(user_id) {
        Response { status: STATUS_NO_CONTENT, body: Body::Empty }
    } else {
        not_found()
    }
}

/// The mathematical value of a request.
pub enum RequestView {
    Get(u32),
    Create(UserView),
    Update(u32, UserView),
    Delete(u32),
}

/// A decoded request: the operation asked for, with its id and record.
#[derive(Debug, PartialEq, Eq)]
pub enum Request {
    /// Look a record up by id.
    Get(u32),
    /// Append a record.
    Create(User),
    /// Overwrite the record found by id.
    Update(u32, User),
    /// Take out the record found by id.
    Delete(u32),
}

impl View for Request {
    type V = RequestView;

    open spec fn view(&self) -> RequestView {
        match self {
            Request::Get(id) => RequestView::Get(*id),
            Request::Create(u) => RequestView::Create(u@),
            Request::Update(id, u) => RequestView::Update(*id, u@),
            Request::Delete(id) => RequestView::Delete(*id),
        }
    }
}

/// The response that `request` gets from a store that holds `s`.
pub open spec fn respond_spec(s: Seq<UserView>, request: RequestView) -> ResponseView {
    match request {
        RequestView::Get(id) => get_spec(s, id),
        RequestView::Create(u) => create_spec(u),
        RequestView::Update(id, u) => update_spec(s, id, u),
        RequestView::Delete(id) => delete_spec(s, id),
    }
}

/// What a store that holds `s` holds after `request`.
pub open spec fn next_spec(s: Seq<UserView>, request: RequestView) -> Seq<UserView> {
    match request {
        RequestView::Get(id) => s,
        RequestView::Create(u) => insert_spec(s, u),
        RequestView::Update(id, u) => replace_spec(s, id, u),
        RequestView::Delete(id) => remove_spec(s, id),
    }
}

/// Hands `request` to its handler: one store operation, one response.
pub fn handle(request: Request, users: &mut RecordStore) -> (res: Response)
    ensures
        res@ == respond_spec(old(users)@, request@),
        final(users)@ == next_spec(old(users)@, request@),
{
    match request {
        Request::Get(id) => get_user(id, users),
        Request::Create(user) => create_user(user, users),
        Request::Update(id, user) => update_user(id, user, users),
        Request::Delete(id) => delete_user(id, users),
    }
}

} // verus!
