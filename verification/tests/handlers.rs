use user_store::handlers::{
    create_user, delete_user, get_user, handle, not_found, update_user, Body, Request, Response,
    STATUS_CREATED, STATUS_NOT_FOUND, STATUS_NO_CONTENT, STATUS_OK,
};
use user_store::store::RecordStore;
use user_store::user::User;

fn rec(id: u32, name: &str) -> User {
    User::new(id, name.to_string())
}

fn missing() -> Response {
    Response { status: 404, body: Body::Text("User not found".to_string()) }
}

#[test]
fn status_codes_have_their_values() {
    assert_eq!(STATUS_OK, 200);
    assert_eq!(STATUS_CREATED, 201);
    assert_eq!(STATUS_NO_CONTENT, 204);
    assert_eq!(STATUS_NOT_FOUND, 404);
}

#[test]
fn not_found_is_404_with_the_fixed_text() {
    assert_eq!(not_found(), missing());
}

#[test]
fn get_user_answers_200_with_the_record() {
    let store = RecordStore::seeded();
    assert_eq!(
        get_user(1, &store),
        Response { status: 200, body: Body::Record(rec(1, "Hassan")) }
    );
    assert_eq!(
        get_user(2, &store),
        Response { status: 200, body: Body::Record(rec(2, "Hanzala")) }
    );
}

#[test]
fn get_user_answers_404_for_an_absent_id() {
    let store = RecordStore::seeded();
    assert_eq!(get_user(3, &store), missing());
    assert_eq!(store.len(), 2);
}

#[test]
fn create_user_answers_201_and_appends() {
    let mut store = RecordStore::seeded();
    let response = create_user(rec(3, "Imran"), &mut store);
    assert_eq!(response, Response { status: 201, body: Body::Record(rec(3, "Imran")) });
    assert_eq!(store.len(), 3);
    assert_eq!(store.find(3), Some(rec(3, "Imran")));
}

#[test]
fn create_user_with_an_id_already_held_still_answers_201() {
    let mut store = RecordStore::seeded();
    let response = create_user(rec(1, "Again"), &mut store);
    assert_eq!(response, Response { status: 201, body: Body::Record(rec(1, "Again")) });
    assert_eq!(store.len(), 3);
    assert_eq!(store.find(1), Some(rec(1, "Hassan")));
}

#[test]
fn update_user_answers_200_with_the_stored_record() {
    let mut store = RecordStore::seeded();
    let response = update_user(2, rec(2, "Hamza"), &mut store);
    assert_eq!(response, Response { status: 200, body: Body::Record(rec(2, "Hamza")) });
    assert_eq!(store.find(2), Some(rec(2, "Hamza")));
    assert_eq!(store.find(1), Some(rec(1, "Hassan")));
    assert_eq!(store.len(), 2);
}

#[test]
fn update_user_answers_404_and_leaves_the_store() {
    let mut store = RecordStore::seeded();
    assert_eq!(update_user(5, rec(5, "Nobody"), &mut store), missing());
    assert_eq!(store.len(), 2);
    assert_eq!(store.find(5), None);
}

#[test]
fn delete_user_answers_204_with_an_empty_body() {
    let mut store = RecordStore::seeded();
    assert_eq!(delete_user(1, &mut store), Response { status: 204, body: Body::Empty });
    assert_eq!(store.len(), 1);
    assert_eq!(store.find(1), None);
    assert_eq!(store.find(2), Some(rec(2, "Hanzala")));
}

#[test]
fn delete_user_answers_404_and_leaves_the_store() {
    let mut store = RecordStore::seeded();
    assert_eq!(delete_user(9, &mut store), missing());
    assert_eq!(store.len(), 2);
}

#[test]
fn handle_runs_the_scenario_from_the_seed_records() {
    let mut store = RecordStore::seeded();
    assert_eq!(
        handle(Request::Get(1), &mut store),
        Response { status: 200, body: Body::Record(rec(1, "Hassan")) }
    );
    assert_eq!(
        handle(Request::Create(rec(3, "Imran")), &mut store),
        Response { status: 201, body: Body::Record(rec(3, "Imran")) }
    );
    assert_eq!(
        handle(Request::Get(3), &mut store),
        Response { status: 200, body: Body::Record(rec(3, "Imran")) }
    );
    assert_eq!(
        handle(Request::Update(3, rec(3, "Imran Khan")), &mut store),
        Response { status: 200, body: Body::Record(rec(3, "Imran Khan")) }
    );
    assert_eq!(
        handle(Request::Delete(3), &mut store),
        Response { status: 204, body: Body::Empty }
    );
    assert_eq!(handle(Request::Get(3), &mut store), missing());
    assert_eq!(store.len(), 2);
}

#[test]
fn handle_get_does_not_change_the_store() {
    let mut store = RecordStore::seeded();
    for _ in 0..3 {
        assert_eq!(handle(Request::Get(7), &mut store), missing());
    }
    assert_eq!(store.len(), 2);
    assert_eq!(store.find(1), Some(rec(1, "Hassan")));
}
