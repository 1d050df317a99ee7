use speer_test::error::Error;
use speer_test::model::{CreateNoteRequest, Note, SearchQuery, ShareNoteRequest, UpdateNoteRequest, User};
use speer_test::note::{
    acting_user, apply_note_update, authorize_write, note_lister, readable_note, search_runs,
    NoteWrite, WriteStep, MIN_QUERY_LEN,
};

fn note(owner: u128) -> Note {
    Note { id: 1, user_id: owner, title: "title".to_string(), content: "content".to_string(), created_at: 5 }
}

fn alice() -> User {
    User { id: 7, username: "alice".to_string(), password_hash: String::new(), created_at: 0 }
}

fn db_error() -> Error {
    Error::Anyhow(anyhow::Error::msg("db down"))
}

#[test]
fn listing_without_user_is_a_bad_request() {
    assert!(matches!(note_lister(None), Err(Error::BadRequest)));
    assert_eq!(note_lister(Some(alice())).ok().unwrap().id, 7);
}

#[test]
fn acting_without_user_is_unauthorized() {
    assert!(matches!(acting_user(None), Err(Error::Unauthorized)));
    assert_eq!(acting_user(Some(alice())).ok().unwrap().id, 7);
}

#[test]
fn reading_a_missing_note_is_forbidden() {
    assert!(matches!(readable_note(Ok(None)), Err(Error::Forbidden)));
    assert_eq!(readable_note(Ok(Some(note(9)))).ok().unwrap().user_id, 9);
    assert!(matches!(readable_note(Err(db_error())), Err(Error::Anyhow(_))));
}

#[test]
fn short_queries_do_not_search() {
    let q = SearchQuery { q: "ab".to_string() };
    assert_eq!(MIN_QUERY_LEN, 3);
    assert!(!search_runs(&q.q));
    assert!(search_runs(&"new york".to_string()));
    assert!(search_runs(&"abc".to_string()));
    assert!(!search_runs(&String::new()));
    assert!(!search_runs(&"é".to_string()));
    assert!(search_runs(&"éa".to_string()));
}

#[test]
fn only_the_owner_changes_a_note() {
    for op in [NoteWrite::Update, NoteWrite::Delete, NoteWrite::Share] {
        assert!(matches!(authorize_write(op, 7, Ok(Some(note(9)))), WriteStep::Respond(Err(Error::Forbidden))));
        assert!(matches!(authorize_write(op, 7, Ok(Some(note(7)))), WriteStep::Proceed(n) if n.id == 1));
        assert!(matches!(authorize_write(op, 7, Err(db_error())), WriteStep::Respond(Err(Error::Anyhow(_)))));
    }
}

#[test]
fn missing_note_deletes_nothing_but_forbids_the_rest() {
    assert!(matches!(authorize_write(NoteWrite::Delete, 7, Ok(None)), WriteStep::Respond(Ok(()))));
    assert!(matches!(authorize_write(NoteWrite::Update, 7, Ok(None)), WriteStep::Respond(Err(Error::Forbidden))));
    assert!(matches!(authorize_write(NoteWrite::Share, 7, Ok(None)), WriteStep::Respond(Err(Error::Forbidden))));
}

#[test]
fn update_replaces_given_fields() {
    let changes = UpdateNoteRequest { title: Some("new".to_string()), content: None };
    let (n, altered) = apply_note_update(note(7), changes);
    assert!(altered);
    assert_eq!(n.title, "new");
    assert_eq!(n.content, "content");
    assert_eq!((n.id, n.user_id, n.created_at), (1, 7, 5));
}

#[test]
fn update_with_current_values_alters_nothing() {
    let same = UpdateNoteRequest { title: Some("title".to_string()), content: Some("content".to_string()) };
    let (n, altered) = apply_note_update(note(7), same);
    assert!(!altered);
    assert_eq!(n.title, "title");
    let none = UpdateNoteRequest { title: None, content: None };
    assert!(!apply_note_update(note(7), none).1);
}

#[test]
fn update_applied_twice_alters_once() {
    let changes = UpdateNoteRequest { title: Some("t2".to_string()), content: Some("c2".to_string()) };
    let (once, first) = apply_note_update(note(7), changes.clone());
    let (twice, second) = apply_note_update(once.clone(), changes);
    assert!(first);
    assert!(!second);
    assert_eq!(once.title, twice.title);
    assert_eq!(once.content, twice.content);
}

#[test]
fn request_bodies_hold_their_fields() {
    let c = CreateNoteRequest { title: "t".to_string(), content: "c".to_string() };
    assert_eq!((c.title.as_str(), c.content.as_str()), ("t", "c"));
    let s = ShareNoteRequest { target_user_id: 3 };
    assert_eq!(s.target_user_id, 3);
}
