use rocket_yew_todo::models::Entry;

use rocket_yew_todo::store::{
    document_id, document_to_entry, id_text, with_new_id, BlankIdRule, SaveSession, SaveStep, Stage, StoreReply,
    StoreRequest, TaskDocument,
};

const BYTES: [u8; 12] = [0x53, 0xe3, 0x7d, 0x08, 0x77, 0x6f, 0x72, 0x4e, 0x42, 0x00, 0x00, 0xff];
const TEXT: &str = "53e37d08776f724e420000ff";

fn entry(id: &str, description: &str) -> Entry {
    Entry {
        _id: id.to_string(),
        completed: true,
        description: description.to_string(),
        editing: false,
    }
}

#[test]
fn object_id_text_is_lower_hex() {
    assert_eq!(id_text(BYTES), TEXT);
    assert_eq!(id_text([0; 12]), "000000000000000000000000");
}

#[test]
fn object_id_parsing() {
    assert_eq!(document_id(TEXT), Some(BYTES));
    assert_eq!(document_id("53E37D08776F724E420000FF"), Some(BYTES));
    assert_eq!(document_id(""), None);
    assert_eq!(document_id("53e37d08776f724e420000f"), None);
    assert_eq!(document_id("53e37d08776f724e420000ff00"), None);
    assert_eq!(document_id("53e37d08776f724e420000fg"), None);
    assert_eq!(document_id("53e37d08776f724e420000\u{e9}"), None);
}

#[test]
fn object_id_round_trip() {
    let text = id_text(BYTES);
    assert_eq!(document_id(&text), Some(BYTES));
}

#[test]
fn documents_become_entries() {
    let doc = TaskDocument {
        id: Some(BYTES),
        completed: Some(false),
        description: Some("walk".to_string()),
        editing: Some(true),
    };
    let e = document_to_entry(&doc).unwrap();
    assert_eq!(e._id, TEXT);
    assert!(!e.completed && e.editing);
    assert_eq!(e.description, "walk");
    let partial = TaskDocument { editing: None, ..doc };
    assert_eq!(document_to_entry(&partial), None);
}

#[test]
fn new_id_replaces_only_the_id() {
    let e = with_new_id(entry("", "x"), BYTES);
    assert_eq!(e, Entry { _id: TEXT.to_string(), ..entry("", "x") });
}

fn expect_request(step: SaveStep) -> StoreRequest {
    match step {
        SaveStep::Request(r) => r,
        other => panic!("unexpected {:?}", other),
    }
}

fn expect_done(step: SaveStep) -> Vec<Entry> {
    match step {
        SaveStep::Done(v) => v,
        other => panic!("unexpected {:?}", other),
    }
}

#[test]
fn service_saves_new_and_existing_entries() {
    let entries = vec![entry("", "new"), entry(TEXT, "old"), entry(TEXT, "gone")];
    let mut s = SaveSession::new(entries, BlankIdRule::Insert);
    let r = expect_request(s.step(None));
    assert!(matches!(&r, StoreRequest::Insert(e) if *e == entry("", "new")));
    assert!(!s.accepts(&Some(StoreReply::Updated)));
    let oid = [7u8; 12];
    let r = expect_request(s.step(Some(StoreReply::Inserted(oid))));
    assert!(matches!(r, StoreRequest::FindById(b) if b == BYTES));
    let r = expect_request(s.step(Some(StoreReply::Found(1))));
    assert!(matches!(&r, StoreRequest::UpdateFound(e) if *e == entry(TEXT, "old")));
    let r = expect_request(s.step(Some(StoreReply::Updated)));
    assert!(matches!(r, StoreRequest::FindById(_)));
    let r = expect_request(s.step(Some(StoreReply::Found(0))));
    assert!(matches!(&r, StoreRequest::Insert(e) if *e == entry(TEXT, "gone")));
    let saved = expect_done(s.step(Some(StoreReply::Inserted([9u8; 12]))));
    assert_eq!(
        saved,
        vec![
            entry(&id_text(oid), "new"),
            entry(TEXT, "old"),
            entry("090909090909090909090909", "gone"),
        ]
    );
    assert_eq!(s.stage, Stage::Ready);
}

#[test]
fn empty_list_is_done_at_once() {
    let mut s = SaveSession::new(vec![], BlankIdRule::Insert);
    assert!(expect_done(s.step(None)).is_empty());
}

#[test]
fn invalid_id_stops_saving() {
    let mut s = SaveSession::new(vec![entry("not-an-id", "x")], BlankIdRule::Insert);
    assert!(matches!(s.step(None), SaveStep::InvalidId));
    let mut s = SaveSession::new(vec![entry("", "x")], BlankIdRule::Reject);
    assert!(matches!(s.step(None), SaveStep::InvalidId));
}

#[test]
fn repository_rule_looks_up_entries_without_id() {
    let mut s = SaveSession::new(vec![entry("", "x")], BlankIdRule::FindAll);
    assert!(matches!(expect_request(s.step(None)), StoreRequest::FindAll));
    assert!(matches!(expect_request(s.step(Some(StoreReply::Found(1)))), StoreRequest::UpdateFound(_)));
    assert_eq!(expect_done(s.step(Some(StoreReply::Updated))), vec![entry("", "x")]);
    let mut s = SaveSession::new(vec![entry("", "x")], BlankIdRule::FindAll);
    s.step(None);
    assert!(matches!(expect_request(s.step(Some(StoreReply::Found(3)))), StoreRequest::Insert(_)));
}
