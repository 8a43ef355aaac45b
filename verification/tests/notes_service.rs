use some_axum_code::notes::{notes_json, Note};
use some_axum_code::request_id::assign_request_id;
use some_axum_code::respond::{respond_notes, QueryError};

fn note(id: &str, body: Option<&str>) -> Note {
    Note { note_id: id.to_string(), note: body.map(|s| s.to_string()) }
}

fn is_crockford(c: char) -> bool {
    c.is_ascii_digit()
        || (c.is_ascii_uppercase() && c != 'I' && c != 'L' && c != 'O' && c != 'U')
}

#[test]
fn empty_table_renders_empty_array() {
    let s = notes_json(&vec![]);
    assert_eq!(s, "[]");
}

#[test]
fn two_rows_render_in_store_order() {
    let rows = vec![note("a", Some("x")), note("b", None)];
    let s = notes_json(&rows);
    assert_eq!(s, "[{\"note_id\":\"a\",\"note\":\"x\"},{\"note_id\":\"b\",\"note\":null}]");
}

#[test]
fn single_row_with_body() {
    let s = notes_json(&vec![note("id-1", Some("hello"))]);
    assert_eq!(s, "[{\"note_id\":\"id-1\",\"note\":\"hello\"}]");
}

#[test]
fn quotes_and_backslashes_are_escaped() {
    let s = notes_json(&vec![note("q", Some("say \"hi\" \\ done"))]);
    assert_eq!(s, "[{\"note_id\":\"q\",\"note\":\"say \\\"hi\\\" \\\\ done\"}]");
}

#[test]
fn named_control_characters_use_short_escapes() {
    let s = notes_json(&vec![note("c", Some("\u{8}\t\n\u{c}\r"))]);
    assert_eq!(s, "[{\"note_id\":\"c\",\"note\":\"\\b\\t\\n\\f\\r\"}]");
}

#[test]
fn other_control_characters_use_unicode_escapes() {
    let s = notes_json(&vec![note("u", Some("\u{1}\u{1f}"))]);
    assert_eq!(s, "[{\"note_id\":\"u\",\"note\":\"\\u0001\\u001f\"}]");
}

#[test]
fn non_ascii_text_passes_through_unescaped() {
    let s = notes_json(&vec![note("n", Some("héllo • wörld"))]);
    assert_eq!(s, "[{\"note_id\":\"n\",\"note\":\"héllo • wörld\"}]");
}

#[test]
fn escaping_applies_to_the_id_too() {
    let s = notes_json(&vec![note("a\"b", None)]);
    assert_eq!(s, "[{\"note_id\":\"a\\\"b\",\"note\":null}]");
}

#[test]
fn successful_query_answers_ok_with_full_body() {
    let rows = vec![note("a", Some("x")), note("b", None)];
    let r = respond_notes(Ok(rows));
    assert_eq!(r.status, 200);
    assert_eq!(r.body, "[{\"note_id\":\"a\",\"note\":\"x\"},{\"note_id\":\"b\",\"note\":null}]");
}

#[test]
fn successful_query_on_empty_table_answers_ok_empty_array() {
    let r = respond_notes(Ok(vec![]));
    assert_eq!(r.status, 200);
    assert_eq!(r.body, "[]");
}

#[test]
fn failed_query_answers_server_error_with_no_body() {
    let r = respond_notes(Err(QueryError { message: "connection reset".to_string() }));
    assert_eq!(r.status, 500);
    assert_eq!(r.body, "");
}

#[test]
fn inbound_identity_header_is_echoed_unchanged() {
    let r = assign_request_id(Some("01ARZ3NDEKTSV4RRFFQ69G5FAV".to_string()));
    assert_eq!(r, "01ARZ3NDEKTSV4RRFFQ69G5FAV");
}

#[test]
fn inbound_identity_header_is_echoed_even_when_not_a_ulid() {
    let r = assign_request_id(Some("not-a-ulid".to_string()));
    assert_eq!(r, "not-a-ulid");
}

#[test]
fn missing_identity_header_gets_a_fresh_well_formed_id() {
    let r = assign_request_id(None);
    assert_eq!(r.chars().count(), 26);
    assert!(r.chars().all(is_crockford));
}

#[test]
fn fresh_ids_differ_between_requests() {
    let a = assign_request_id(None);
    let b = assign_request_id(None);
    assert_ne!(a, b);
}
