use docstore::error::Error;
use docstore::handlers::{create, get, post};
use docstore::identifier::parse_id;
use docstore::payload::{Payload, Record};
use docstore::response::{Response, StatusCode};
use docstore::state::State;
use serde_json::{Number, Value};

fn record(key: &str, value: &str) -> Record {
    let mut members = Record::new();
    members.insert(key.to_string(), Value::String(value.to_string()));
    members
}

fn text_of(response: &Response) -> Option<String> {
    match &response.body {
        Some(record) => Some(serde_json::to_string(record).unwrap()),
        None => None,
    }
}

#[test]
fn post_then_get_gives_the_object_back() {
    let mut state = State::new();
    let people = String::from("people");
    let made = post(&mut state, &people, r#"{"sup":"boyy"}"#.as_bytes());
    assert_eq!(made.status.code(), 200);
    assert_eq!(text_of(&made), Some(String::from(r#"{"sup":"boyy"}"#)));
    assert_eq!(made.content_type(), Some("application/json"));
    let found = get(&state, &people, "0");
    assert_eq!(found.status.code(), 200);
    assert_eq!(text_of(&found), Some(String::from(r#"{"sup":"boyy"}"#)));
    assert_eq!(found.content_type(), Some("application/json"));
}

#[test]
fn post_of_an_array_is_refused_and_creates_nothing() {
    let mut state = State::new();
    let people = String::from("people");
    let refused = post(&mut state, &people, "[1,2,3]".as_bytes());
    assert_eq!(refused.status.code(), 400);
    assert_eq!(refused.body, None);
    let found = get(&state, &people, "0");
    assert_eq!(found.status.code(), 404);
    assert_eq!(found.body, None);
    assert_eq!(found.content_type(), None);
}

#[test]
fn get_from_an_unused_collection_finds_nothing() {
    let state = State::new();
    let found = get(&state, &String::from("ghosts"), "0");
    assert_eq!(found, Response { status: StatusCode::NotFound, body: None });
    assert_eq!(found.status.code(), 404);
}

#[test]
fn get_with_a_word_for_an_id_is_refused() {
    let mut state = State::new();
    let people = String::from("people");
    let empty = get(&state, &people, "abc");
    assert_eq!(empty.status.code(), 400);
    assert_eq!(empty.body, None);
    post(&mut state, &people, r#"{"sup":"boyy"}"#.as_bytes());
    let filled = get(&state, &people, "abc");
    assert_eq!(filled, Response { status: StatusCode::BadRequest, body: None });
    assert_eq!(get(&state, &String::from("ghosts"), "abc").status.code(), 400);
}

#[test]
fn create_accepts_an_object_and_echoes_it() {
    let mut state = State::new();
    let people = String::from("people");
    let made = create(&mut state, &people, Some(Payload::Object(record("sup", "boyy"))));
    assert_eq!(made, Response { status: StatusCode::Success, body: Some(record("sup", "boyy")) });
    assert_eq!(state.get(&people, 0), Some(record("sup", "boyy")));
    assert_eq!(state.get(&people, 1), None);
}

#[test]
fn create_refuses_what_is_no_object() {
    let mut state = State::new();
    let people = String::from("people");
    let refused = vec![
        None,
        Some(Payload::Null),
        Some(Payload::Bool(false)),
        Some(Payload::Number(Number::from(3u64))),
        Some(Payload::Text(String::from("{}"))),
        Some(Payload::Array(vec![Value::from(1), Value::from(2), Value::from(3)])),
    ];
    for payload in refused {
        let answer = create(&mut state, &people, payload);
        assert_eq!(answer, Response { status: StatusCode::BadRequest, body: None });
        assert_eq!(state.get(&people, 0), None);
    }
}

#[test]
fn post_reads_the_body_as_json() {
    let mut state = State::new();
    let people = String::from("people");
    let spaced = post(&mut state, &people, b" {\n  \"sup\" : \"boyy\"\n}\n");
    assert_eq!(spaced, Response { status: StatusCode::Success, body: Some(record("sup", "boyy")) });
    let escaped = post(&mut state, &people, br#"{"s\u0075p":"boyy"}"#);
    assert_eq!(escaped.body, Some(record("sup", "boyy")));
    let twice = post(&mut state, &people, br#"{"sup":"girl","sup":"boyy"}"#);
    assert_eq!(twice.body, Some(record("sup", "boyy")));
    for body in [&br#"{"sup":"boyy"} x"#[..], br#"{"sup":"boyy"}{}"#, br#"{sup:"boyy"}"#, br#"{"sup":"boyy",}"#, b"\xff"] {
        let refused = post(&mut state, &people, body);
        assert_eq!(refused, Response { status: StatusCode::BadRequest, body: None });
    }
    assert_eq!(state.get(&people, 2), Some(record("sup", "boyy")));
    assert_eq!(state.get(&people, 3), None);
}

#[test]
fn post_refuses_every_body_but_an_object() {
    let mut state = State::new();
    let people = String::from("people");
    for body in ["null", "true", "7", "-1.5", r#""sup""#, "[]", r#"[{"a":1}]"#, "", "{", "sup"] {
        let refused = post(&mut state, &people, body.as_bytes());
        assert_eq!(refused, Response { status: StatusCode::BadRequest, body: None });
        assert_eq!(get(&state, &people, "0").status, StatusCode::NotFound);
    }
    let made = post(&mut state, &people, "{}".as_bytes());
    assert_eq!(made, Response { status: StatusCode::Success, body: Some(Record::new()) });
    assert_eq!(get(&state, &people, "0").status, StatusCode::Success);
    assert_eq!(get(&state, &people, "1").status, StatusCode::NotFound);
}

#[test]
fn post_keeps_nested_values_as_they_are() {
    let mut state = State::new();
    let people = String::from("people");
    let body = r#"{"a":[1,2.5,{"b":null}],"c":{"d":"e"},"f":true}"#;
    let made = post(&mut state, &people, body.as_bytes());
    assert_eq!(text_of(&made), Some(String::from(body)));
    let found = get(&state, &people, "0");
    assert_eq!(text_of(&found), Some(String::from(body)));
    assert_eq!(found.body, made.body);
}

#[test]
fn get_answers_by_position() {
    let mut state = State::new();
    let people = String::from("people");
    post(&mut state, &people, r#"{"n":0}"#.as_bytes());
    post(&mut state, &people, r#"{"n":1}"#.as_bytes());
    post(&mut state, &String::from("pets"), r#"{"n":2}"#.as_bytes());
    assert_eq!(text_of(&get(&state, &people, "0")), Some(String::from(r#"{"n":0}"#)));
    assert_eq!(text_of(&get(&state, &people, "1")), Some(String::from(r#"{"n":1}"#)));
    assert_eq!(text_of(&get(&state, &people, "+1")), Some(String::from(r#"{"n":1}"#)));
    assert_eq!(text_of(&get(&state, &people, "001")), Some(String::from(r#"{"n":1}"#)));
    assert_eq!(get(&state, &people, "2").status, StatusCode::NotFound);
    assert_eq!(get(&state, &people, "18446744073709551615").status, StatusCode::NotFound);
    assert_eq!(get(&state, &people, "-1").status, StatusCode::BadRequest);
    assert_eq!(get(&state, &people, "").status, StatusCode::BadRequest);
    assert_eq!(get(&state, &people, "1.0").status, StatusCode::BadRequest);
    assert_eq!(text_of(&get(&state, &String::from("pets"), "0")), Some(String::from(r#"{"n":2}"#)));
}

#[test]
fn repeated_get_gives_the_same_answer() {
    let mut state = State::new();
    let people = String::from("people");
    post(&mut state, &people, r#"{"sup":"boyy"}"#.as_bytes());
    for id in ["0", "1", "abc"] {
        assert_eq!(get(&state, &people, id), get(&state, &people, id));
    }
}

#[test]
fn parse_id_reads_decimal_digits() {
    assert_eq!(parse_id("0"), Ok(0));
    assert_eq!(parse_id("7"), Ok(7));
    assert_eq!(parse_id("12"), Ok(12));
    assert_eq!(parse_id("1234567890"), Ok(1234567890));
    assert_eq!(parse_id("007"), Ok(7));
    assert_eq!(parse_id("000"), Ok(0));
    assert_eq!(parse_id("+7"), Ok(7));
    assert_eq!(parse_id("+0"), Ok(0));
    assert_eq!(parse_id("+0012"), Ok(12));
}

#[test]
fn parse_id_refuses_what_is_no_number() {
    for text in [
        "", "+", "-", "-1", "-0", "abc", "1a", "a1", " 1", "1 ", "1_000", "1.0", "1e3", "0x10",
        "++1", "+-1", "1+", "٣", "１２", "1\u{0}", "½",
    ] {
        assert_eq!(parse_id(text), Err(Error::InvalidIdentifier));
    }
}

#[test]
fn parse_id_stops_at_the_largest_word() {
    let largest = usize::MAX.to_string();
    assert_eq!(parse_id(&largest), Ok(usize::MAX));
    assert_eq!(parse_id(&format!("+000{}", largest)), Ok(usize::MAX));
    assert_eq!(parse_id(&format!("{}0", largest)), Err(Error::InvalidIdentifier));
    let mut digits: Vec<char> = largest.chars().collect();
    let last = digits.pop().unwrap();
    digits.push(char::from_digit(last.to_digit(10).unwrap() + 1, 10).unwrap());
    let beyond: String = digits.into_iter().collect();
    assert_eq!(parse_id(&beyond), Err(Error::InvalidIdentifier));
    assert_eq!(parse_id("99999999999999999999999999999999999999999"), Err(Error::InvalidIdentifier));
}

#[test]
fn parse_id_agrees_with_the_standard_parser() {
    for text in ["0", "5", "+5", "05", "", "+", "-5", "5 ", "x", "4294967295", "4294967296"] {
        let expected = text.parse::<usize>().map_err(|_| Error::InvalidIdentifier);
        assert_eq!(parse_id(text), expected);
    }
}

#[test]
fn statuses_have_their_numbers() {
    assert_eq!(StatusCode::Success.code(), 200);
    assert_eq!(StatusCode::BadRequest.code(), 400);
    assert_eq!(StatusCode::NotFound.code(), 404);
}

#[test]
fn errors_are_the_clients_fault() {
    assert_eq!(Error::InvalidPayload.status(), StatusCode::BadRequest);
    assert_eq!(Error::InvalidIdentifier.status(), StatusCode::BadRequest);
}

#[test]
fn only_an_answer_with_a_body_has_a_content_type() {
    let with = Response { status: StatusCode::Success, body: Some(Record::new()) };
    let without = Response { status: StatusCode::NotFound, body: None };
    assert_eq!(with.content_type(), Some("application/json"));
    assert_eq!(without.content_type(), None);
}
