use matrix_bridge::json::Json;
use matrix_bridge::session::{check_user_name, Session};
use matrix_bridge::token::RestoreToken;

fn alice() -> Session {
    Session::new("tok".to_string(), "@alice:example.org".to_string(), "DEV".to_string()).unwrap()
}

fn text(s: &str) -> Json {
    Json::Text(s.to_string())
}

fn member(key: &str, value: Json) -> (String, Json) {
    (key.to_string(), value)
}

#[test]
fn token_is_written_member_by_member() {
    let token = RestoreToken {
        is_guest: true,
        homeurl: "https://example.org/".to_string(),
        session: alice(),
    };
    assert_eq!(
        token.encode(),
        "{\"is_guest\":true,\"homeurl\":\"https://example.org/\",\"session\":{\"access_token\":\"tok\",\"user_id\":\"@alice:example.org\",\"device_id\":\"DEV\"}}"
    );
}

#[test]
fn decode_reads_back_what_encode_wrote() {
    let token = RestoreToken {
        is_guest: false,
        homeurl: "https://matrix.example.org/".to_string(),
        session: alice(),
    };
    let written = token.encode();
    let back = RestoreToken::decode(&written).unwrap();
    assert_eq!(back.is_guest, false);
    assert_eq!(back.homeurl, "https://matrix.example.org/");
    assert_eq!(back.session.access_token(), "tok");
    assert_eq!(back.session.user_id(), "@alice:example.org");
    assert_eq!(back.session.device_id(), "DEV");
}

#[test]
fn round_trip_keeps_text_that_needs_escaping() {
    let session = Session::new(
        "to\"k\\en\n".to_string(),
        "@alice:example.org".to_string(),
        "D\u{e9}V \u{1F600}".to_string(),
    )
    .unwrap();
    let token = RestoreToken { is_guest: true, homeurl: "h\tu".to_string(), session };
    let back = RestoreToken::decode(&token.encode()).unwrap();
    assert!(back.is_guest);
    assert_eq!(back.homeurl, "h\tu");
    assert_eq!(back.session.access_token(), "to\"k\\en\n");
    assert_eq!(back.session.device_id(), "D\u{e9}V \u{1F600}");
}

#[test]
fn to_json_lists_the_members_in_order() {
    let token = RestoreToken { is_guest: true, homeurl: "u".to_string(), session: alice() };
    let expected = Json::Object(vec![
        member("is_guest", Json::Bool(true)),
        member("homeurl", text("u")),
        member(
            "session",
            Json::Object(vec![
                member("access_token", text("tok")),
                member("user_id", text("@alice:example.org")),
                member("device_id", text("DEV")),
            ]),
        ),
    ]);
    assert_eq!(token.to_json(), expected);
}

#[test]
fn from_json_reads_members_in_any_order_and_ignores_others() {
    let doc = Json::Object(vec![
        member("extra", Json::List(vec![Json::Null, Json::Bool(false)])),
        member(
            "session",
            Json::Object(vec![
                member("device_id", text("DEV")),
                member("more", Json::Null),
                member("user_id", text("@bob:example.org")),
                member("access_token", text("secret")),
            ]),
        ),
        member("homeurl", text("https://example.org/")),
        member("is_guest", Json::Bool(true)),
    ]);
    let token = RestoreToken::from_json(&doc).unwrap();
    assert!(token.is_guest);
    assert_eq!(token.homeurl, "https://example.org/");
    assert_eq!(token.session.user_id(), "@bob:example.org");
    assert_eq!(token.session.access_token(), "secret");
    assert_eq!(token.session.device_id(), "DEV");
}

#[test]
fn get_finds_the_last_member_of_a_name() {
    let doc = Json::Object(vec![
        member("a", Json::Bool(true)),
        member("b", Json::Null),
        member("a", Json::Bool(false)),
    ]);
    assert_eq!(doc.get(&"a".to_string()), Some(&Json::Bool(false)));
    assert_eq!(doc.get(&"b".to_string()), Some(&Json::Null));
    assert_eq!(doc.get(&"c".to_string()), None);
    assert_eq!(Json::Null.get(&"a".to_string()), None);
    assert_eq!(Json::List(vec![Json::Null]).get(&"a".to_string()), None);
}

#[test]
fn decode_refuses_text_that_is_no_json() {
    let e = RestoreToken::decode("not json").unwrap_err();
    assert_eq!(e.message(), "client error: expected ident at line 1 column 2");
    assert!(RestoreToken::decode("").is_err());
    assert!(RestoreToken::decode("{\"is_guest\":true").is_err());
}

#[test]
fn decode_refuses_a_document_that_is_no_object() {
    let e = RestoreToken::decode("[true]").unwrap_err();
    assert_eq!(e.message(), "client error: expected a JSON object");
    let e = RestoreToken::decode("12").unwrap_err();
    assert_eq!(e.message(), "client error: expected a JSON object");
}

#[test]
fn decode_names_the_missing_member() {
    let e = RestoreToken::decode("{}").unwrap_err();
    assert_eq!(e.message(), "client error: missing field `is_guest`");
    let e = RestoreToken::decode("{\"is_guest\":false}").unwrap_err();
    assert_eq!(e.message(), "client error: missing field `homeurl`");
    let e = RestoreToken::decode("{\"is_guest\":false,\"homeurl\":\"u\"}").unwrap_err();
    assert_eq!(e.message(), "client error: missing field `session`");
    let e = RestoreToken::decode(
        "{\"is_guest\":false,\"homeurl\":\"u\",\"session\":{\"access_token\":\"t\",\"user_id\":\"@a:b.c\"}}",
    )
    .unwrap_err();
    assert_eq!(e.message(), "client error: missing field `device_id`");
}

#[test]
fn decode_names_the_member_of_the_wrong_kind() {
    let e = RestoreToken::decode("{\"is_guest\":\"yes\"}").unwrap_err();
    assert_eq!(e.message(), "client error: invalid type for field `is_guest`");
    let e = RestoreToken::decode("{\"is_guest\":true,\"homeurl\":7}").unwrap_err();
    assert_eq!(e.message(), "client error: invalid type for field `homeurl`");
    let e = RestoreToken::decode("{\"is_guest\":true,\"homeurl\":\"u\",\"session\":null}")
        .unwrap_err();
    assert_eq!(e.message(), "client error: expected a JSON object");
}

#[test]
fn decode_refuses_a_bad_user_identifier() {
    let e = RestoreToken::decode(
        "{\"is_guest\":false,\"homeurl\":\"u\",\"session\":{\"access_token\":\"t\",\"user_id\":\"alice\",\"device_id\":\"D\"}}",
    )
    .unwrap_err();
    assert_eq!(e.message(), "client error: leading sigil is incorrect or missing");
}

#[test]
fn decode_carries_numbers_it_does_not_read() {
    let token = RestoreToken::decode(
        "{\"version\":1.5,\"is_guest\":true,\"homeurl\":\"u\",\"session\":{\"access_token\":\"t\",\"user_id\":\"@a:b.c\",\"device_id\":\"D\",\"n\":-3}}",
    )
    .unwrap();
    assert!(token.is_guest);
    assert_eq!(token.session.user_id(), "@a:b.c");
}

#[test]
fn session_checks_the_user_identifier() {
    assert!(Session::new("t".to_string(), "@alice:example.org".to_string(), "D".to_string())
        .is_ok());
    let e = Session::new("t".to_string(), "alice".to_string(), "D".to_string()).unwrap_err();
    assert_eq!(e.message(), "client error: leading sigil is incorrect or missing");
    let e = Session::new("t".to_string(), "@alice".to_string(), "D".to_string()).unwrap_err();
    assert_eq!(e.message(), "client error: required colon is missing");
    assert!(Session::new("t".to_string(), "".to_string(), "D".to_string()).is_err());
}

#[test]
fn session_copy_holds_the_same_credentials() {
    let copy = alice().clone();
    assert_eq!(copy.access_token(), "tok");
    assert_eq!(copy.user_id(), "@alice:example.org");
    assert_eq!(copy.device_id(), "DEV");
}

#[test]
fn a_repeated_member_reads_as_it_is_written() {
    let token = RestoreToken::decode(
        "{\"is_guest\":false,\"is_guest\":true,\"homeurl\":\"u\",\"session\":{\"access_token\":\"t\",\"user_id\":\"@a:b.c\",\"device_id\":\"D\"}}",
    )
    .unwrap();
    assert!(token.is_guest);
}

#[test]
fn an_issued_token_is_the_encoded_one() {
    let token = RestoreToken {
        is_guest: true,
        homeurl: "https://example.org/".to_string(),
        session: alice(),
    };
    let text = token.issue().unwrap();
    assert_eq!(text, token.encode());
    assert!(RestoreToken::decode(&text).unwrap().same_as(&token));
}

#[test]
fn tokens_are_told_apart_field_by_field() {
    let token = RestoreToken { is_guest: true, homeurl: "u".to_string(), session: alice() };
    let same = RestoreToken { is_guest: true, homeurl: "u".to_string(), session: alice() };
    assert!(token.same_as(&same));
    let other = RestoreToken { is_guest: false, homeurl: "u".to_string(), session: alice() };
    assert!(!token.same_as(&other));
    let other = RestoreToken { is_guest: true, homeurl: "v".to_string(), session: alice() };
    assert!(!token.same_as(&other));
    let bob =
        Session::new("tok".to_string(), "@bob:example.org".to_string(), "DEV".to_string()).unwrap();
    assert!(!alice().same_as(&bob));
    let other = RestoreToken { is_guest: true, homeurl: "u".to_string(), session: bob };
    assert!(!token.same_as(&other));
}

#[test]
fn a_user_name_is_looked_at_alone() {
    assert!(check_user_name("@alice:example.org").is_ok());
    let e = check_user_name("alice").unwrap_err();
    assert_eq!(e.message(), "client error: leading sigil is incorrect or missing");
}
