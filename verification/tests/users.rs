use hello_users::extract::{Rejection, RejectionKind};
use hello_users::http::{ContentType, Response, StatusCode};
use hello_users::json::{decimal_text, encode_user, frame_user};
use hello_users::router::{complete_create_user, dispatch, Action, Outcome};
use hello_users::users::{create_user, CreateUser, User, USER_ID};
use hello_users::Method;

fn post_user(username: &str) -> Outcome {
    assert_eq!(dispatch(Method::Post, "/users"), Action::ReadUser);
    complete_create_user(Ok(CreateUser { username: username.to_string() }))
}

fn reject(kind: RejectionKind, message: &str) -> Outcome {
    assert_eq!(dispatch(Method::Post, "/users"), Action::ReadUser);
    complete_create_user(Err(Rejection { kind, message: message.to_string() }))
}

#[test]
fn create_user_gives_the_fixed_id() {
    let (status, user) = create_user(CreateUser { username: "leo".to_string() });
    assert_eq!(status, StatusCode::Created);
    assert_eq!(user, User { id: 1337, username: "leo".to_string() });
    assert_eq!(USER_ID, 1337);
}

#[test]
fn post_user_leo() {
    let outcome = post_user("leo");
    assert_eq!(outcome.response.status, StatusCode::Created);
    assert_eq!(outcome.response.status.as_u16(), 201);
    assert_eq!(outcome.response.content_type, Some(ContentType::Json));
    assert_eq!(outcome.response.allow, None);
    assert_eq!(outcome.response.body, r#"{"id":1337,"username":"leo"}"#);
    assert_eq!(outcome.created, Some(User { id: 1337, username: "leo".to_string() }));
}

#[test]
fn post_user_with_an_empty_name() {
    let outcome = post_user("");
    assert_eq!(outcome.response.status.as_u16(), 201);
    assert_eq!(outcome.response.body, r#"{"id":1337,"username":""}"#);
}

#[test]
fn names_are_escaped_as_json_asks() {
    let outcome = post_user("a\"b\\c\nd\te\u{1}f/\u{e9}\u{7f}");
    assert_eq!(
        outcome.response.body,
        "{\"id\":1337,\"username\":\"a\\\"b\\\\c\\nd\\te\\u0001f/\u{e9}\u{7f}\"}"
    );
}

#[test]
fn the_body_reads_back_as_the_user() {
    for name in ["leo", "", "a\"b", "line\nbreak", "\u{0}\u{1f}", "\u{1F600}", "{\"id\":1}"] {
        let outcome = post_user(name);
        let value: serde_json::Value = serde_json::from_str(&outcome.response.body).unwrap();
        let object = value.as_object().unwrap();
        assert_eq!(object.len(), 2);
        assert_eq!(object.get("id").and_then(|id| id.as_u64()), Some(1337));
        assert_eq!(object.get("username").and_then(|name| name.as_str()), Some(name));
    }
}

#[test]
fn requests_do_not_interfere() {
    let names = ["ada", "grace", "linus", "ada", "", "grace"];
    let alone: Vec<Outcome> = names.iter().map(|name| post_user(name)).collect();
    let reversed: Vec<Outcome> = names.iter().rev().map(|name| post_user(name)).collect();
    for (index, name) in names.iter().enumerate() {
        let outcome = &alone[index];
        assert_eq!(outcome, &reversed[names.len() - 1 - index]);
        assert_eq!(outcome.response.status.as_u16(), 201);
        assert_eq!(
            outcome.response.body,
            format!("{{\"id\":1337,\"username\":\"{}\"}}", name)
        );
        assert_eq!(outcome.created, Some(User { id: 1337, username: name.to_string() }));
    }
}

#[test]
fn rejections_are_client_errors() {
    let cases = [
        (RejectionKind::MediaType, StatusCode::UnsupportedMediaType, 415),
        (RejectionKind::Syntax, StatusCode::BadRequest, 400),
        (RejectionKind::Data, StatusCode::UnprocessableEntity, 422),
        (RejectionKind::TooLarge, StatusCode::PayloadTooLarge, 413),
        (RejectionKind::Unreadable, StatusCode::BadRequest, 400),
    ];
    for (kind, status, number) in cases {
        assert_eq!(kind.status_code(), status);
        let outcome = reject(kind, "no");
        assert_eq!(outcome.response.status, status);
        assert_eq!(outcome.response.status.as_u16(), number);
        assert!(outcome.response.status.is_client_error());
        assert_eq!(outcome.response.content_type, Some(ContentType::Text));
        assert_eq!(outcome.response.allow, None);
        assert_eq!(outcome.response.body, "no");
        assert_eq!(outcome.created, None);
    }
}

#[test]
fn a_rejection_is_answered_with_its_message() {
    let rejection = Rejection {
        kind: RejectionKind::Syntax,
        message: "Failed to parse the request body as JSON".to_string(),
    };
    let response = Response::rejection(rejection);
    assert_eq!(response.status.as_u16(), 400);
    assert_eq!(response.body, "Failed to parse the request body as JSON");
}

#[test]
fn json_response_keeps_the_status() {
    let user = User { id: 7, username: "x".to_string() };
    let response = Response::json(StatusCode::Success, &user);
    assert_eq!(response.status, StatusCode::Success);
    assert_eq!(response.content_type, Some(ContentType::Json));
    assert_eq!(response.body, r#"{"id":7,"username":"x"}"#);
}

#[test]
fn decimal_text_writes_digits() {
    assert_eq!(decimal_text(0), "0");
    assert_eq!(decimal_text(7), "7");
    assert_eq!(decimal_text(9), "9");
    assert_eq!(decimal_text(10), "10");
    assert_eq!(decimal_text(1337), "1337");
    assert_eq!(decimal_text(1_000_000), "1000000");
    assert_eq!(decimal_text(9_876_543_210), "9876543210");
    assert_eq!(decimal_text(u64::MAX), "18446744073709551615");
}

#[test]
fn decimal_text_agrees_with_the_formatter() {
    let mut n: u64 = 1;
    while n < u64::MAX / 7 {
        assert_eq!(decimal_text(n), format!("{}", n));
        assert_eq!(decimal_text(n - 1), format!("{}", n - 1));
        n *= 7;
    }
}

#[test]
fn frame_user_puts_the_members_in_order() {
    assert_eq!(frame_user(1337, "\"leo\""), r#"{"id":1337,"username":"leo"}"#);
    assert_eq!(frame_user(0, ""), r#"{"id":0,"username":}"#);
    assert_eq!(frame_user(u64::MAX, "null"), r#"{"id":18446744073709551615,"username":null}"#);
}

#[test]
fn encode_user_quotes_the_name() {
    assert_eq!(encode_user(1337, "leo"), r#"{"id":1337,"username":"leo"}"#);
    assert_eq!(encode_user(1, "say \"hi\""), r#"{"id":1,"username":"say \"hi\""}"#);
    for name in ["", "leo", "a\\b", "\u{8}\u{c}\r", "\u{2028}"] {
        let literal = serde_json::to_string(name).unwrap();
        assert_eq!(encode_user(42, name), format!("{{\"id\":42,\"username\":{}}}", literal));
    }
}
