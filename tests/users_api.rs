use users::decimal::{parse_u64, push_decimal};
use users::routes::{
    create_user, get_user, get_user_by_id_handler, get_user_handler, get_users, method_of, routes,
    sample_users, ContentKind, Method, Request, Response,
};
use users::user::{users_to_json, User};

fn request(method: &str, user_id: Option<&str>, payload: Option<User>) -> Request {
    Request {
        method: method.to_string(),
        user_id: user_id.map(|s| s.to_string()),
        payload,
    }
}

fn user(name: &str, email: &str) -> User {
    User::new(name.to_string(), email.to_string())
}

fn assert_response(r: &Response, status: u16, body: &str, content: ContentKind) {
    assert_eq!(r.status, status);
    assert_eq!(r.body, body);
    assert_eq!(r.content, content);
}

const LIST: &str = "[{\"username\":\"test_user1\",\"email\":\"example1@example.com\"},{\"username\":\"test_user2\",\"email\":\"example2@example.com\"}]";

#[test]
fn get_user_42() {
    let r = routes(request("GET", Some("42"), None));
    assert_response(
        &r,
        200,
        "{\"username\":\"username_42\",\"email\":\"test@example.com\"}",
        ContentKind::Json,
    );
}

#[test]
fn list_users() {
    let r = routes(request("GET", None, None));
    assert_response(&r, 200, LIST, ContentKind::Json);
}

#[test]
fn list_ignores_payload() {
    let r = routes(request("GET", None, Some(user("x", "y"))));
    assert_response(&r, 200, LIST, ContentKind::Json);
}

#[test]
fn create_bob() {
    let r = routes(request("POST", None, Some(user("bob", "bob@x.com"))));
    assert_response(
        &r,
        201,
        "{\"username\":\"bob\",\"email\":\"bob@x.com\"}",
        ContentKind::Json,
    );
}

#[test]
fn create_echo_decodes_to_same_pair() {
    let name = "we\"ird\\na\nme\u{1}\té";
    let email = "a/b@c\r\u{8}\u{c}";
    let r = create_user(Some(user(name, email)));
    assert_eq!(r.status, 201);
    let v: serde_json::Value = serde_json::from_str(&r.body).unwrap();
    assert_eq!(v["username"].as_str(), Some(name));
    assert_eq!(v["email"].as_str(), Some(email));
}

#[test]
fn create_escapes_fields() {
    let r = create_user(Some(user("a\"b", "c\u{1}\n")));
    assert_eq!(
        r.body,
        "{\"username\":\"a\\\"b\",\"email\":\"c\\u0001\\n\"}"
    );
}

#[test]
fn create_malformed_is_bad_request() {
    let r = routes(request("POST", None, None));
    assert_response(&r, 400, "Bad request", ContentKind::Text);
}

#[test]
fn delete_not_allowed() {
    let r = routes(request("DELETE", None, None));
    assert_response(&r, 405, "Method not allowed", ContentKind::Text);
}

#[test]
fn other_methods_not_allowed() {
    for m in ["PUT", "PATCH", "HEAD", "OPTIONS", "get", "post", ""] {
        let r = routes(request(m, Some("1"), Some(user("a", "b"))));
        assert_response(&r, 405, "Method not allowed", ContentKind::Text);
    }
}

#[test]
fn method_matching_is_exact() {
    assert_eq!(method_of("GET"), Method::Get);
    assert_eq!(method_of("POST"), Method::Post);
    assert_eq!(method_of("Get"), Method::Other);
    assert_eq!(method_of("GET "), Method::Other);
}

#[test]
fn malformed_id_is_bad_request() {
    for id in ["abc", "", "-1", "+", "4 2", "18446744073709551616"] {
        let r = routes(request("GET", Some(id), None));
        assert_response(&r, 400, "Bad request", ContentKind::Text);
    }
}

#[test]
fn largest_id() {
    let r = get_user_handler(Some("18446744073709551615"));
    assert_response(
        &r,
        200,
        "{\"username\":\"username_18446744073709551615\",\"email\":\"test@example.com\"}",
        ContentKind::Json,
    );
}

#[test]
fn id_with_plus_and_zeros() {
    let r = get_user_handler(Some("+007"));
    assert_response(
        &r,
        200,
        "{\"username\":\"username_7\",\"email\":\"test@example.com\"}",
        ContentKind::Json,
    );
}

#[test]
fn by_id_route_requires_id() {
    let r = get_user_by_id_handler(None);
    assert_response(&r, 400, "Bad request", ContentKind::Text);
    let r = get_user_by_id_handler(Some("0"));
    assert_response(
        &r,
        200,
        "{\"username\":\"username_0\",\"email\":\"test@example.com\"}",
        ContentKind::Json,
    );
}

#[test]
fn get_user_and_get_users_directly() {
    assert_eq!(
        get_user(123).body,
        "{\"username\":\"username_123\",\"email\":\"test@example.com\"}"
    );
    assert_eq!(get_users().body, LIST);
    assert_eq!(sample_users().len(), 2);
}

#[test]
fn parse_u64_cases() {
    assert_eq!(parse_u64("0"), Some(0));
    assert_eq!(parse_u64("42"), Some(42));
    assert_eq!(parse_u64("+5"), Some(5));
    assert_eq!(parse_u64("18446744073709551615"), Some(u64::MAX));
    assert_eq!(parse_u64("18446744073709551616"), None);
    assert_eq!(parse_u64("99999999999999999999x"), None);
    assert_eq!(parse_u64(""), None);
    assert_eq!(parse_u64("+"), None);
    assert_eq!(parse_u64("-0"), None);
    assert_eq!(parse_u64("1a"), None);
    for n in [0u64, 9, 10, 99, 100, 4096, u64::MAX] {
        assert_eq!(parse_u64(&n.to_string()), Some(n));
    }
}

#[test]
fn push_decimal_appends() {
    let mut s = String::from("n=");
    push_decimal(&mut s, 1024);
    assert_eq!(s, "n=1024");
}

#[test]
fn empty_and_single_user_lists() {
    assert_eq!(users_to_json(&Vec::new()), "[]");
    assert_eq!(
        users_to_json(&vec![user("", "")]),
        "[{\"username\":\"\",\"email\":\"\"}]"
    );
}

#[test]
fn for_id_fields() {
    let u = User::for_id(9);
    assert_eq!(u.username, "username_9");
    assert_eq!(u.email, "test@example.com");
    assert_eq!(
        u.to_json(),
        "{\"username\":\"username_9\",\"email\":\"test@example.com\"}"
    );
}
