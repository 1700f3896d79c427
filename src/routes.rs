//! Requests, responses and the router of the users resource.

use vstd::prelude::*;
use vstd::string::*;
use crate::decimal::{decimal_of, lemma_parse_decimal, parse_u64, parse_u64_spec};
use crate::user::{
    lemma_user_json_injective, placeholder_email, user_json, username_for, users_items, users_json, users_to_json, User,
};

verus! {

/// How a response body is to be read: plain text or JSON.
#[derive(Clone, Copy, Debug, PartialEq, Eq, Structural)]
pub enum ContentKind {
    Text,
    Json,
}

/// The request methods that the router tells apart; any other verb is `Other`.
#[derive(Clone, Copy, Debug, PartialEq, Eq, Structural)]
pub enum Method {
    Get,
    Post,
    Other,
}

/// An HTTP response: a status code and a body.
pub struct Response {
    pub status: u16,
    pub body: String,
    pub content: ContentKind,
}

/// What a response says, as values.
pub struct ResponseView {
    pub status: u16,
    pub body: Seq<char>,
    pub content: ContentKind,
}

impl View for Response {
    type V = ResponseView;

    open spec fn view(&self) -> ResponseView {
        ResponseView { status: self.status, body: self.body@, content: self.content }
    }
}

/// An inbound request. `payload` is the body read as a user, and `None` where
/// the body is not a JSON object with string fields `username` and `email`.
pub struct Request {
    pub method: String,
    pub user_id: Option<String>,
    pub payload: Option<User>,
}

pub open spec fn id_view(user_id: Option<&str>) -> Option<Seq<char>> {
    match user_id {
        Some(s) => Some(s@),
        None => None,
    }
}

pub open spec fn string_id_view(user_id: Option<String>) -> Option<Seq<char>> {
    match user_id {
        Some(s) => Some(s@),
        None => None,
    }
}

/// Exact, case-sensitive matching of the method text.
pub open spec fn method_spec(m: Seq<char>) -> Method {
    if m == "GET"@ {
        Method::Get
    } else if m == "POST"@ {
        Method::Post
    } else {
        Method::Other
    }
}

pub open spec fn not_allowed_view() -> ResponseView {
    ResponseView { status: 405, body: "Method not allowed"@, content: ContentKind::Text }
}

pub open spec fn bad_request_view() -> ResponseView {
    ResponseView { status: 400, body: "Bad request"@, content: ContentKind::Text }
}

/// The user with this id, found.
pub open spec fn user_view(id: u64) -> ResponseView {
    ResponseView {
        status: 200,
        body: user_json(username_for(id), placeholder_email()),
        content: ContentKind::Json,
    }
}

/// The JSON array of the two fixed users.
pub open spec fn sample_users_json() -> Seq<char> {
    "["@ + user_json("test_user1"@, "example1@example.com"@) + ","@ + user_json(
        "test_user2"@,
        "example2@example.com"@,
    ) + "]"@
}

pub open spec fn users_view() -> ResponseView {
    ResponseView { status: 200, body: sample_users_json(), content: ContentKind::Json }
}

/// A present id: the user it names, or a bad request where it is no `u64`.
pub open spec fn id_lookup_view(id: Seq<char>) -> ResponseView {
    match parse_u64_spec(id) {
        Some(n) => user_view(n),
        None => bad_request_view(),
    }
}

/// The combined route: one user by id, or all of them where no id is given.
pub open spec fn list_or_get_view(user_id: Option<Seq<char>>) -> ResponseView {
    match user_id {
        Some(id) => id_lookup_view(id),
        None => users_view(),
    }
}

/// The dedicated route: an id is required.
pub open spec fn by_id_view(user_id: Option<Seq<char>>) -> ResponseView {
    match user_id {
        Some(id) => id_lookup_view(id),
        None => bad_request_view(),
    }
}

/// Creation echoes the user read from the body.
pub open spec fn create_view(payload: Option<User>) -> ResponseView {
    match payload {
        Some(u) => ResponseView { status: 201, body: u.json(), content: ContentKind::Json },
        None => bad_request_view(),
    }
}

/// What the router answers to a request with these parts.
pub open spec fn route_view(
    method: Seq<char>,
    user_id: Option<Seq<char>>,
    payload: Option<User>,
) -> ResponseView {
    match method_spec(method) {
        Method::Get => list_or_get_view(user_id),
        Method::Post => create_view(payload),
        Method::Other => not_allowed_view(),
    }
}

/// Tells the methods apart by their exact text.
pub fn method_of(m: &str) -> (r: Method)
    ensures
        r == method_spec(m@),
{
    let m = String::from_str(m);
    if m == String::from_str("GET") {
        Method::Get
    } else if m == String::from_str("POST") {
        Method::Post
    } else {
        Method::Other
    }
}

/// The fixed answer to a method that no route handles.
pub fn method_not_allowed() -> (r: Response)
    ensures
        r@ == not_allowed_view(),
{
    Response {
        status: 405,
        body: String::from_str("Method not allowed"),
        content: ContentKind::Text,
    }
}

/// The fixed answer to a request that is missing or malformed.
pub fn bad_request() -> (r: Response)
    ensures
        r@ == bad_request_view(),
{
    Response { status: 400, body: String::from_str("Bad request"), content: ContentKind::Text }
}

/// The two fixed users that the list shows.
pub fn sample_users() -> (r: Vec<User>)
    ensures
        r@.len() == 2,
        r@[0].username@ == "test_user1"@,
        r@[0].email@ == "example1@example.com"@,
        r@[1].username@ == "test_user2"@,
        r@[1].email@ == "example2@example.com"@,
{
    let mut users: Vec<User> = Vec::new();
    users.push(
        User::new(String::from_str("test_user1"), String::from_str("example1@example.com")),
    );
    users.push(
        User::new(String::from_str("test_user2"), String::from_str("example2@example.com")),
    );
    users
}

/// The user with this id.
pub fn get_user(user_id: u64) -> (r: Response)
    ensures
        r@ == user_view(user_id),
{
    let user = User::for_id(user_id);
    Response { status: 200, body: user.to_json(), content: ContentKind::Json }
}

/// The list of all users.
pub fn get_users() -> (r: Response)
    ensures
        r@ == users_view(),
{
    let users = sample_users();
    let body = users_to_json(&users);
    proof {
        let s = users@;
        assert(s.drop_last().len() == 1);
        assert(s.drop_last()[0] == s[0]);
        assert(users_items(s.drop_last()) == s[0].json());
        assert(users_items(s) == s[0].json() + ","@ + s[1].json());
        assert(users_json(s) =~= sample_users_json());
    }
    Response { status: 200, body, content: ContentKind::Json }
}

fn lookup(id: &str) -> (r: Response)
    ensures
        r@ == id_lookup_view(id@),
{
    match parse_u64(id) {
        Some(n) => get_user(n),
        None => bad_request(),
    }
}

/// The combined route: the user named by `user_id`, or the list where there
/// is none. An id that is no `u64` is a bad request.
pub fn get_user_handler(user_id: Option<&str>) -> (r: Response)
    ensures
        r@ == list_or_get_view(id_view(user_id)),
{
    match user_id {
        Some(id) => lookup(id),
        None => get_users(),
    }
}

/// The dedicated route: the user named by `user_id`; a bad request where the
/// id is missing or is no `u64`.
pub fn get_user_by_id_handler(user_id: Option<&str>) -> (r: Response)
    ensures
        r@ == by_id_view(id_view(user_id)),
{
    match user_id {
        Some(id) => lookup(id),
        None => bad_request(),
    }
}

/// Creation: the user read from the body, echoed as JSON with status 201; a
/// bad request where the body was not a user.
pub fn create_user(payload: Option<User>) -> (r: Response)
    ensures
        r@ == create_view(payload),
{
    match payload {
        Some(user) => Response { status: 201, body: user.to_json(), content: ContentKind::Json },
        None => bad_request(),
    }
}

/// Dispatches on the method: `GET` to the combined lookup, `POST` to
/// creation, anything else to "method not allowed".
pub fn routes(req: Request) -> (r: Response)
    ensures
        r@ == route_view(req.method@, string_id_view(req.user_id), req.payload),
{
    match method_of(req.method.as_str()) {
        Method::Get => match &req.user_id {
            Some(id) => get_user_handler(Some(id.as_str())),
            None => get_user_handler(None),
        },
        Method::Post => create_user(req.payload),
        Method::Other => method_not_allowed(),
    }
}

/// Any `u64` written in decimal finds, on both lookup routes, the user with
/// that id: status 200 and the object with `username_<n>` and the placeholder
/// address.
pub proof fn lemma_lookup_decimal_id(n: u64)
    ensures
        by_id_view(Some(decimal_of(n as nat))) == user_view(n),
        list_or_get_view(Some(decimal_of(n as nat))) == user_view(n),
        user_view(n).status == 200,
        user_view(n).body == user_json(
            "username_"@ + decimal_of(n as nat),
            "test@example.com"@,
        ),
{
    lemma_parse_decimal(n);
}

/// The dedicated lookup route without an id is a bad request.
pub proof fn lemma_by_id_without_id()
    ensures
        by_id_view(None) == bad_request_view(),
        bad_request_view().status == 400,
        bad_request_view().body == "Bad request"@,
{
}

/// A `GET` without an id lists the two fixed users, whatever else the request
/// holds.
pub proof fn lemma_get_without_id_lists(method: Seq<char>, payload: Option<User>)
    requires
        method == "GET"@,
    ensures
        route_view(method, None, payload) == users_view(),
        users_view().status == 200,
        users_view().body == sample_users_json(),
{
}

/// Every method but `GET` and `POST` is answered with 405 and
/// "Method not allowed", whatever else the request holds.
pub proof fn lemma_other_methods_not_allowed(
    method: Seq<char>,
    user_id: Option<Seq<char>>,
    payload: Option<User>,
)
    requires
        method != "GET"@,
        method != "POST"@,
    ensures
        route_view(method, user_id, payload) == not_allowed_view(),
        not_allowed_view().status == 405,
        not_allowed_view().body == "Method not allowed"@,
{
}

/// A `POST` whose body is a user is answered with 201 and that same user as a
/// JSON object. The echo reads back as exactly the pair that was sent: any
/// `username` and `email` whose object equals the body are the user's own.
pub proof fn lemma_create_echoes(
    method: Seq<char>,
    user_id: Option<Seq<char>>,
    user: User,
    username: Seq<char>,
    email: Seq<char>,
)
    requires
        method == "POST"@,
    ensures
        route_view(method, user_id, Some(user)).status == 201,
        route_view(method, user_id, Some(user)).body == user_json(user.username@, user.email@),
        route_view(method, user_id, Some(user)).content == ContentKind::Json,
        route_view(method, user_id, Some(user)).body == user_json(username, email) ==> username
            == user.username@ && email == user.email@,
{
    lemma_post_is_not_get();
    if route_view(method, user_id, Some(user)).body == user_json(username, email) {
        lemma_user_json_injective(username, email, user.username@, user.email@);
    }
}

/// A `POST` whose body is not a user is a bad request.
pub proof fn lemma_create_malformed(method: Seq<char>, user_id: Option<Seq<char>>)
    requires
        method == "POST"@,
    ensures
        route_view(method, user_id, None) == bad_request_view(),
{
    lemma_post_is_not_get();
}

proof fn lemma_post_is_not_get()
    ensures
        "POST"@ != "GET"@,
{
    reveal_strlit("POST");
    reveal_strlit("GET");
    assert("POST"@[0] != "GET"@[0]);
}

} // verus!
