//! The user record and its JSON text.

use vstd::prelude::*;
use vstd::string::*;
use crate::decimal::{decimal_of, push_decimal};
use crate::json::{escaped, json_quoted, lemma_escaped_then_quote, quote_json};

verus! {

/// A user: a name and an e-mail address, neither of them checked.
pub struct User {
    pub username: String,
    pub email: String,
}

/// The JSON object for a user with these fields, `username` first.
pub open spec fn user_json(username: Seq<char>, email: Seq<char>) -> Seq<char> {
    "{\"username\":"@ + json_quoted(username) + ",\"email\":"@ + json_quoted(email) + "}"@
}

/// The JSON object of a user determines both of its fields: read back, it
/// gives the same username and the same address.
pub proof fn lemma_user_json_injective(a: Seq<char>, b: Seq<char>, c: Seq<char>, d: Seq<char>)
    requires
        user_json(a, b) == user_json(c, d),
    ensures
        a == c,
        b == d,
{
    let p = "{\"username\":"@;
    let q = ",\"email\":"@;
    let r = "}"@;
    let l = user_json(a, b);
    let k = p.len() + 1;
    let rest_b = q + json_quoted(b) + r;
    let rest_d = q + json_quoted(d) + r;
    assert(l.subrange(k as int, l.len() as int) =~= escaped(a) + seq!['"'] + rest_b);
    assert(user_json(c, d).subrange(k as int, l.len() as int) =~= escaped(c) + seq!['"']
        + rest_d);
    lemma_escaped_then_quote(a, c, rest_b, rest_d);
    let j = q.len() + 1;
    assert(rest_b.subrange(j as int, rest_b.len() as int) =~= escaped(b) + seq!['"'] + r);
    assert(rest_d.subrange(j as int, rest_b.len() as int) =~= escaped(d) + seq!['"'] + r);
    lemma_escaped_then_quote(b, d, r, r);
}

/// The members of a JSON array holding each user in turn, comma separated.
pub open spec fn users_items(users: Seq<User>) -> Seq<char>
    decreases users.len(),
{
    if users.len() == 0 {
        Seq::empty()
    } else if users.len() == 1 {
        users[0].json()
    } else {
        users_items(users.drop_last()) + ","@ + users.last().json()
    }
}

/// The JSON array of the users in order.
pub open spec fn users_json(users: Seq<User>) -> Seq<char> {
    "["@ + users_items(users) + "]"@
}

/// The name given to the user with this id.
pub open spec fn username_for(id: u64) -> Seq<char> {
    "username_"@ + decimal_of(id as nat)
}

/// The address given to a user looked up by id.
pub open spec fn placeholder_email() -> Seq<char> {
    "test@example.com"@
}

impl User {
    pub open spec fn json(&self) -> Seq<char> {
        user_json(self.username@, self.email@)
    }

    pub fn new(username: String, email: String) -> (r: User)
        ensures
            r.username@ == username@,
            r.email@ == email@,
    {
        User { username, email }
    }

    /// The user that stands for `id`: `username_<id>` with the placeholder
    /// address.
    pub fn for_id(id: u64) -> (r: User)
        ensures
            r.username@ == username_for(id),
            r.email@ == placeholder_email(),
    {
        let mut username = String::from_str("username_");
        push_decimal(&mut username, id);
        User { username, email: String::from_str("test@example.com") }
    }

    /// The user as a JSON object.
    pub fn to_json(&self) -> (r: String)
        ensures
            r@ == self.json(),
    {
        let mut out = String::from_str("{\"username\":");
        let name = quote_json(self.username.as_str());
        out.append(name.as_str());
        out.append(",\"email\":");
        let email = quote_json(self.email.as_str());
        out.append(email.as_str());
        out.append("}");
        out
    }
}

/// The users as a JSON array, in order.
pub fn users_to_json(users: &Vec<User>) -> (r: String)
    ensures
        r@ == users_json(users@),
{
    let mut out = String::from_str("[");
    let mut i: usize = 0;
    while i < users.len()
        invariant
            i <= users@.len(),
            out@ == "["@ + users_items(users@.subrange(0, i as int)),
        decreases users@.len() - i,
    {
        let ghost before = users@.subrange(0, i as int);
        let ghost after = users@.subrange(0, i as int + 1);
        assert(after.drop_last() =~= before);
        if i > 0 {
            out.append(",");
        }
        let item = users[i].to_json();
        out.append(item.as_str());
        proof {
            if i == 0 {
                assert(before =~= Seq::<User>::empty());
                assert(out@ =~= "["@ + users_items(after));
            } else {
                assert(out@ =~= "["@ + users_items(after));
            }
        }
        i = i + 1;
    }
    assert(users@.subrange(0, users@.len() as int) =~= users@);
    out.append("]");
    out
}

} // verus!
