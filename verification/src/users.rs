use crate::http::{ContentType, Reply, Response, StatusCode};
use crate::json::{encode_user, user_json};
use vstd::prelude::*;

verus! {

/// The id that every created user gets: nothing is stored, so nothing is counted.
pub const USER_ID: u64 = 1337;

/// The body of a request to create a user.
#[derive(Clone, Debug, PartialEq, Eq)]
pub struct CreateUser {
    pub username: String,
}

/// A created user, as it is sent back.
#[derive(Clone, Debug, PartialEq, Eq)]
pub struct User {
    pub id: u64,
    pub username: String,
}

/// What a `User` is in contracts.
pub struct UserView {
    pub id: nat,
    pub username: Seq<char>,
}

impl View for CreateUser {
    type V = Seq<char>;

    /// A request body is its one field.
    open spec fn view(&self) -> Seq<char> {
        self.username@
    }
}

impl View for User {
    type V = UserView;

    open spec fn view(&self) -> UserView {
        UserView { id: self.id as nat, username: self.username@ }
    }
}

/// The user that a request creates.
pub open spec fn created_user(username: Seq<char>) -> UserView {
    UserView { id: USER_ID as nat, username }
}

/// A user as a JSON body under the given status.
pub open spec fn user_reply(status: StatusCode, user: UserView) -> Reply {
    Reply {
        status,
        content_type: Some(ContentType::Json),
        allow: None,
        body: user_json(user.id, user.username),
    }
}

/// The text served at the index route.
pub fn root() -> (body: &'static str)
    ensures
        body@ == "Hello, World!"@,
{
    "Hello, World!"
}

/// Creates the user that the request names: the fixed id, the name as it came, and the
/// status to answer with.
pub fn create_user(payload: CreateUser) -> (created: (StatusCode, User))
    ensures
        created.0 == StatusCode::Created,
        created.1@ == created_user(payload@),
{
    let user = User { id: USER_ID, username: payload.username };
    (StatusCode::Created, user)
}

impl Response {
    /// A user as a JSON body under the given status.
    pub fn json(status: StatusCode, user: &User) -> (response: Response)
        ensures
            response@ == user_reply(status, user@),
    {
        Response {
            status,
            content_type: Some(ContentType::Json),
            allow: None,
            body: encode_user(user.id, user.username.as_str()),
        }
    }
}

} // verus!
