use crate::extract::{rejection_reply, Rejection, RejectionView};
use crate::http::{
    empty_reply, method_not_allowed_reply, text_reply, Allow, ContentType, Method, Reply,
    Response, StatusCode,
};
use crate::json::user_json;
use crate::text::{same_text, starts_with};
use crate::users::{create_user, created_user, root, user_reply, CreateUser, User, UserView};
use vstd::prelude::*;

verus! {

/// What is to be done with a request, decided from its method and path alone.
#[derive(Clone, Debug, PartialEq, Eq)]
pub enum Action {
    /// The response is ready.
    Respond(Response),
    /// The body is to be read as the JSON of a `CreateUser`; `complete_create_user`
    /// answers whatever that gives.
    ReadUser,
    /// The file server is to answer, for this path below the asset directory.
    ServeAsset(String),
}

/// What an `Action` is in contracts.
pub enum Decision {
    Respond(Reply),
    ReadUser,
    ServeAsset(Seq<char>),
}

impl View for Action {
    type V = Decision;

    open spec fn view(&self) -> Decision {
        match self {
            Action::Respond(response) => Decision::Respond(response@),
            Action::ReadUser => Decision::ReadUser,
            Action::ServeAsset(path) => Decision::ServeAsset(path@),
        }
    }
}

/// Whether a path lies under the asset route: the prefix itself, or anything below it.
pub open spec fn is_asset_path(path: Seq<char>) -> bool {
    path == "/assets"@ || "/assets/"@.is_prefix_of(path)
}

/// The path that the file server is asked for: what follows `/assets/`, with a slash put
/// before it unless it begins with one. So `/assets/css/site.css` asks for `/css/site.css`,
/// and `/assets` and `/assets/` both ask for `/`.
pub open spec fn asset_path(path: Seq<char>) -> Seq<char>
    recommends
        is_asset_path(path),
{
    if path == "/assets"@ {
        "/"@
    } else {
        let rest = path.skip(8);
        if rest.len() > 0 && rest[0] == '/' {
            rest
        } else {
            "/"@ + rest
        }
    }
}

/// The route table.
///
/// | method      | path              | decision                          |
/// |-------------|-------------------|-----------------------------------|
/// | GET, HEAD   | `/`               | respond with the greeting         |
/// | POST        | `/users`          | read the body, then create a user |
/// | any         | `/assets`, below  | hand over to the file server      |
///
/// A known path under another method is answered 405, an unknown path 404. HEAD gets the
/// response of GET; the transport leaves its body out.
pub open spec fn route(method: Method, path: Seq<char>) -> Decision {
    if path == "/"@ {
        match method {
            Method::Get | Method::Head => Decision::Respond(text_reply("Hello, World!"@)),
            _ => Decision::Respond(method_not_allowed_reply(Allow::GetHead)),
        }
    } else if path == "/users"@ {
        match method {
            Method::Post => Decision::ReadUser,
            _ => Decision::Respond(method_not_allowed_reply(Allow::Post)),
        }
    } else if is_asset_path(path) {
        Decision::ServeAsset(asset_path(path))
    } else {
        Decision::Respond(empty_reply(StatusCode::NotFound))
    }
}

/// The path below the asset directory that a request path asks for, if it lies under the
/// asset route.
pub fn asset_file(path: &str) -> (file: Option<String>)
    ensures
        file is Some == is_asset_path(path@),
        file matches Some(name) ==> name@ == asset_path(path@),
{
    proof {
        reveal_strlit("/assets");
        reveal_strlit("/assets/");
        reveal_strlit("/");
    }
    if same_text(path, "/assets") {
        return Some("/".to_owned());
    }
    if !starts_with(path, "/assets/") {
        return None;
    }
    let len: usize = path.unicode_len();
    assert(path@.subrange(0, 8) =~= "/assets/"@);
    assert(path@[7] == path@.subrange(0, 8)[7]);
    if len > 8 && path.get_char(8) == '/' {
        let rest = path.substring_char(8, len);
        assert(rest@ =~= path@.skip(8));
        Some(rest.to_owned())
    } else {
        let rest = path.substring_char(7, len);
        assert(rest@ =~= "/"@ + path@.skip(8));
        Some(rest.to_owned())
    }
}

/// Decides what is to be done with a request.
pub fn dispatch(method: Method, path: &str) -> (action: Action)
    ensures
        action@ == route(method, path@),
        (method == Method::Get && path@ == "/"@) ==> (action@ matches Decision::Respond(reply)
            && reply.status.number() == 200 && reply.body == "Hello, World!"@),
{
    if same_text(path, "/") {
        match method {
            Method::Get | Method::Head => Action::Respond(Response::text(root())),
            _ => Action::Respond(Response::method_not_allowed(Allow::GetHead)),
        }
    } else if same_text(path, "/users") {
        match method {
            Method::Post => Action::ReadUser,
            _ => Action::Respond(Response::method_not_allowed(Allow::Post)),
        }
    } else {
        match asset_file(path) {
            Some(file) => Action::ServeAsset(file),
            None => Action::Respond(Response::empty(StatusCode::NotFound)),
        }
    }
}

/// The address the service listens on.
pub const BIND_ADDRESS: &'static str = "127.0.0.1:3000";

/// The directory, relative to where the service runs, that the file server reads.
pub const ASSET_DIR: &'static str = "assets";

/// How a request to create a user ended: the response, and the user if one was created.
#[derive(Clone, Debug, PartialEq, Eq)]
pub struct Outcome {
    pub response: Response,
    pub created: Option<User>,
}

/// The answer to a request to create a user, given what reading its body gave.
pub open spec fn create_user_reply(extraction: Result<Seq<char>, RejectionView>) -> Reply {
    match extraction {
        Ok(username) => user_reply(StatusCode::Created, created_user(username)),
        Err(rejection) => rejection_reply(rejection),
    }
}

/// What reading a body gave, in contracts.
pub open spec fn extraction_view(extraction: Result<CreateUser, Rejection>) -> Result<
    Seq<char>,
    RejectionView,
> {
    match extraction {
        Ok(payload) => Ok(payload@),
        Err(rejection) => Err(rejection@),
    }
}

/// Answers a request to create a user once its body has been read: a body that was read
/// goes to `create_user` and the user comes back as JSON; a body that was turned down never
/// reaches `create_user` and is answered with a client error.
pub fn complete_create_user(extraction: Result<CreateUser, Rejection>) -> (outcome: Outcome)
    ensures
        outcome.response@ == create_user_reply(extraction_view(extraction)),
        match extraction {
            Ok(payload) => outcome.created matches Some(user) && user@ == created_user(payload@)
                && outcome.response.status == StatusCode::Created,
            Err(_) => outcome.created is None && outcome.response.status.client_error(),
        },
{
    match extraction {
        Ok(payload) => {
            let (status, user) = create_user(payload);
            let response = Response::json(status, &user);
            Outcome { response, created: Some(user) }
        },
        Err(rejection) => Outcome { response: Response::rejection(rejection), created: None },
    }
}

/// A body that was read is answered 201 with a JSON object of the fixed id and the name
/// that the body gave.
pub proof fn created_user_echoes_name(username: Seq<char>)
    ensures
        create_user_reply(Ok(username)).status.number() == 201,
        create_user_reply(Ok(username)).content_type == Some(ContentType::Json),
        create_user_reply(Ok(username)).body == user_json(1337, username),
{
}

/// A body that was turned down is answered in the 4xx class, whatever the reason.
pub proof fn rejected_body_is_client_error(rejection: RejectionView)
    ensures
        400 <= create_user_reply(Err(rejection)).status.number() < 500,
{
}

/// Requests do not interfere: the answer to each is a function of what its own body gave.
/// Two requests with two names each get the fixed id and their own name, in whatever order
/// and however often they are answered.
pub proof fn requests_are_independent(first: Seq<char>, second: Seq<char>)
    ensures
        create_user_reply(Ok(first)) == user_reply(
            StatusCode::Created,
            UserView { id: 1337, username: first },
        ),
        create_user_reply(Ok(second)) == user_reply(
            StatusCode::Created,
            UserView { id: 1337, username: second },
        ),
{
}

} // verus!
