//! The request and response contract of a small HTTP service: a greeting at the index, an
//! endpoint that creates a user from a JSON body, and static files below `/assets`.
//!
//! The library decides; it does no I/O. A caller hands it the method and path of a request
//! and acts on the `Action` that comes back: it sends a response, reads the body and comes
//! back with what that gave, or lets a file server answer.

pub mod extract;
pub mod http;
pub mod json;
pub mod router;
pub mod text;
pub mod users;

pub use crate::extract::{Rejection, RejectionKind};
pub use crate::http::{Allow, ContentType, Method, Response, StatusCode};
pub use crate::router::{
    asset_file, complete_create_user, dispatch, Action, Outcome, ASSET_DIR, BIND_ADDRESS,
};
pub use crate::users::{create_user, root, CreateUser, User, USER_ID};
