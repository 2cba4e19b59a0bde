//! What the HTTP surface tells a client: the status for each way in which a
//! request can end.
use vstd::prelude::*;
use crate::error::StoreError;
use crate::post::Post;
use crate::validation::ValidationError;

verus! {

/// The status of a response that carries the created post.
pub const CREATED: u16 = 201;

/// The status of a response to a request that did not pass validation.
pub const BAD_REQUEST: u16 = 400;

/// The status of a response to a request on which the core failed.
pub const INTERNAL_SERVER_ERROR: u16 = 500;

/// The answer to a `POST /posts`.
#[derive(Clone, Debug, PartialEq, Eq)]
pub enum Response {
    /// The post was written; the body is the post.
    Created(Post),
    /// The request was not handed to the core; the body names the fields
    /// that were found wanting.
    BadRequest(ValidationError),
    /// The core failed. Nothing of the failure is passed on.
    InternalServerError,
}

impl Response {
    /// The status line of this answer.
    pub open spec fn spec_status(self) -> u16 {
        match self {
            Response::Created(_) => CREATED,
            Response::BadRequest(_) => BAD_REQUEST,
            Response::InternalServerError => INTERNAL_SERVER_ERROR,
        }
    }

    /// The status line of this answer.
    pub fn status(&self) -> (code: u16)
        ensures
            code == self.spec_status(),
    {
        match self {
            Response::Created(_) => CREATED,
            Response::BadRequest(_) => BAD_REQUEST,
            Response::InternalServerError => INTERNAL_SERVER_ERROR,
        }
    }
}

/// The answer to a request that did not pass validation.
pub fn reject(violated: ValidationError) -> (response: Response)
    ensures
        response == Response::BadRequest(violated),
{
    Response::BadRequest(violated)
}

/// The answer to a request that the core has dealt with: the post if it was
/// written, and otherwise the same opaque failure whatever went wrong.
pub fn respond(outcome: Result<Post, StoreError>) -> (response: Response)
    ensures
        response == match outcome {
            Ok(post) => Response::Created(post),
            Err(_) => Response::InternalServerError,
        },
{
    match outcome {
        Ok(post) => Response::Created(post),
        Err(_) => Response::InternalServerError,
    }
}

} // verus!
