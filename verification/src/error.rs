//! Errors raised while validating the origin of a cross-origin request.

use vstd::prelude::*;

use crate::http::Response;

verus! {

/// Set of errors that can occur during processing CORS.
#[derive(Clone, Copy, Debug, PartialEq, Eq, Structural)]
pub enum Error {
    /// The HTTP request header `Origin` is required but was not provided.
    MissingOrigin,
    /// `Origin` is not allowed to make this request.
    OriginNotAllowed,
}

impl Error {
    /// A human-readable description of the error.
    pub fn message(&self) -> (r: &'static str)
        ensures
            *self == Error::MissingOrigin ==> r@ == (
            "The HTTP request header `Origin` is required but was not provided")@,
            *self == Error::OriginNotAllowed ==> r@ == (
            "`Origin` is not allowed to make this request")@,
    {
        match self {
            Error::MissingOrigin => "The HTTP request header `Origin` is required but was not provided",
            Error::OriginNotAllowed => "`Origin` is not allowed to make this request",
        }
    }

    /// The response sent to a rejected caller: `403 Forbidden`, no headers,
    /// empty body. Both rejection reasons look the same from outside.
    pub fn into_response(self) -> (r: Response)
        ensures
            r.status == 403,
            r.headers@ == Seq::<(Seq<u8>, Seq<u8>)>::empty(),
            r.body@ == Seq::<u8>::empty(),
    {
        Response::new(403)
    }
}

} // verus!
