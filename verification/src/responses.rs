//! The fixed error responses the proxy may give a caller. No internal
//! detail ever reaches the caller: only these status codes and bodies.

use vstd::prelude::*;

verus! {

use crate::bytes::{ascii_of, ascii_bytes};

/// An error response: a status code and a short fixed text body.
pub struct ErrorResponse {
    pub status: u16,
    pub body: Vec<u8>,
}

/// The response to a malformed WebSocket upgrade attempt.
pub fn upgrade_required_response() -> (r: ErrorResponse)
    ensures
        r.status == 400,
        r.body@ == ascii_of("WebSocket upgrade required"@),
{
    proof {
        reveal_strlit("WebSocket upgrade required");
        assert(vstd::string::is_ascii("WebSocket upgrade required"));
    }
    ErrorResponse { status: 400, body: ascii_bytes("WebSocket upgrade required") }
}

/// The response when forwarding a plain HTTP request to the backend fails.
pub fn internal_error_response() -> (r: ErrorResponse)
    ensures
        r.status == 500,
        r.body@ == ascii_of("Internal Server Error"@),
{
    proof {
        reveal_strlit("Internal Server Error");
        assert(vstd::string::is_ascii("Internal Server Error"));
    }
    ErrorResponse { status: 500, body: ascii_bytes("Internal Server Error") }
}

/// The response when tunnel establishment fails inside the request handler.
pub fn websocket_error_response() -> (r: ErrorResponse)
    ensures
        r.status == 500,
        r.body@ == ascii_of("WebSocket error"@),
{
    proof {
        reveal_strlit("WebSocket error");
        assert(vstd::string::is_ascii("WebSocket error"));
    }
    ErrorResponse { status: 500, body: ascii_bytes("WebSocket error") }
}

} // verus!
