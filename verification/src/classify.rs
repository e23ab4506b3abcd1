//! The request classifier: every inbound request is either plain HTTP or a
//! WebSocket upgrade, decided from its headers alone. Missing or malformed
//! upgrade signals classify as plain HTTP, so a normal request is never
//! blocked.

use vstd::prelude::*;

verus! {

use crate::bytes::{ascii_of, ascii_bytes};
use crate::headers::Headers;
use crate::tokens::header_has_token;

/// An inbound request, as the connection handler sees it: the method, the
/// raw path with its query, and the header mapping. The body never enters
/// the library; the caller streams it untouched.
pub struct InboundRequest {
    pub method: Vec<u8>,
    pub path_and_query: Vec<u8>,
    pub headers: Headers,
}

/// The two ways an inbound request can be handled.
#[derive(Clone, Copy, PartialEq, Eq, Structural, Debug)]
pub enum RequestClass {
    PlainHttp,
    WebSocketUpgrade,
}

/// The standard upgrade signal: some `Connection` header lists the
/// `upgrade` token and some `Upgrade` header lists the `websocket`
/// protocol, commas separating, whitespace trimmed, ASCII case ignored.
pub open spec fn upgrade_requested(h: Seq<(Seq<u8>, Seq<u8>)>) -> bool {
    &&& header_has_token(h, ascii_of("connection"@), ascii_of("upgrade"@))
    &&& header_has_token(h, ascii_of("upgrade"@), ascii_of("websocket"@))
}

/// Classify an inbound request from its headers. The request is a
/// WebSocket upgrade exactly when it carries the standard upgrade signal;
/// anything else, including a malformed signal, is plain HTTP.
pub fn classify(req: &InboundRequest) -> (c: RequestClass)
    ensures
        (c == RequestClass::WebSocketUpgrade) <==> upgrade_requested(req.headers@),
        (c == RequestClass::PlainHttp) <==> !upgrade_requested(req.headers@),
{
    proof {
        reveal_strlit("connection");
        reveal_strlit("upgrade");
        reveal_strlit("websocket");
        assert(vstd::string::is_ascii("connection"));
        assert(vstd::string::is_ascii("upgrade"));
        assert(vstd::string::is_ascii("websocket"));
    }
    let connection_name = ascii_bytes("connection");
    let upgrade_tok = ascii_bytes("upgrade");
    let upgrade_name = ascii_bytes("upgrade");
    let websocket_tok = ascii_bytes("websocket");
    let is_upgrade = crate::tokens::headers_have_token(
        &req.headers,
        connection_name.as_slice(),
        upgrade_tok.as_slice(),
    ) && crate::tokens::headers_have_token(
        &req.headers,
        upgrade_name.as_slice(),
        websocket_tok.as_slice(),
    );
    if is_upgrade {
        RequestClass::WebSocketUpgrade
    } else {
        RequestClass::PlainHttp
    }
}

} // verus!
