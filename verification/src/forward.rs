//! The HTTP forwarder's pure part: rewriting the target of an inbound
//! request onto the fixed backend authority while keeping the method, the
//! path with its query, and every header exactly as they came in.

use vstd::prelude::*;

verus! {

use crate::bytes::{ascii_of, ascii_bytes, append_bytes};
use crate::classify::InboundRequest;
use crate::headers::Headers;

/// The proxy's configuration: the one backend authority (host and port)
/// that every request is forwarded to.
pub struct ProxyConfig {
    pub backend_authority: Vec<u8>,
}

/// The full HTTP target for a path on the backend.
pub open spec fn http_target(authority: Seq<u8>, path_and_query: Seq<u8>) -> Seq<u8> {
    ascii_of("http://"@) + authority + path_and_query
}

/// The full WebSocket target for a path on the backend.
pub open spec fn ws_target(authority: Seq<u8>, path_and_query: Seq<u8>) -> Seq<u8> {
    ascii_of("ws://"@) + authority + path_and_query
}

/// A request ready to go to the backend: the inbound request with only its
/// target replaced.
pub struct TranslatedRequest {
    pub method: Vec<u8>,
    pub target: Vec<u8>,
    pub headers: Headers,
}

/// Build the backend HTTP target for a path.
pub fn build_http_target(authority: &[u8], path_and_query: &[u8]) -> (t: Vec<u8>)
    ensures
        t@ == http_target(authority@, path_and_query@),
{
    proof {
        reveal_strlit("http://");
        assert(vstd::string::is_ascii("http://"));
    }
    let mut t = ascii_bytes("http://");
    append_bytes(&mut t, authority);
    append_bytes(&mut t, path_and_query);
    t
}

/// Build the backend WebSocket target for a path.
pub fn build_ws_target(authority: &[u8], path_and_query: &[u8]) -> (t: Vec<u8>)
    ensures
        t@ == ws_target(authority@, path_and_query@),
{
    proof {
        reveal_strlit("ws://");
        assert(vstd::string::is_ascii("ws://"));
    }
    let mut t = ascii_bytes("ws://");
    append_bytes(&mut t, authority);
    append_bytes(&mut t, path_and_query);
    t
}

/// Translate an inbound request for the backend: the target becomes the
/// backend authority with the same path and query; the method and every
/// header are handed on untouched, in order.
pub fn translate_request(req: InboundRequest, cfg: &ProxyConfig) -> (t: TranslatedRequest)
    ensures
        t.method@ == req.method@,
        t.headers@ == req.headers@,
        t.target@ == http_target(cfg.backend_authority@, req.path_and_query@),
{
    let target = build_http_target(
        cfg.backend_authority.as_slice(),
        req.path_and_query.as_slice(),
    );
    TranslatedRequest { method: req.method, target, headers: req.headers }
}

} // verus!
