//! The WebSocket tunnel establisher's decisions: whether an upgrade request
//! is well-formed enough to open a backend leg, and what to do when the
//! backend handshake succeeds or fails after the client leg was accepted.

use vstd::prelude::*;

verus! {

use crate::bytes::{ascii_of, ascii_bytes, bytes_eq};
use crate::classify::InboundRequest;
use crate::forward::{ProxyConfig, ws_target, build_ws_target};
use crate::headers::{has_name, first_value};
use crate::responses::{ErrorResponse, upgrade_required_response};

/// The WebSocket close code sent to the client when the backend leg of a
/// tunnel cannot be established: an internal, session-scoped error.
pub const BACKEND_FAILURE_CLOSE_CODE: u16 = 1011;

/// A well-formed upgrade request: it carries a handshake key, and its first
/// handshake version header names exactly version 13.
pub open spec fn well_formed_upgrade(h: Seq<(Seq<u8>, Seq<u8>)>) -> bool {
    &&& has_name(h, ascii_of("sec-websocket-key"@))
    &&& first_value(h, ascii_of("sec-websocket-version"@)) == Some(ascii_of("13"@))
}

/// What to do with a request classified as a WebSocket upgrade.
pub enum UpgradePlan {
    /// The handshake is malformed: answer with this response and make no
    /// backend connection attempt.
    Reject(ErrorResponse),
    /// The handshake is well-formed: accept the client leg and open a
    /// backend handshake to this target.
    Accept { backend_target: Vec<u8> },
}

/// Step one of tunnel establishment: validate the upgrade handshake.
/// A malformed handshake is rejected with status 400 and the fixed body,
/// before any backend contact; a well-formed one is accepted, with the
/// backend handshake target built from the same translation rule as plain
/// forwarding, on the WebSocket scheme.
pub fn plan_upgrade(req: &InboundRequest, cfg: &ProxyConfig) -> (p: UpgradePlan)
    ensures
        well_formed_upgrade(req.headers@) ==> (p matches UpgradePlan::Accept { backend_target }
            && backend_target@ == ws_target(cfg.backend_authority@, req.path_and_query@)),
        !well_formed_upgrade(req.headers@) ==> (p matches UpgradePlan::Reject(e) && e.status
            == 400 && e.body@ == ascii_of("WebSocket upgrade required"@)),
{
    proof {
        reveal_strlit("sec-websocket-key");
        reveal_strlit("sec-websocket-version");
        reveal_strlit("13");
        assert(vstd::string::is_ascii("sec-websocket-key"));
        assert(vstd::string::is_ascii("sec-websocket-version"));
        assert(vstd::string::is_ascii("13"));
    }
    let key_name = ascii_bytes("sec-websocket-key");
    let version_name = ascii_bytes("sec-websocket-version");
    let version_13 = ascii_bytes("13");
    let has_key = req.headers.contains_name(key_name.as_slice());
    let version_ok = match req.headers.get_first(version_name.as_slice()) {
        Some(v) => bytes_eq(v.as_slice(), version_13.as_slice()),
        None => false,
    };
    if has_key && version_ok {
        let backend_target = build_ws_target(
            cfg.backend_authority.as_slice(),
            req.path_and_query.as_slice(),
        );
        UpgradePlan::Accept { backend_target }
    } else {
        UpgradePlan::Reject(upgrade_required_response())
    }
}

/// What the session does once the backend handshake has been attempted.
#[derive(Clone, Copy, PartialEq, Eq, Structural, Debug)]
pub enum TunnelDecision {
    /// Both legs are up: hand the two sockets to the relay.
    StartRelay,
    /// The backend leg failed after the client leg was accepted: close the
    /// client socket with this error close code. The failure stays scoped
    /// to this session.
    CloseClient { close_code: u16 },
}

/// Step three of tunnel establishment: act on the backend handshake
/// outcome. Success starts the relay; failure closes only the affected
/// client socket with an error close code, never anything wider.
pub fn after_backend_handshake(backend_ok: bool) -> (d: TunnelDecision)
    ensures
        backend_ok ==> d == TunnelDecision::StartRelay,
        !backend_ok ==> d == (TunnelDecision::CloseClient {
            close_code: BACKEND_FAILURE_CLOSE_CODE,
        }),
{
    if backend_ok {
        TunnelDecision::StartRelay
    } else {
        TunnelDecision::CloseClient { close_code: BACKEND_FAILURE_CLOSE_CODE }
    }
}

} // verus!
