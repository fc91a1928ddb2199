//! Request dispatch: one incoming request, one decision.
//!
//! The dispatcher routes a CONNECT request to the Connect Handler and every
//! other request to the HTTP Forward Handler. Each handler returns exactly
//! one action: answer the client at once, send a sanitized request through
//! the HTTP transport, or dial the tunnel target.

use vstd::prelude::*;
use crate::authority::{
    Authority, authority_host, authority_port, parse_authority, valid_authority,
};
use crate::headers::{HeaderField, bytes_eq, sanitize_headers, sanitize_spec};
use crate::response::{
    HttpResponse, bad_gateway_unreachable, bad_request_no_authority, bad_request_not_absolute,
    connect_granted, missing_authority_message, relative_uri_message, unreachable_target_message,
};

verus! {

/// What the proxy reads of an incoming request before deciding: the method,
/// the request target, whether the target's URI carries a scheme and a host,
/// the CONNECT authority if the target has one, and the header fields. The
/// body is not held here: it streams through the transport untouched.
pub struct RequestHead {
    pub method: Vec<u8>,
    pub uri: Vec<u8>,
    pub has_scheme: bool,
    pub has_host: bool,
    pub authority: Option<Vec<u8>>,
    pub headers: Vec<HeaderField>,
}

/// The mathematical image of a request head.
#[verifier::ext_equal]
pub struct RequestModel {
    pub method: Seq<u8>,
    pub uri: Seq<u8>,
    pub has_scheme: bool,
    pub has_host: bool,
    pub authority: Option<Seq<u8>>,
    pub headers: Seq<(Seq<u8>, Seq<u8>)>,
}

impl View for RequestHead {
    type V = RequestModel;

    open spec fn view(&self) -> RequestModel {
        RequestModel {
            method: self.method@,
            uri: self.uri@,
            has_scheme: self.has_scheme,
            has_host: self.has_host,
            authority: match self.authority {
                Option::Some(t) => Option::Some(t@),
                Option::None => Option::None,
            },
            headers: self.headers.deep_view(),
        }
    }
}

/// A sanitized request ready for the outbound transport: the method and URI
/// of the incoming request, unchanged, and its headers with every hop-by-hop
/// field removed.
pub struct OutboundRequest {
    pub method: Vec<u8>,
    pub uri: Vec<u8>,
    pub headers: Vec<HeaderField>,
}

/// The one decision taken for an incoming request.
pub enum RequestAction {
    /// Answer the client at once; no upstream is contacted.
    Respond(HttpResponse),
    /// Send the sanitized request through the HTTP transport.
    ForwardUpstream(OutboundRequest),
    /// Dial this authority; on success grant the tunnel, on failure refuse it.
    OpenTunnel(Authority),
}

/// The mathematical image of a decision.
#[verifier::ext_equal]
pub enum ActionModel {
    Respond(u16, Seq<char>),
    ForwardUpstream(Seq<u8>, Seq<u8>, Seq<(Seq<u8>, Seq<u8>)>),
    OpenTunnel(Seq<u8>, u16),
}

impl View for RequestAction {
    type V = ActionModel;

    open spec fn view(&self) -> ActionModel {
        match self {
            RequestAction::Respond(resp) => ActionModel::Respond(resp.status, resp.body@),
            RequestAction::ForwardUpstream(o) => ActionModel::ForwardUpstream(
                o.method@,
                o.uri@,
                o.headers.deep_view(),
            ),
            RequestAction::OpenTunnel(a) => ActionModel::OpenTunnel(a.host@, a.port),
        }
    }
}

/// The CONNECT method name.
pub open spec fn is_connect_method(m: Seq<u8>) -> bool {
    m == seq![67u8, 79u8, 78u8, 78u8, 69u8, 67u8, 84u8]
}

/// A URI is absolute when it carries both a scheme and a host; only such a
/// request names a target the proxy can forward to.
pub open spec fn uri_is_absolute(r: RequestModel) -> bool {
    r.has_scheme && r.has_host
}

/// What the HTTP Forward Handler decides: a request without an absolute URI
/// is refused with 400 and the transport is never invoked; any other request
/// goes upstream with its method and URI unchanged and its headers
/// sanitized.
pub open spec fn forward_decision(r: RequestModel) -> ActionModel {
    if uri_is_absolute(r) {
        ActionModel::ForwardUpstream(r.method, r.uri, sanitize_spec(r.headers))
    } else {
        ActionModel::Respond(400, relative_uri_message())
    }
}

/// What the Connect Handler decides before any I/O: without a well-formed
/// `host:port` authority the request is refused with 400 and nothing is
/// dialed; with one, the parsed authority is dialed.
pub open spec fn connect_decision(authority: Option<Seq<u8>>) -> ActionModel {
    match authority {
        Option::Some(t) => if valid_authority(t) {
            ActionModel::OpenTunnel(authority_host(t), authority_port(t) as u16)
        } else {
            ActionModel::Respond(400, missing_authority_message())
        },
        Option::None => ActionModel::Respond(400, missing_authority_message()),
    }
}

/// What the Request Dispatcher decides: CONNECT goes to the Connect Handler,
/// every other method to the HTTP Forward Handler.
pub open spec fn dispatch_decision(r: RequestModel) -> ActionModel {
    if is_connect_method(r.method) {
        connect_decision(r.authority)
    } else {
        forward_decision(r)
    }
}

/// Whether this method name is CONNECT.
pub fn is_connect(method: &[u8]) -> (r: bool)
    ensures
        r == is_connect_method(method@),
{
    let connect: Vec<u8> = vec![67u8, 79u8, 78u8, 78u8, 69u8, 67u8, 84u8];
    proof {
        assert(connect@ =~= seq![67u8, 79u8, 78u8, 78u8, 69u8, 67u8, 84u8]);
    }
    bytes_eq(method, connect.as_slice())
}

/// HTTP Forward Handler. A proxy cannot forward a request whose URI is not
/// absolute, so such a request is answered 400 at once and the transport is
/// never invoked. Otherwise the hop-by-hop headers are removed and the
/// request goes upstream otherwise unchanged.
pub fn handle_http(req: RequestHead) -> (r: RequestAction)
    ensures
        r@ == forward_decision(req@),
{
    let ghost m = req@;
    if req.has_scheme && req.has_host {
        let sanitized = sanitize_headers(req.headers);
        let r = RequestAction::ForwardUpstream(
            OutboundRequest { method: req.method, uri: req.uri, headers: sanitized },
        );
        proof {
            assert(r@ =~~= forward_decision(m));
        }
        r
    } else {
        let r = RequestAction::Respond(bad_request_not_absolute());
        proof {
            assert(r@ =~~= forward_decision(m));
        }
        r
    }
}

/// Connect Handler, handshake step. Parses the `host:port` authority of the
/// CONNECT target; without a well-formed one the request is answered 400 and
/// nothing is dialed.
pub fn handle_connect(authority: Option<Vec<u8>>) -> (r: RequestAction)
    ensures
        r@ == connect_decision(match authority {
            Option::Some(t) => Option::Some(t@),
            Option::None => Option::None,
        }),
{
    match authority {
        Option::None => {
            let r = RequestAction::Respond(bad_request_no_authority());
            proof {
                assert(r@ =~~= connect_decision(Option::None));
            }
            r
        },
        Option::Some(t) => {
            let ghost tv = t@;
            match parse_authority(t.as_slice()) {
                Option::Some(a) => {
                    let r = RequestAction::OpenTunnel(a);
                    proof {
                        assert(0 <= authority_port(tv) <= 65535);
                        assert(r@ =~~= connect_decision(Option::Some(tv)));
                    }
                    r
                },
                Option::None => {
                    let r = RequestAction::Respond(bad_request_no_authority());
                    proof {
                        assert(r@ =~~= connect_decision(Option::Some(tv)));
                    }
                    r
                },
            }
        },
    }
}

/// Request Dispatcher: the single entry point. Inspects the method and
/// routes a CONNECT request to the Connect Handler, every other request to
/// the HTTP Forward Handler; exactly one action comes back.
pub fn handle_request(req: RequestHead) -> (r: RequestAction)
    ensures
        r@ == dispatch_decision(req@),
{
    let ghost m = req@;
    if is_connect(req.method.as_slice()) {
        let r = handle_connect(req.authority);
        proof {
            assert(r@ =~~= dispatch_decision(m));
        }
        r
    } else {
        handle_http(req)
    }
}

/// The response that closes the CONNECT handshake once the dial is decided:
/// 200 with an empty body when the target was reached — written before any
/// tunnel byte moves — and 502 Bad Gateway when it was not.
pub open spec fn connect_dial_model(connected: bool) -> (u16, Seq<char>) {
    if connected {
        (200, Seq::<char>::empty())
    } else {
        (502, unreachable_target_message())
    }
}

/// Emits the CONNECT handshake response for a dial outcome.
pub fn connect_dial_response(connected: bool) -> (r: HttpResponse)
    ensures
        r@ == connect_dial_model(connected),
{
    if connected {
        connect_granted()
    } else {
        bad_gateway_unreachable()
    }
}

/// The gateway answer when the HTTP transport itself failed: the forwarded
/// request reached no origin server, so the client is told 502. A response
/// the transport did produce passes back verbatim and never comes through
/// here.
pub fn transport_failure_response() -> (r: HttpResponse)
    ensures
        r.status == 502,
        r.body@ == unreachable_target_message(),
{
    bad_gateway_unreachable()
}

/// A request whose URI is not absolute and whose method is not CONNECT is
/// answered 400 Bad Request, and no upstream request is ever made for it.
pub proof fn lemma_relative_uri_is_rejected(r: RequestModel)
    requires
        !is_connect_method(r.method),
        !uri_is_absolute(r),
    ensures
        dispatch_decision(r) == ActionModel::Respond(400, relative_uri_message()),
{
}

/// A CONNECT request whose authority is missing or not a well-formed
/// `host:port` is answered 400 Bad Request, and nothing is ever dialed for
/// it.
pub proof fn lemma_bad_authority_is_rejected(r: RequestModel)
    requires
        is_connect_method(r.method),
        match r.authority {
            Option::Some(t) => !valid_authority(t),
            Option::None => true,
        },
    ensures
        dispatch_decision(r) == ActionModel::Respond(400, missing_authority_message()),
{
}

/// A CONNECT request with a well-formed authority leads to a dial of exactly
/// that host and port; when the target cannot be reached, the handshake
/// closes with 502 Bad Gateway.
pub proof fn lemma_unreachable_target_gets_bad_gateway(r: RequestModel, t: Seq<u8>)
    requires
        is_connect_method(r.method),
        r.authority == Option::Some(t),
        valid_authority(t),
    ensures
        dispatch_decision(r) == ActionModel::OpenTunnel(authority_host(t), authority_port(t) as u16),
        connect_dial_model(false).0 == 502,
{
}

} // verus!
