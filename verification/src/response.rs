//! The responses the proxy writes itself.
//!
//! The proxy answers in its own voice only to refuse a request (400), to
//! report an unreachable upstream (502), and to grant a CONNECT tunnel (200).
//! Everything an origin server answers passes back through the transport
//! verbatim and never takes this shape.

use vstd::prelude::*;

verus! {

/// An HTTP response produced by the proxy itself: a status code and a
/// message body.
pub struct HttpResponse {
    pub status: u16,
    pub body: String,
}

impl View for HttpResponse {
    type V = (u16, Seq<char>);

    open spec fn view(&self) -> (u16, Seq<char>) {
        (self.status, self.body@)
    }
}

/// Body of the rejection of a forward request whose URI is not absolute.
pub open spec fn relative_uri_message() -> Seq<char> {
    "URI debe ser absoluta (incluya esquema y host)"@
}

/// Body of the rejection of a CONNECT request without a usable authority.
pub open spec fn missing_authority_message() -> Seq<char> {
    "CONNECT requiere autoridad host:puerto"@
}

/// Body sent when an upstream target cannot be reached.
pub open spec fn unreachable_target_message() -> Seq<char> {
    "No se pudo conectar con el destino"@
}

/// The 400 response for a forward request whose URI is not absolute.
pub fn bad_request_not_absolute() -> (r: HttpResponse)
    ensures
        r.status == 400,
        r.body@ == relative_uri_message(),
{
    HttpResponse {
        status: 400,
        body: "URI debe ser absoluta (incluya esquema y host)".to_owned(),
    }
}

/// The 400 response for a CONNECT request without a usable `host:port`
/// authority.
pub fn bad_request_no_authority() -> (r: HttpResponse)
    ensures
        r.status == 400,
        r.body@ == missing_authority_message(),
{
    HttpResponse { status: 400, body: "CONNECT requiere autoridad host:puerto".to_owned() }
}

/// The 502 response for an upstream that cannot be reached, whether the
/// CONNECT dial or the forwarded request failed.
pub fn bad_gateway_unreachable() -> (r: HttpResponse)
    ensures
        r.status == 502,
        r.body@ == unreachable_target_message(),
{
    HttpResponse { status: 502, body: "No se pudo conectar con el destino".to_owned() }
}

/// The 200 response that grants a CONNECT tunnel; its body is empty. It is
/// written to the client before any tunnel byte moves.
pub fn connect_granted() -> (r: HttpResponse)
    ensures
        r.status == 200,
        r.body@ == Seq::<char>::empty(),
{
    let r = HttpResponse { status: 200, body: "".to_owned() };
    proof {
        reveal_strlit("");
        assert(r.body@ =~= Seq::<char>::empty());
    }
    r
}

} // verus!
