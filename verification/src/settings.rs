//! The proxy's settings: the address it listens on.
//!
//! The bind address is fixed at process start and immutable for the
//! server's lifetime. Rendering it as `host:port` also serves the Connect
//! Handler, which dials the parsed authority in exactly that shape.

use vstd::prelude::*;
use crate::authority::{
    all_digits, authority_host, authority_port, authority_split_at, digits_value, is_ascii_digit,
    lemma_split_unique, split_index, valid_authority,
};

verus! {

/// The decimal digits of n, most significant first, without leading zeros
/// (zero itself reads as one digit).
pub open spec fn decimal_digits(n: nat) -> Seq<u8>
    decreases n,
{
    if n < 10 {
        seq![(48 + n) as u8]
    } else {
        decimal_digits(n / 10).push((48 + n % 10) as u8)
    }
}

/// Every byte of a decimal rendering is a digit.
pub proof fn lemma_decimal_digits_are_digits(n: nat)
    ensures
        all_digits(decimal_digits(n)),
        decimal_digits(n).len() >= 1,
    decreases n,
{
    let d = decimal_digits(n);
    if n < 10 {
        assert(d[0] == (48 + n) as u8);
        assert(forall|i: int| 0 <= i < d.len() ==> is_ascii_digit(#[trigger] d[i]));
    } else {
        lemma_decimal_digits_are_digits(n / 10);
        assert(d == decimal_digits(n / 10).push((48 + n % 10) as u8));
        assert(forall|i: int| 0 <= i < d.len() ==> is_ascii_digit(#[trigger] d[i]));
    }
}

/// The decimal rendering of n reads back as n.
pub proof fn lemma_decimal_digits_value(n: nat)
    ensures
        digits_value(decimal_digits(n)) == n,
    decreases n,
{
    if n < 10 {
        assert(decimal_digits(n).drop_last() =~= Seq::<u8>::empty());
        assert(digits_value(Seq::<u8>::empty()) == 0);
        assert(decimal_digits(n).last() == (48 + n) as u8);
    } else {
        lemma_decimal_digits_value(n / 10);
        assert(decimal_digits(n).drop_last() =~= decimal_digits(n / 10));
        assert(decimal_digits(n).last() == (48 + n % 10) as u8);
        assert(n / 10 * 10 + n % 10 == n) by (nonlinear_arith);
    }
}

/// A number below 65536 renders as at most five digits.
pub proof fn lemma_decimal_digits_len_port(n: nat)
    requires
        n <= 65535,
    ensures
        decimal_digits(n).len() <= 5,
{
    let n1 = n / 10;
    let n2 = n1 / 10;
    let n3 = n2 / 10;
    let n4 = n3 / 10;
    assert(n1 <= 6553 && n2 <= 655 && n3 <= 65 && n4 <= 6);
    assert(decimal_digits(n4).len() == 1);
    assert(decimal_digits(n3).len() <= 2);
    assert(decimal_digits(n2).len() <= 3);
    assert(decimal_digits(n1).len() <= 4);
    assert(decimal_digits(n).len() <= 5);
}

/// Appends the decimal digits of n.
pub fn push_decimal(out: &mut Vec<u8>, n: u16)
    ensures
        final(out)@ == old(out)@ + decimal_digits(n as nat),
    decreases n,
{
    if n >= 10 {
        push_decimal(out, n / 10);
    }
    out.push(48 + (n % 10) as u8);
    proof {
        assert(out@ =~= old(out)@ + decimal_digits(n as nat));
    }
}

/// The bind address the server listens on: a host and a port.
#[derive(Clone, Debug)]
pub struct ProxyAddress {
    pub host: Vec<u8>,
    pub port: u16,
}

impl View for ProxyAddress {
    type V = (Seq<u8>, u16);

    open spec fn view(&self) -> (Seq<u8>, u16) {
        (self.host@, self.port)
    }
}

/// The `host:port` form of an address.
pub open spec fn rendered_address(host: Seq<u8>, port: u16) -> Seq<u8> {
    host + seq![58u8] + decimal_digits(port as nat)
}

impl ProxyAddress {
    /// Renders the address as `host:port` bytes.
    pub fn render(&self) -> (r: Vec<u8>)
        ensures
            r@ == rendered_address(self.host@, self.port),
    {
        let mut out = vstd::slice::slice_to_vec(self.host.as_slice());
        out.push(58);
        push_decimal(&mut out, self.port);
        proof {
            assert(out@ =~= rendered_address(self.host@, self.port));
        }
        out
    }
}

/// The proxy's immutable settings: the address it listens on.
#[derive(Clone, Debug)]
pub struct ProxySettings {
    pub listen: ProxyAddress,
}

impl ProxySettings {
    /// Settings that listen on the given address.
    pub fn new(listen: ProxyAddress) -> (s: Self)
        ensures
            s.listen == listen,
    {
        ProxySettings { listen }
    }

    /// The configured listen address.
    pub fn listen(&self) -> (r: &ProxyAddress)
        ensures
            *r == self.listen,
    {
        &self.listen
    }
}

/// A rendered `host:port` address whose host is non-empty and free of
/// colons is itself a well-formed authority, and parses back to exactly the
/// host and port it was rendered from.
pub proof fn lemma_rendered_address_parses_back(host: Seq<u8>, port: u16)
    requires
        host.len() >= 1,
        forall|i: int| 0 <= i < host.len() ==> host[i] != 58,
    ensures
        valid_authority(rendered_address(host, port)),
        authority_host(rendered_address(host, port)) == host,
        authority_port(rendered_address(host, port)) == port,
{
    let s = rendered_address(host, port);
    let c = host.len() as int;
    let digits = decimal_digits(port as nat);
    lemma_decimal_digits_are_digits(port as nat);
    lemma_decimal_digits_value(port as nat);
    lemma_decimal_digits_len_port(port as nat);
    assert(s.len() == host.len() + 1 + digits.len());
    assert(s[c] == 58);
    assert(s.subrange(c + 1, s.len() as int) =~= digits);
    assert forall|j: int| c < j < s.len() implies s[j] != 58 by {
        assert(s[j] == digits[j - c - 1]);
        assert(is_ascii_digit(digits[j - c - 1]));
    }
    assert(authority_split_at(s, c));
    assert(valid_authority(s));
    let w = split_index(s);
    assert(authority_split_at(s, w));
    lemma_split_unique(s, w, c);
    assert(s.subrange(0, c) =~= host);
}

} // verus!
