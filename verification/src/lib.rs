//! Core logic of a forward HTTP proxy: request dispatch, hop-by-hop header
//! sanitization, absolute-URI validation, CONNECT authority parsing, and the
//! state machine of the bidirectional tunnel splice loop.
//!
//! Everything here works on plain values (bytes, strings, integers); the
//! network transport around it hands values in and carries the decisions out.

use vstd::prelude::*;

pub mod authority;
pub mod dispatch;
pub mod headers;
pub mod response;
pub mod settings;
pub mod tunnel;

verus! {

/// Lower-cases one ASCII byte; every other byte is left as it is.
pub open spec fn lower_byte(b: u8) -> u8 {
    if 65 <= b && b <= 90 {
        (b + 32) as u8
    } else {
        b
    }
}

/// Lower-cases a byte sequence, ASCII-wise.
pub open spec fn lower_bytes(s: Seq<u8>) -> Seq<u8> {
    s.map_values(|b: u8| lower_byte(b))
}

/// Executable ASCII lower-casing of one byte.
pub fn lower_byte_ex(b: u8) -> (r: u8)
    ensures
        r == lower_byte(b),
{
    if 65 <= b && b <= 90 {
        b + 32
    } else {
        b
    }
}

} // verus!
