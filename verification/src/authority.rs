//! CONNECT authority parsing.
//!
//! A CONNECT request names its target as `host:port`. The host is everything
//! before the last colon and must be non-empty; the port is everything after
//! it and must be one to five decimal digits with a value of at most 65535.

use vstd::prelude::*;

verus! {

/// A host and port pair parsed from a CONNECT request target.
pub struct Authority {
    pub host: Vec<u8>,
    pub port: u16,
}

impl View for Authority {
    type V = (Seq<u8>, u16);

    open spec fn view(&self) -> (Seq<u8>, u16) {
        (self.host@, self.port)
    }
}

/// An ASCII decimal digit.
pub open spec fn is_ascii_digit(b: u8) -> bool {
    48 <= b && b <= 57
}

/// Every byte of the sequence is an ASCII decimal digit.
pub open spec fn all_digits(s: Seq<u8>) -> bool {
    forall|i: int| 0 <= i < s.len() ==> is_ascii_digit(#[trigger] s[i])
}

/// The number written by a sequence of decimal digits, most significant
/// first; an empty sequence reads as zero.
pub open spec fn digits_value(s: Seq<u8>) -> int
    decreases s.len(),
{
    if s.len() == 0 {
        0
    } else {
        digits_value(s.drop_last()) * 10 + s.last() - 48
    }
}

/// Ten to the power n.
pub open spec fn pow10(n: nat) -> int
    decreases n,
{
    if n == 0 {
        1
    } else {
        10 * pow10((n - 1) as nat)
    }
}

/// A well-formed port: one to five decimal digits, value at most 65535.
pub open spec fn valid_port_text(s: Seq<u8>) -> bool {
    1 <= s.len() <= 5 && all_digits(s) && digits_value(s) <= 65535
}

/// Index i splits the target into a non-empty host and a well-formed port:
/// it carries the last colon of the target.
pub open spec fn authority_split_at(s: Seq<u8>, i: int) -> bool {
    &&& 1 <= i < s.len()
    &&& s[i] == 58
    &&& forall|j: int| i < j < s.len() ==> s[j] != 58
    &&& valid_port_text(s.subrange(i + 1, s.len() as int))
}

/// A well-formed `host:port` authority.
pub open spec fn valid_authority(s: Seq<u8>) -> bool {
    exists|i: int| authority_split_at(s, i)
}

/// The position of the colon that splits a valid authority.
pub open spec fn split_index(s: Seq<u8>) -> int {
    choose|i: int| authority_split_at(s, i)
}

/// The host part of a valid authority.
pub open spec fn authority_host(s: Seq<u8>) -> Seq<u8> {
    s.subrange(0, split_index(s))
}

/// The port value of a valid authority.
pub open spec fn authority_port(s: Seq<u8>) -> int {
    digits_value(s.subrange(split_index(s) + 1, s.len() as int))
}

/// At most one index splits a target into host and port.
pub proof fn lemma_split_unique(s: Seq<u8>, i: int, j: int)
    requires
        authority_split_at(s, i),
        authority_split_at(s, j),
    ensures
        i == j,
{
    if i < j {
        assert(s[j] == 58);
        assert(false);
    }
    if j < i {
        assert(s[i] == 58);
        assert(false);
    }
}

/// The small powers of ten, written out.
proof fn lemma_pow10_small()
    ensures
        pow10(0) == 1,
        pow10(1) == 10,
        pow10(2) == 100,
        pow10(3) == 1000,
        pow10(4) == 10000,
        pow10(5) == 100000,
{
    assert(pow10(1) == 10 * pow10(0));
    assert(pow10(2) == 10 * pow10(1));
    assert(pow10(3) == 10 * pow10(2));
    assert(pow10(4) == 10 * pow10(3));
    assert(pow10(5) == 10 * pow10(4));
}

/// Parses a CONNECT target of the shape `host:port`. Returns the authority
/// exactly when the target is well formed: a non-empty host before the last
/// colon, and one to five decimal digits reading at most 65535 after it.
pub fn parse_authority(target: &[u8]) -> (r: Option<Authority>)
    ensures
        r is Some <==> valid_authority(target@),
        r matches Some(a) ==> a.host@ == authority_host(target@) && a.port
            == authority_port(target@),
{
    let n = target.len();
    // Find the last colon.
    let mut i: usize = n;
    let mut colon: usize = 0;
    let mut found: bool = false;
    while i > 0 && !found
        invariant
            i <= n,
            n == target@.len(),
            !found ==> forall|j: int| i <= j < n ==> target@[j] != 58,
            found ==> colon < n && target@[colon as int] == 58 && (forall|j: int|
                colon < j < n ==> target@[j] != 58),
        decreases i,
    {
        i = i - 1;
        if target[i] == 58 {
            found = true;
            colon = i;
        }
    }
    if !found {
        proof {
            if valid_authority(target@) {
                let w = choose|w: int| authority_split_at(target@, w);
                assert(target@[w] == 58);
            }
        }
        return None;
    }
    // Any split index must be the last colon.
    proof {
        assert forall|w: int| authority_split_at(target@, w) implies w == colon as int by {
            if w < colon as int {
                assert(target@[colon as int] == 58);
            }
            if w > colon as int {
                assert(target@[w] == 58);
            }
        }
    }
    if colon == 0 {
        return None;
    }
    let plen = n - colon - 1;
    if plen == 0 || plen > 5 {
        proof {
            if valid_authority(target@) {
                let w = choose|w: int| authority_split_at(target@, w);
                assert(target@.subrange(w + 1, n as int).len() == n - 1 - w);
            }
        }
        return None;
    }
    // Read the port digits.
    let ghost port_text = target@.subrange(colon as int + 1, n as int);
    let mut j: usize = colon + 1;
    let mut val: u32 = 0;
    proof {
        lemma_pow10_small();
        assert(port_text.subrange(0, 0) =~= Seq::<u8>::empty());
    }
    while j < n
        invariant
            colon + 1 <= j <= n,
            n == target@.len(),
            n - colon - 1 <= 5,
            port_text == target@.subrange(colon as int + 1, n as int),
            port_text.len() == n - colon - 1,
            forall|w: int| authority_split_at(target@, w) ==> w == colon as int,
            all_digits(port_text.subrange(0, j - colon - 1)),
            val == digits_value(port_text.subrange(0, j - colon - 1)),
            0 <= val < pow10((j - colon - 1) as nat),
            pow10(0) == 1 && pow10(1) == 10 && pow10(2) == 100 && pow10(3) == 1000 && pow10(4)
                == 10000 && pow10(5) == 100000,
        decreases n - j,
    {
        let b = target[j];
        if b < 48 || b > 57 {
            proof {
                assert(port_text[j as int - colon as int - 1] == target@[j as int]);
                if valid_authority(target@) {
                    let w = choose|w: int| authority_split_at(target@, w);
                    assert(w == colon as int);
                    assert(all_digits(port_text));
                    assert(is_ascii_digit(port_text[j as int - colon as int - 1]));
                    assert(false);
                }
            }
            return None;
        }
        proof {
            let k = j - colon as int - 1;
            assert(port_text.subrange(0, k + 1).drop_last() =~= port_text.subrange(0, k));
            assert(port_text.subrange(0, k + 1).last() == target@[j as int]);
            assert(forall|x: int|
                0 <= x < k + 1 ==> is_ascii_digit(#[trigger] port_text.subrange(0, k + 1)[x]));
            assert(pow10((k + 1) as nat) == 10 * pow10(k as nat));
            assert(pow10(k as nat) <= 10000);
        }
        val = val * 10 + ((b - 48) as u32);
        j = j + 1;
    }
    proof {
        assert(port_text.subrange(0, port_text.len() as int) =~= port_text);
    }
    if val > 65535 {
        proof {
            if valid_authority(target@) {
                let w = choose|w: int| authority_split_at(target@, w);
                assert(w == colon as int);
            }
        }
        return None;
    }
    let host = vstd::slice::slice_to_vec(vstd::slice::slice_subrange(target, 0, colon));
    proof {
        assert(authority_split_at(target@, colon as int));
        assert(valid_authority(target@));
        let w = choose|w: int| authority_split_at(target@, w);
        lemma_split_unique(target@, w, colon as int);
        assert(split_index(target@) == colon as int);
    }
    Some(Authority { host, port: val as u16 })
}

} // verus!
