//! Hop-by-hop header sanitization.
//!
//! A header field is a name/value pair of raw bytes. Sanitizing a header list
//! removes every field whose name matches one of the fixed hop-by-hop names,
//! compared ASCII-case-insensitively, and keeps all other fields in their
//! original relative order.

use vstd::prelude::*;
use crate::{lower_byte, lower_bytes, lower_byte_ex};

verus! {

/// One HTTP header field: a name and a value, as raw bytes.
pub struct HeaderField {
    pub name: Vec<u8>,
    pub value: Vec<u8>,
}

impl View for HeaderField {
    type V = (Seq<u8>, Seq<u8>);

    open spec fn view(&self) -> (Seq<u8>, Seq<u8>) {
        (self.name@, self.value@)
    }
}

impl DeepView for HeaderField {
    type V = (Seq<u8>, Seq<u8>);

    open spec fn deep_view(&self) -> (Seq<u8>, Seq<u8>) {
        self.view()
    }
}

/// The fixed set of hop-by-hop header names, lower-case:
/// connection, keep-alive, proxy-authenticate, proxy-authorization,
/// te, trailers, transfer-encoding, upgrade.
pub open spec fn hop_by_hop_names() -> Seq<Seq<u8>> {
    seq![
        seq![99u8, 111u8, 110u8, 110u8, 101u8, 99u8, 116u8, 105u8, 111u8, 110u8],
        seq![107u8, 101u8, 101u8, 112u8, 45u8, 97u8, 108u8, 105u8, 118u8, 101u8],
        seq![112u8, 114u8, 111u8, 120u8, 121u8, 45u8, 97u8, 117u8, 116u8, 104u8, 101u8, 110u8,
            116u8, 105u8, 99u8, 97u8, 116u8, 101u8],
        seq![112u8, 114u8, 111u8, 120u8, 121u8, 45u8, 97u8, 117u8, 116u8, 104u8, 111u8, 114u8,
            105u8, 122u8, 97u8, 116u8, 105u8, 111u8, 110u8],
        seq![116u8, 101u8],
        seq![116u8, 114u8, 97u8, 105u8, 108u8, 101u8, 114u8, 115u8],
        seq![116u8, 114u8, 97u8, 110u8, 115u8, 102u8, 101u8, 114u8, 45u8, 101u8, 110u8, 99u8,
            111u8, 100u8, 105u8, 110u8, 103u8],
        seq![117u8, 112u8, 103u8, 114u8, 97u8, 100u8, 101u8],
    ]
}

/// Whether a header name, compared ASCII-case-insensitively, is hop-by-hop.
pub open spec fn is_hop_by_hop_name(name: Seq<u8>) -> bool {
    hop_by_hop_names().contains(lower_bytes(name))
}

/// What sanitization leaves of a header list: exactly the fields whose names
/// are not hop-by-hop, in their original relative order.
pub open spec fn sanitize_spec(hs: Seq<(Seq<u8>, Seq<u8>)>) -> Seq<(Seq<u8>, Seq<u8>)> {
    hs.filter(|h: (Seq<u8>, Seq<u8>)| !is_hop_by_hop_name(h.0))
}

/// The executable table of hop-by-hop names.
fn hop_by_hop_list() -> (r: Vec<Vec<u8>>)
    ensures
        r.deep_view() == hop_by_hop_names(),
{
    let r: Vec<Vec<u8>> = vec![
        vec![99u8, 111u8, 110u8, 110u8, 101u8, 99u8, 116u8, 105u8, 111u8, 110u8],
        vec![107u8, 101u8, 101u8, 112u8, 45u8, 97u8, 108u8, 105u8, 118u8, 101u8],
        vec![112u8, 114u8, 111u8, 120u8, 121u8, 45u8, 97u8, 117u8, 116u8, 104u8, 101u8, 110u8,
            116u8, 105u8, 99u8, 97u8, 116u8, 101u8],
        vec![112u8, 114u8, 111u8, 120u8, 121u8, 45u8, 97u8, 117u8, 116u8, 104u8, 111u8, 114u8,
            105u8, 122u8, 97u8, 116u8, 105u8, 111u8, 110u8],
        vec![116u8, 101u8],
        vec![116u8, 114u8, 97u8, 105u8, 108u8, 101u8, 114u8, 115u8],
        vec![116u8, 114u8, 97u8, 110u8, 115u8, 102u8, 101u8, 114u8, 45u8, 101u8, 110u8, 99u8,
            111u8, 100u8, 105u8, 110u8, 103u8],
        vec![117u8, 112u8, 103u8, 114u8, 97u8, 100u8, 101u8],
    ];
    proof {
        assert(r.deep_view() =~~= hop_by_hop_names());
    }
    r
}

/// Byte-sequence equality.
pub(crate) fn bytes_eq(a: &[u8], b: &[u8]) -> (r: bool)
    ensures
        r == (a@ == b@),
{
    if a.len() != b.len() {
        return false;
    }
    let mut i: usize = 0;
    while i < a.len()
        invariant
            0 <= i <= a.len(),
            a@.len() == b@.len(),
            forall|j: int| 0 <= j < i ==> a@[j] == b@[j],
        decreases a.len() - i,
    {
        if a[i] != b[i] {
            return false;
        }
        i = i + 1;
    }
    proof {
        assert(a@ =~= b@);
    }
    true
}

/// ASCII lower-casing of a byte string.
pub fn to_lower(name: &[u8]) -> (r: Vec<u8>)
    ensures
        r@ == lower_bytes(name@),
{
    let mut r: Vec<u8> = Vec::new();
    let mut i: usize = 0;
    proof {
        assert(r@ =~= lower_bytes(name@.subrange(0, 0)));
    }
    while i < name.len()
        invariant
            0 <= i <= name.len(),
            r@ == lower_bytes(name@.subrange(0, i as int)),
        decreases name.len() - i,
    {
        r.push(lower_byte_ex(name[i]));
        proof {
            assert(r@ =~= lower_bytes(name@.subrange(0, i as int + 1)));
        }
        i = i + 1;
    }
    proof {
        assert(name@.subrange(0, name@.len() as int) =~= name@);
    }
    r
}

/// Whether this header name, compared ASCII-case-insensitively, belongs to
/// the fixed hop-by-hop set.
pub fn is_hop_by_hop(name: &[u8]) -> (r: bool)
    ensures
        r == is_hop_by_hop_name(name@),
{
    let lowered = to_lower(name);
    let table = hop_by_hop_list();
    let mut i: usize = 0;
    while i < table.len()
        invariant
            0 <= i <= table.len(),
            lowered@ == lower_bytes(name@),
            table.deep_view() == hop_by_hop_names(),
            table@.len() == hop_by_hop_names().len(),
            forall|j: int| 0 <= j < i ==> hop_by_hop_names()[j] != lowered@,
        decreases table.len() - i,
    {
        proof {
            assert(table@[i as int].deep_view() =~= table@[i as int]@);
            assert(hop_by_hop_names()[i as int] == table@[i as int].deep_view());
        }
        if bytes_eq(lowered.as_slice(), table[i].as_slice()) {
            assert(hop_by_hop_names().contains(lower_bytes(name@)));
            return true;
        }
        i = i + 1;
    }
    assert(!hop_by_hop_names().contains(lower_bytes(name@)));
    false
}

/// Removes every hop-by-hop header field, keeping all other fields untouched
/// and in their original relative order.
pub fn sanitize_headers(headers: Vec<HeaderField>) -> (r: Vec<HeaderField>)
    ensures
        r.deep_view() == sanitize_spec(headers.deep_view()),
{
    broadcast use vstd::prelude::Seq::lemma_filter_push;

    let ghost orig = headers.deep_view();
    let mut rest = headers;
    let mut out: Vec<HeaderField> = Vec::new();
    proof {
        reveal(Seq::filter);
        assert(out.deep_view() =~= sanitize_spec(orig.take(0)));
        assert(rest.deep_view() =~= orig.skip(0));
    }
    while rest.len() > 0
        invariant
            rest@.len() <= orig.len(),
            rest.deep_view() == orig.skip(orig.len() - rest@.len()),
            out.deep_view() == sanitize_spec(orig.take(orig.len() - rest@.len())),
        decreases rest.len(),
    {
        let ghost k = orig.len() - rest@.len();
        let ghost rest_before = rest.deep_view();
        let h = rest.remove(0);
        proof {
            assert(rest.deep_view() =~= rest_before.skip(1));
            assert(rest.deep_view() =~= orig.skip(k as int + 1));
            assert(h.deep_view() == rest_before[0]);
            assert(h.deep_view() == orig[k as int]);
            assert(orig.take(k as int + 1) =~= orig.take(k as int).push(orig[k as int]));
        }
        let keep = !is_hop_by_hop(h.name.as_slice());
        let ghost out_before = out.deep_view();
        if keep {
            out.push(h);
            proof {
                assert(out.deep_view() =~= out_before.push(orig[k as int]));
            }
        }
        proof {
            let p = |h0: (Seq<u8>, Seq<u8>)| !is_hop_by_hop_name(h0.0);
            assert(sanitize_spec(orig.take(k as int + 1)) == orig.take(k as int + 1).filter(p));
            orig.take(k as int).lemma_filter_push(orig[k as int], p);
            assert(p(orig[k as int]) == keep);
            assert(out_before == orig.take(k as int).filter(p));
            assert(out.deep_view() == sanitize_spec(orig.take(k as int + 1)));
        }
    }
    proof {
        assert(orig.take(orig.len() as int) =~= orig);
        assert(rest@.len() == 0);
    }
    out
}

/// A header list in which no name is hop-by-hop is left exactly as it is by
/// sanitization.
pub proof fn lemma_sanitize_of_clean(hs: Seq<(Seq<u8>, Seq<u8>)>)
    requires
        forall|i: int| 0 <= i < hs.len() ==> !is_hop_by_hop_name(#[trigger] hs[i].0),
    ensures
        sanitize_spec(hs) == hs,
    decreases hs.len(),
{
    reveal(Seq::filter);
    if hs.len() > 0 {
        assert(forall|i: int|
            0 <= i < hs.drop_last().len() ==> !is_hop_by_hop_name(
                #[trigger] hs.drop_last()[i].0,
            ));
        lemma_sanitize_of_clean(hs.drop_last());
        assert(!is_hop_by_hop_name(hs.last().0));
        assert(sanitize_spec(hs) =~= hs.drop_last().push(hs.last()));
        assert(hs.drop_last().push(hs.last()) =~= hs);
    } else {
        assert(sanitize_spec(hs) =~= hs);
    }
}

/// Sanitization is idempotent: sanitizing an already-sanitized header list
/// yields an identical list.
pub proof fn lemma_sanitize_idempotent(hs: Seq<(Seq<u8>, Seq<u8>)>)
    ensures
        sanitize_spec(sanitize_spec(hs)) == sanitize_spec(hs),
{
    let p = |h0: (Seq<u8>, Seq<u8>)| !is_hop_by_hop_name(h0.0);
    let s1 = sanitize_spec(hs);
    assert forall|i: int| 0 <= i < s1.len() implies !is_hop_by_hop_name(#[trigger] s1[i].0) by {
        hs.lemma_filter_pred(p, i);
    }
    lemma_sanitize_of_clean(s1);
}

/// Sanitization never removes a header whose name is not hop-by-hop: every
/// such field of the input is still present in the output.
pub proof fn lemma_sanitize_keeps_other_headers(hs: Seq<(Seq<u8>, Seq<u8>)>, i: int)
    requires
        0 <= i < hs.len(),
        !is_hop_by_hop_name(hs[i].0),
    ensures
        sanitize_spec(hs).contains(hs[i]),
{
    let p = |h0: (Seq<u8>, Seq<u8>)| !is_hop_by_hop_name(h0.0);
    hs.lemma_filter_contains(p, i);
}

} // verus!
