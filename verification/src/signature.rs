//! Canonical form of an ECDSA signature over secp256k1.

use vstd::prelude::*;
use crate::uint256::{
    be_bytes, be_greater, be_value, lemma_be_bytes_value, lemma_be_value_bound,
    lemma_be_value_bytes, lemma_suffix_step, pow256,
};

verus! {

/// The order of the secp256k1 group, big-endian.
pub const ORDER: [u8; 32] = [
    0xff, 0xff, 0xff, 0xff, 0xff, 0xff, 0xff, 0xff, 0xff, 0xff, 0xff, 0xff, 0xff, 0xff, 0xff, 0xfe,
    0xba, 0xae, 0xdc, 0xe6, 0xaf, 0x48, 0xa0, 0x3b, 0xbf, 0xd2, 0x5e, 0x8c, 0xd0, 0x36, 0x41, 0x41,
];

/// Half of the group order, rounded down, big-endian.
pub const HALF_ORDER: [u8; 32] = [
    0x7f, 0xff, 0xff, 0xff, 0xff, 0xff, 0xff, 0xff, 0xff, 0xff, 0xff, 0xff, 0xff, 0xff, 0xff, 0xff,
    0x5d, 0x57, 0x6e, 0x73, 0x57, 0xa4, 0x50, 0x1d, 0xdf, 0xe9, 0x2f, 0x46, 0x68, 0x1b, 0x20, 0xa0,
];

/// The order of the secp256k1 group.
pub open spec fn order() -> nat {
    0xffffffff_ffffffff_ffffffff_fffffffe_baaedce6_af48a03b_bfd25e8c_d0364141nat
}

/// Half of the group order, rounded down.
pub open spec fn half_order() -> nat {
    order() / 2
}

/// The two constants denote the group order and its half; the order is odd
/// and fits 32 bytes.
pub proof fn lemma_order_bytes()
    ensures
        be_value(ORDER@) == order(),
        be_value(HALF_ORDER@) == half_order(),
        order() == 2 * half_order() + 1,
        order() < pow256(32),
{
    reveal_with_fuel(be_value, 33);
    reveal_with_fuel(pow256, 33);
    assert(be_value(ORDER@) == order());
    assert(be_value(HALF_ORDER@) == half_order());
}

/// A signature as the bridge contracts take it. Fresh from the ledger `v` is
/// the recovery parity, 0 or 1; in canonical form `s` lies in the lower half
/// of the group order and `v` is 27 or 28.
#[derive(Clone, Copy, Debug, PartialEq, Eq, Hash)]
pub struct Signature {
    pub r: [u8; 32],
    pub s: [u8; 32],
    pub v: u8,
}

/// Whether `s` lies above half of the group order.
pub open spec fn is_high(s: Seq<u8>) -> bool {
    be_value(s) > half_order()
}

/// The group order minus `s`, taken modulo `2^256` where `s` exceeds the order.
pub open spec fn reflected(s: nat) -> nat {
    if s <= order() {
        (order() - s) as nat
    } else {
        (order() + pow256(32) - s) as nat
    }
}

/// The `s` of the canonical form: `s` itself in the lower half, its
/// reflection otherwise.
pub open spec fn canonical_s(s: Seq<u8>) -> Seq<u8> {
    if is_high(s) {
        be_bytes(reflected(be_value(s)), 32)
    } else {
        s
    }
}

/// The recovery parity of the canonical form: flipped where `s` is reflected.
pub open spec fn canonical_parity(s: Seq<u8>, parity: u8) -> u8 {
    if is_high(s) {
        (1 - parity) as u8
    } else {
        parity
    }
}

/// Whether a signature is in the form that an Ethereum verifier accepts.
pub open spec fn is_canonical(sig: Signature) -> bool {
    &&& be_value(sig.s@) <= half_order()
    &&& (sig.v == 27 || sig.v == 28)
}

/// The group order minus `s`, by schoolbook subtraction from the last byte up.
fn reflect(s: &[u8; 32]) -> (out: [u8; 32])
    ensures
        be_value(out@) == reflected(be_value(s@)),
{
    let mut out: [u8; 32] = [0u8; 32];
    let mut borrow: u8 = 0;
    let mut i: usize = 32;
    proof {
        assert(out@.skip(32) =~= Seq::<u8>::empty());
        assert(s@.skip(32) =~= Seq::<u8>::empty());
        assert(ORDER@.skip(32) =~= Seq::<u8>::empty());
    }
    while i > 0
        invariant
            0 <= i <= 32,
            borrow <= 1,
            be_value(out@.skip(i as int)) + be_value(s@.skip(i as int)) == be_value(
                ORDER@.skip(i as int),
            ) + borrow * pow256((32 - i) as nat),
        decreases i,
    {
        let k: usize = i - 1;
        let ghost before = out@;
        let ghost carried = borrow;
        let top: u16 = ORDER[k] as u16 + 256;
        let low: u16 = s[k] as u16 + borrow as u16;
        let diff: u16 = top - low;
        if diff >= 256 {
            out[k] = (diff - 256) as u8;
            borrow = 0;
        } else {
            out[k] = diff as u8;
            borrow = 1;
        }
        proof {
            let p = pow256((32 - i) as nat);
            assert(pow256((32 - k) as nat) == 256 * p);
            assert(out@.skip(i as int) =~= before.skip(i as int));
            lemma_suffix_step(out@, k as int);
            lemma_suffix_step(s@, k as int);
            lemma_suffix_step(ORDER@, k as int);
            let a = out@[k as int] as int;
            let b = s@[k as int] as int;
            let c = ORDER@[k as int] as int;
            assert(a + b + carried == c + 256 * borrow);
            assert((a + b) * p + carried * p == c * p + borrow * (256 * p)) by (nonlinear_arith)
                requires
                    a + b + carried == c + 256 * borrow,
            ;
            assert((a + b) * p == a * p + b * p) by (nonlinear_arith);
        }
        i = k;
    }
    proof {
        assert(out@.skip(0) =~= out@);
        assert(s@.skip(0) =~= s@);
        assert(ORDER@.skip(0) =~= ORDER@);
        lemma_order_bytes();
        lemma_be_value_bound(out@);
        lemma_be_value_bound(s@);
        let p = pow256(32);
        assert(borrow * p == if borrow == 0 { 0 } else { p }) by (nonlinear_arith)
            requires
                borrow <= 1,
        ;
    }
    out
}

/// Brings a signature into the form that an Ethereum verifier accepts: where
/// `s` lies above half of the group order it is replaced by the order minus
/// `s` and the recovery parity is flipped; `v` is the resulting parity plus
/// 27. `r` is kept.
pub fn canonicalize(r: [u8; 32], s: [u8; 32], parity: u8) -> (sig: Signature)
    requires
        parity <= 1,
    ensures
        sig.r == r,
        sig.s@ == canonical_s(s@),
        sig.v == 27 + canonical_parity(s@, parity),
        be_value(s@) <= order() ==> is_canonical(sig),
{
    proof {
        lemma_order_bytes();
        if be_value(s@) <= order() {
            law_low_s_is_kept(s@, parity);
            if is_high(s@) {
                law_high_s_is_reflected(s@, parity);
            }
        }
    }
    if be_greater(&s, &HALF_ORDER) {
        let t = reflect(&s);
        proof {
            lemma_be_value_bytes(t@);
        }
        Signature { r, s: t, v: 28 - parity }
    } else {
        Signature { r, s, v: 27 + parity }
    }
}

/// A signature whose `s` lies in the lower half of the group order is left
/// as it is, and so is its recovery parity.
pub proof fn law_low_s_is_kept(s: Seq<u8>, parity: u8)
    ensures
        be_value(s) <= half_order() ==> canonical_s(s) == s && canonical_parity(s, parity)
            == parity,
{
}

/// A signature whose `s` lies above half of the group order, and not above
/// the order, comes out with the order minus `s`, which lies in the lower
/// half, and with the other recovery parity.
pub proof fn law_high_s_is_reflected(s: Seq<u8>, parity: u8)
    requires
        parity <= 1,
        half_order() < be_value(s) <= order(),
    ensures
        be_value(canonical_s(s)) == order() - be_value(s),
        be_value(canonical_s(s)) <= half_order(),
        canonical_s(s).len() == 32,
        canonical_parity(s, parity) == 1 - parity,
{
    let v = reflected(be_value(s));
    lemma_be_bytes_value(v, 32);
    lemma_order_bytes();
    vstd::arithmetic::div_mod::lemma_small_mod(v, pow256(32));
}

/// Bringing a canonical form into canonical form changes nothing: for every
/// `s` up to the group order and every recovery parity, a second pass keeps
/// both what the first pass gave.
pub proof fn law_canonical_idempotent(s: Seq<u8>, parity: u8)
    requires
        parity <= 1,
        be_value(s) <= order(),
    ensures
        canonical_s(canonical_s(s)) == canonical_s(s),
        canonical_parity(canonical_s(s), canonical_parity(s, parity)) == canonical_parity(
            s,
            parity,
        ),
{
    if is_high(s) {
        law_high_s_is_reflected(s, parity);
    }
}

} // verus!
