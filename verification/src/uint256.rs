//! Unsigned integers held as big-endian bytes.

use vstd::prelude::*;

verus! {

/// `256^k`.
pub open spec fn pow256(k: nat) -> nat
    decreases k,
{
    if k == 0 {
        1
    } else {
        256 * pow256((k - 1) as nat)
    }
}

/// The number that a big-endian byte string denotes.
pub open spec fn be_value(bytes: Seq<u8>) -> nat
    decreases bytes.len(),
{
    if bytes.len() == 0 {
        0
    } else {
        256 * be_value(bytes.drop_last()) + bytes.last() as nat
    }
}

/// The big-endian byte string of length `len` that denotes `v` modulo `256^len`.
pub open spec fn be_bytes(v: nat, len: nat) -> Seq<u8>
    decreases len,
{
    if len == 0 {
        Seq::empty()
    } else {
        be_bytes(v / 256, (len - 1) as nat).push((v % 256) as u8)
    }
}

/// `256^32` is `2^256`.
pub proof fn lemma_pow256_32()
    ensures
        pow256(32)
            == 0x1_00000000_00000000_00000000_00000000_00000000_00000000_00000000_00000000nat,
{
    reveal_with_fuel(pow256, 33);
}

/// A byte string of length `n` denotes a number below `256^n`.
pub proof fn lemma_be_value_bound(bytes: Seq<u8>)
    ensures
        be_value(bytes) < pow256(bytes.len()),
    decreases bytes.len(),
{
    if bytes.len() > 0 {
        lemma_be_value_bound(bytes.drop_last());
    }
}

/// Appending a byte string shifts the value of what stood before it.
pub proof fn lemma_be_value_concat(a: Seq<u8>, b: Seq<u8>)
    ensures
        be_value(a + b) == be_value(a) * pow256(b.len()) + be_value(b),
    decreases b.len(),
{
    if b.len() == 0 {
        assert(a + b =~= a);
        assert(pow256(0) == 1);
        assert(be_value(b) == 0);
    } else {
        lemma_be_value_concat(a, b.drop_last());
        assert((a + b).drop_last() =~= a + b.drop_last());
        assert((a + b).last() == b.last());
        let x = be_value(a);
        let p = pow256((b.len() - 1) as nat);
        assert(pow256(b.len()) == 256 * p);
        assert(be_value(a + b.drop_last()) == x * p + be_value(b.drop_last()));
        assert(256 * (x * p) == x * (256 * p)) by (nonlinear_arith);
        assert(be_value(b) == 256 * be_value(b.drop_last()) + b.last() as nat);
        assert(be_value(a + b) == 256 * be_value((a + b).drop_last()) + (a + b).last() as nat);
    }
}

/// Writing a number out and reading it back gives the number modulo `256^len`.
pub proof fn lemma_be_bytes_value(v: nat, len: nat)
    ensures
        be_bytes(v, len).len() == len,
        be_value(be_bytes(v, len)) == v % pow256(len),
    decreases len,
{
    if len > 0 {
        let rest = be_bytes(v / 256, (len - 1) as nat);
        lemma_be_bytes_value(v / 256, (len - 1) as nat);
        assert(be_bytes(v, len).drop_last() =~= rest);
        let p = pow256((len - 1) as nat);
        lemma_pow256_positive((len - 1) as nat);
        vstd::arithmetic::div_mod::lemma_mod_breakdown(v as int, 256, p as int);
    }
}

/// Reading a byte string and writing the number out gives the byte string.
pub proof fn lemma_be_value_bytes(bytes: Seq<u8>)
    ensures
        be_bytes(be_value(bytes), bytes.len()) == bytes,
    decreases bytes.len(),
{
    if bytes.len() > 0 {
        lemma_be_value_bytes(bytes.drop_last());
        let v = be_value(bytes);
        assert(v / 256 == be_value(bytes.drop_last()));
        assert(v % 256 == bytes.last() as nat);
        assert(be_bytes(v, bytes.len()) =~= bytes);
    } else {
        assert(be_bytes(be_value(bytes), bytes.len()) =~= bytes);
    }
}

/// Every power of 256 is positive.
pub proof fn lemma_pow256_positive(k: nat)
    ensures
        pow256(k) > 0,
    decreases k,
{
    if k > 0 {
        lemma_pow256_positive((k - 1) as nat);
    }
}

/// Once two prefixes of the same length differ in value, the byte strings
/// are ordered as those prefixes are.
pub proof fn lemma_prefix_decides(a: Seq<u8>, b: Seq<u8>, k: int)
    requires
        a.len() == b.len(),
        0 <= k <= a.len(),
        be_value(a.take(k)) < be_value(b.take(k)),
    ensures
        be_value(a) < be_value(b),
    decreases a.len() - k,
{
    if k == a.len() {
        assert(a.take(k) =~= a);
        assert(b.take(k) =~= b);
    } else {
        assert(a.take(k + 1).drop_last() =~= a.take(k));
        assert(b.take(k + 1).drop_last() =~= b.take(k));
        lemma_prefix_decides(a, b, k + 1);
    }
}

/// A prefix denotes no more than the whole byte string.
pub proof fn lemma_prefix_le(a: Seq<u8>, k: int)
    requires
        0 <= k <= a.len(),
    ensures
        be_value(a.take(k)) <= be_value(a),
    decreases a.len() - k,
{
    if k == a.len() {
        assert(a.take(k) =~= a);
    } else {
        assert(a.take(k + 1).drop_last() =~= a.take(k));
        lemma_prefix_le(a, k + 1);
    }
}

/// A byte string of zeros denotes zero.
pub proof fn lemma_zeros_value(a: Seq<u8>)
    requires
        forall|k: int| 0 <= k < a.len() ==> a[k] == 0,
    ensures
        be_value(a) == 0,
    decreases a.len(),
{
    if a.len() > 0 {
        lemma_zeros_value(a.drop_last());
    }
}

/// The value of a suffix in terms of the suffix one byte shorter.
pub proof fn lemma_suffix_step(x: Seq<u8>, k: int)
    requires
        0 <= k < x.len(),
    ensures
        be_value(x.skip(k)) == x[k] * pow256((x.len() - k - 1) as nat) + be_value(x.skip(k + 1)),
{
    let head = seq![x[k]];
    assert(x.skip(k) =~= head + x.skip(k + 1));
    lemma_be_value_concat(head, x.skip(k + 1));
    assert(head.drop_last() =~= Seq::<u8>::empty());
    assert(be_value(Seq::<u8>::empty()) == 0);
    assert(be_value(head) == x[k]);
}

/// Whether `a` denotes a greater number than `b`.
pub fn be_greater(a: &[u8; 32], b: &[u8; 32]) -> (r: bool)
    ensures
        r == (be_value(a@) > be_value(b@)),
{
    let mut i: usize = 0;
    while i < 32
        invariant
            0 <= i <= 32,
            a@.take(i as int) == b@.take(i as int),
        decreases 32 - i,
    {
        if a[i] != b[i] {
            proof {
                let k = i as int;
                assert(a@.take(k + 1).drop_last() =~= a@.take(k));
                assert(b@.take(k + 1).drop_last() =~= b@.take(k));
                if a[k] < b[k] {
                    lemma_prefix_decides(a@, b@, k + 1);
                } else {
                    lemma_prefix_decides(b@, a@, k + 1);
                }
            }
            return a[i] > b[i];
        }
        proof {
            assert(a@.take(i + 1) =~= a@.take(i as int).push(a@[i as int]));
            assert(b@.take(i + 1) =~= b@.take(i as int).push(b@[i as int]));
        }
        i += 1;
    }
    proof {
        assert(a@.take(32) =~= a@);
        assert(b@.take(32) =~= b@);
    }
    false
}

/// An unsigned 256-bit integer, held as its 32 big-endian bytes.
#[derive(Clone, Copy, Debug, PartialEq, Eq, Hash)]
pub struct U256 {
    pub bytes: [u8; 32],
}

impl View for U256 {
    type V = nat;

    /// The number itself.
    open spec fn view(&self) -> nat {
        be_value(self.bytes@)
    }
}

impl U256 {
    /// The 256-bit integer equal to `x`.
    pub fn from_u64(x: u64) -> (r: U256)
        ensures
            r@ == x,
    {
        let mut bytes: [u8; 32] = [0u8; 32];
        let mut rest: u64 = x;
        let mut i: usize = 32;
        proof {
            assert(bytes@.skip(32) =~= Seq::<u8>::empty());
            lemma_zeros_value(bytes@.take(32));
            assert(pow256(8) == 0x1_0000_0000_0000_0000) by {
                reveal_with_fuel(pow256, 9);
            }
            assert(pow256(0) == 1);
        }
        while i > 24
            invariant
                24 <= i <= 32,
                be_value(bytes@.take(i as int)) == 0,
                rest * pow256((32 - i) as nat) + be_value(bytes@.skip(i as int)) == x,
                rest < pow256((i - 24) as nat),
                forall|k: int| 0 <= k < i ==> bytes@[k] == 0,
            decreases i,
        {
            let k: usize = i - 1;
            let ghost before = bytes@;
            bytes[k] = (rest % 256) as u8;
            proof {
                let p = pow256((32 - i) as nat);
                assert(pow256((32 - k) as nat) == 256 * p);
                assert(pow256((i - 24) as nat) == 256 * pow256((k - 24) as nat));
                assert(bytes@.skip(i as int) =~= before.skip(i as int));
                assert(bytes@.skip(k as int) =~= seq![bytes@[k as int]] + bytes@.skip(i as int));
                lemma_be_value_concat(seq![bytes@[k as int]], bytes@.skip(i as int));
                assert(seq![bytes@[k as int]].drop_last() =~= Seq::<u8>::empty());
                assert(be_value(Seq::<u8>::empty()) == 0);
                let d = (rest % 256) as int;
                let q = (rest / 256) as int;
                assert(rest == 256 * q + d);
                assert(rest * p == q * (256 * p) + d * p) by (nonlinear_arith)
                    requires
                        rest == 256 * q + d,
                ;
                lemma_zeros_value(bytes@.take(k as int));
            }
            rest = rest / 256;
            i = k;
        }
        proof {
            assert(pow256(0) == 1);
            assert(rest == 0);
            assert(bytes@ =~= bytes@.take(24) + bytes@.skip(24));
            lemma_be_value_concat(bytes@.take(24), bytes@.skip(24));
            assert(be_value(bytes@.take(24)) * pow256(8) == 0) by (nonlinear_arith)
                requires
                    be_value(bytes@.take(24)) == 0,
            ;
        }
        U256 { bytes }
    }

    /// The next integer, where there is one below `2^256`.
    pub fn checked_successor(&self) -> (r: Option<U256>)
        ensures
            match r {
                Some(n) => n@ == self@ + 1,
                None => self@ + 1 == pow256(32),
            },
    {
        let mut bytes: [u8; 32] = self.bytes;
        let mut i: usize = 32;
        proof {
            assert(bytes@.skip(32) =~= Seq::<u8>::empty());
            assert(self.bytes@.skip(32) =~= Seq::<u8>::empty());
            assert(pow256(0) == 1);
        }
        while i > 0
            invariant
                0 <= i <= 32,
                bytes@.take(i as int) == self.bytes@.take(i as int),
                be_value(bytes@.skip(i as int)) == 0,
                be_value(self.bytes@.skip(i as int)) + 1 == pow256((32 - i) as nat),
            decreases i,
        {
            let k: usize = i - 1;
            let ghost before = bytes@;
            proof {
                let p = pow256((32 - i) as nat);
                assert(pow256((32 - k) as nat) == 256 * p);
                lemma_suffix_step(self.bytes@, k as int);
                assert(before.take(i as int)[k as int] == self.bytes@.take(i as int)[k as int]);
            }
            if bytes[k] < 255 {
                bytes[k] = bytes[k] + 1;
                proof {
                    let p = pow256((32 - i) as nat);
                    assert(bytes@.skip(i as int) =~= before.skip(i as int));
                    lemma_suffix_step(bytes@, k as int);
                    assert(bytes@.take(k as int) =~= self.bytes@.take(i as int).take(k as int));
                    assert(self.bytes@.take(k as int) =~= self.bytes@.take(i as int).take(
                        k as int,
                    ));
                    assert(bytes@ =~= bytes@.take(k as int) + bytes@.skip(k as int));
                    assert(self.bytes@ =~= self.bytes@.take(k as int) + self.bytes@.skip(k as int));
                    lemma_be_value_concat(bytes@.take(k as int), bytes@.skip(k as int));
                    lemma_be_value_concat(self.bytes@.take(k as int), self.bytes@.skip(k as int));
                    let a = self.bytes@[k as int] as int;
                    assert((a + 1) * p == a * p + p) by (nonlinear_arith);
                }
                return Some(U256 { bytes });
            }
            bytes[k] = 0;
            proof {
                let p = pow256((32 - i) as nat);
                assert(bytes@.skip(i as int) =~= before.skip(i as int));
                lemma_suffix_step(bytes@, k as int);
                assert(bytes@.take(k as int) =~= before.take(i as int).take(k as int));
                assert(self.bytes@.take(k as int) =~= self.bytes@.take(i as int).take(k as int));
                assert(0 * p == 0) by (nonlinear_arith);
                assert(255 * p + p == 256 * p) by (nonlinear_arith);
            }
            i = k;
        }
        proof {
            assert(self.bytes@.skip(0) =~= self.bytes@);
        }
        None
    }
}

} // verus!
