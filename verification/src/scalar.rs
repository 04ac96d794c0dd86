//! Big-endian interpretation of byte strings and validity of secret scalars:
//! a 32-byte string is a valid secret scalar when, read as a big-endian
//! natural number, it is non-zero and below the order of the secp256k1 group.

use vstd::prelude::*;

verus! {

/// Value of a byte string read as a big-endian natural number: the first
/// byte is the most significant, the last the least significant.
pub open spec fn be_nat(s: Seq<u8>) -> nat
    decreases s.len(),
{
    if s.len() == 0 {
        0
    } else {
        (be_nat(s.drop_last()) * 256 + s.last()) as nat
    }
}

/// The order of the secp256k1 group, as its 32 big-endian bytes.
pub open spec fn curve_order_bytes() -> Seq<u8> {
    seq![
        0xffu8, 0xff, 0xff, 0xff, 0xff, 0xff, 0xff, 0xff,
        0xff, 0xff, 0xff, 0xff, 0xff, 0xff, 0xff, 0xfe,
        0xba, 0xae, 0xdc, 0xe6, 0xaf, 0x48, 0xa0, 0x3b,
        0xbf, 0xd2, 0x5e, 0x8c, 0xd0, 0x36, 0x41, 0x41,
    ]
}

/// The order of the secp256k1 group.
pub open spec fn curve_order() -> nat {
    be_nat(curve_order_bytes())
}

/// The byte form of the group order and its usual numeral agree.
#[verifier::rlimit(100)]
pub proof fn lemma_curve_order_value()
    ensures
        curve_order() == 0xfffffffffffffffffffffffffffffffebaaedce6af48a03bbfd25e8cd0364141,
{
    reveal_with_fuel(be_nat, 33);
    assert(be_nat(curve_order_bytes())
        == 0xfffffffffffffffffffffffffffffffebaaedce6af48a03bbfd25e8cd0364141);
}

/// A byte string is a valid secret scalar when it has 32 bytes and its
/// big-endian value is non-zero and below the group order.
pub open spec fn is_valid_scalar(s: Seq<u8>) -> bool {
    &&& s.len() == 32
    &&& 0 < be_nat(s)
    &&& be_nat(s) < curve_order()
}

/// A byte string's big-endian value is zero exactly when every byte is zero.
pub proof fn lemma_be_nat_zero(s: Seq<u8>)
    ensures
        (be_nat(s) == 0) <==> (forall|i: int| 0 <= i < s.len() ==> s[i] == 0),
    decreases s.len(),
{
    if s.len() > 0 {
        lemma_be_nat_zero(s.drop_last());
        assert(forall|i: int| 0 <= i < s.len() - 1 ==> s.drop_last()[i] == s[i]);
        if be_nat(s) == 0 {
            assert(be_nat(s.drop_last()) == 0 && s.last() == 0);
            assert(forall|i: int| 0 <= i < s.len() ==> s[i] == 0) by {
                assert(forall|i: int| 0 <= i < s.len() - 1 ==> s[i] == s.drop_last()[i]);
            }
        }
        if forall|i: int| 0 <= i < s.len() ==> s[i] == 0 {
            assert(forall|i: int| 0 <= i < s.drop_last().len() ==> s.drop_last()[i] == 0);
            assert(s.last() == 0);
        }
    }
}

/// Of two byte strings of one length, the one that is smaller at the first
/// differing position has the smaller big-endian value.
pub proof fn lemma_be_nat_lt(s: Seq<u8>, t: Seq<u8>, k: int)
    requires
        s.len() == t.len(),
        0 <= k < s.len(),
        forall|i: int| 0 <= i < k ==> s[i] == t[i],
        s[k] < t[k],
    ensures
        be_nat(s) < be_nat(t),
    decreases s.len(),
{
    let n = s.len() as int;
    if k == n - 1 {
        assert(s.drop_last() =~= t.drop_last());
        assert(be_nat(s) == be_nat(s.drop_last()) * 256 + s.last());
        assert(be_nat(t) == be_nat(s.drop_last()) * 256 + t.last());
    } else {
        assert(forall|i: int| 0 <= i < k ==> s.drop_last()[i] == t.drop_last()[i]);
        assert(s.drop_last()[k] == s[k] && t.drop_last()[k] == t[k]);
        lemma_be_nat_lt(s.drop_last(), t.drop_last(), k);
        let a = be_nat(s.drop_last());
        let b = be_nat(t.drop_last());
        assert(a + 1 <= b);
        assert(a * 256 + s.last() < (a + 1) * 256);
        assert((a + 1) * 256 <= b * 256) by (nonlinear_arith)
            requires a + 1 <= b;
        assert(b * 256 <= b * 256 + t.last());
    }
}

/// The 32 big-endian bytes of the group order, as a vector.
fn curve_order_byte_vec() -> (v: Vec<u8>)
    ensures
        v@ =~= curve_order_bytes(),
{
    let v: Vec<u8> = vec![
        0xffu8, 0xff, 0xff, 0xff, 0xff, 0xff, 0xff, 0xff,
        0xff, 0xff, 0xff, 0xff, 0xff, 0xff, 0xff, 0xfe,
        0xba, 0xae, 0xdc, 0xe6, 0xaf, 0x48, 0xa0, 0x3b,
        0xbf, 0xd2, 0x5e, 0x8c, 0xd0, 0x36, 0x41, 0x41,
    ];
    proof {
        assert(v@ =~= curve_order_bytes());
    }
    v
}

/// Whether every byte of the vector is zero.
fn is_all_zero(bytes: &Vec<u8>) -> (b: bool)
    ensures
        b == (forall|i: int| 0 <= i < bytes@.len() ==> bytes@[i] == 0),
{
    let n = bytes.len();
    let mut i: usize = 0;
    while i < n
        invariant
            i <= n,
            n == bytes@.len(),
            forall|j: int| 0 <= j < i ==> bytes@[j] == 0,
        decreases n - i,
    {
        if bytes[i] != 0 {
            return false;
        }
        i += 1;
    }
    true
}

/// Whether the bytes form a valid secret scalar: 32 bytes whose big-endian
/// value is non-zero and below the secp256k1 group order.
pub fn is_valid_secret_scalar(bytes: &Vec<u8>) -> (b: bool)
    ensures
        b == is_valid_scalar(bytes@),
{
    if bytes.len() != 32 {
        return false;
    }
    let order = curve_order_byte_vec();
    let mut i: usize = 0;
    while i < 32
        invariant
            i <= 32,
            bytes@.len() == 32,
            order@ =~= curve_order_bytes(),
            forall|j: int| 0 <= j < i ==> bytes@[j] == curve_order_bytes()[j],
        decreases 32 - i,
    {
        let b = bytes[i];
        let o = order[i];
        if b < o {
            proof {
                lemma_be_nat_lt(bytes@, curve_order_bytes(), i as int);
                lemma_be_nat_zero(bytes@);
            }
            return !is_all_zero(bytes);
        }
        if b > o {
            proof {
                lemma_be_nat_lt(curve_order_bytes(), bytes@, i as int);
            }
            return false;
        }
        i += 1;
    }
    proof {
        assert(bytes@ =~= curve_order_bytes());
    }
    false
}

} // verus!
