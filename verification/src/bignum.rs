//! Little-endian byte-string arithmetic for radix conversion between
//! base-256 byte strings and base-58 digit strings, as the account
//! codec needs it. Numbers are sequences of digits, least significant
//! first; a canonical number has no zero in its most significant place.

use vstd::prelude::*;

use vstd::arithmetic::div_mod::lemma_fundamental_div_mod;
use vstd::arithmetic::div_mod::lemma_fundamental_div_mod_converse;

verus! {

/// Value of a little-endian base-256 byte string.
pub open spec fn le256(s: Seq<u8>) -> nat
    decreases s.len(),
{
    if s.len() == 0 {
        0
    } else {
        s[0] as nat + 256 * le256(s.drop_first())
    }
}

/// Value of a big-endian base-256 byte string (most significant byte
/// first, as the codec's payloads are laid out).
pub open spec fn be256(s: Seq<u8>) -> nat
    decreases s.len(),
{
    if s.len() == 0 {
        0
    } else {
        256 * be256(s.drop_last()) + s.last() as nat
    }
}

/// Value of a little-endian base-58 digit string.
pub open spec fn le58(s: Seq<u8>) -> nat
    decreases s.len(),
{
    if s.len() == 0 {
        0
    } else {
        s[0] as nat + 58 * le58(s.drop_first())
    }
}

/// Value of a big-endian base-58 digit string (most significant digit
/// first, as the digits stand in an encoded string).
pub open spec fn be58(s: Seq<u8>) -> nat
    decreases s.len(),
{
    if s.len() == 0 {
        0
    } else {
        58 * be58(s.drop_last()) + s.last() as nat
    }
}

/// No zero in the most significant place: the digit string is the
/// unique representation of its value.
pub open spec fn canonical(s: Seq<u8>) -> bool {
    s.len() == 0 || s.last() != 0
}

/// Every element is a base-58 digit.
pub open spec fn digits58(s: Seq<u8>) -> bool {
    forall|i: int| 0 <= i < s.len() ==> s[i] < 58
}

/// The sequence read back to front.
pub open spec fn rev(s: Seq<u8>) -> Seq<u8> {
    Seq::new(s.len(), |i: int| s[s.len() - 1 - i])
}

/// The canonical little-endian base-58 digit string of a number.
pub open spec fn digits58_of(n: nat) -> Seq<u8>
    decreases n,
{
    if n == 0 {
        Seq::empty()
    } else {
        seq![(n % 58) as u8] + digits58_of(n / 58)
    }
}

/// The canonical little-endian base-256 byte string of a number.
pub open spec fn bytes256_of(n: nat) -> Seq<u8>
    decreases n,
{
    if n == 0 {
        Seq::empty()
    } else {
        seq![(n % 256) as u8] + bytes256_of(n / 256)
    }
}

/// 256 to the power `k`.
pub open spec fn pow256(k: nat) -> nat
    decreases k,
{
    if k == 0 {
        1
    } else {
        256 * pow256((k - 1) as nat)
    }
}

/// Reversing a byte string turns its big-endian value into its
/// little-endian value.
pub proof fn lemma_rev_le256(s: Seq<u8>)
    ensures
        le256(rev(s)) == be256(s),
    decreases s.len(),
{
    if s.len() > 0 {
        assert(rev(s).drop_first() =~= rev(s.drop_last()));
        lemma_rev_le256(s.drop_last());
        assert(rev(s)[0] == s.last());
    }
}

/// Reversing a digit string turns its big-endian value into its
/// little-endian value.
pub proof fn lemma_rev_le58(s: Seq<u8>)
    ensures
        le58(rev(s)) == be58(s),
    decreases s.len(),
{
    if s.len() > 0 {
        assert(rev(s).drop_first() =~= rev(s.drop_last()));
        lemma_rev_le58(s.drop_last());
        assert(rev(s)[0] == s.last());
    }
}

/// Reversal undoes itself.
pub proof fn lemma_rev_rev(s: Seq<u8>)
    ensures
        rev(rev(s)) == s,
{
    assert(rev(rev(s)) =~= s);
}

/// A canonical, non-empty number is positive.
pub proof fn lemma_le256_pos(s: Seq<u8>)
    requires
        canonical(s),
        s.len() > 0,
    ensures
        le256(s) > 0,
    decreases s.len(),
{
    if s.len() == 1 {
        assert(s[0] == s.last());
    } else {
        assert(s.drop_first().last() == s.last());
        lemma_le256_pos(s.drop_first());
        assert(le256(s) >= 256 * le256(s.drop_first()));
        assert(256 * le256(s.drop_first()) >= 256 * 1) by (nonlinear_arith)
            requires le256(s.drop_first()) >= 1;
    }
}

/// A canonical, non-empty digit string is positive.
pub proof fn lemma_le58_pos(s: Seq<u8>)
    requires
        canonical(s),
        s.len() > 0,
    ensures
        le58(s) > 0,
    decreases s.len(),
{
    if s.len() == 1 {
        assert(s[0] == s.last());
    } else {
        assert(s.drop_first().last() == s.last());
        lemma_le58_pos(s.drop_first());
        assert(58 * le58(s.drop_first()) >= 58 * 1) by (nonlinear_arith)
            requires le58(s.drop_first()) >= 1;
    }
}

/// The canonical digit string of a number: its digits, its value, its
/// shape.
pub proof fn lemma_digits58_of_props(n: nat)
    ensures
        canonical(digits58_of(n)),
        digits58(digits58_of(n)),
        le58(digits58_of(n)) == n,
        digits58_of(n).len() == 0 <==> n == 0,
    decreases n,
{
    if n > 0 {
        lemma_digits58_of_props(n / 58);
        lemma_fundamental_div_mod(n as int, 58);
        let s = seq![(n % 58) as u8] + digits58_of(n / 58);
        assert(s.drop_first() =~= digits58_of(n / 58));
        assert(s[0] == (n % 58) as u8);
        if digits58_of(n / 58).len() == 0 {
            assert(n / 58 == 0);
            assert(s.last() == (n % 58) as u8);
            assert(n % 58 != 0) by {
                if n % 58 == 0 {
                    assert(n == 58 * (n / 58) + n % 58);
                }
            }
        } else {
            assert(s.last() == digits58_of(n / 58).last());
        }
    }
}

/// The canonical byte string of a number: its value and its shape.
pub proof fn lemma_bytes256_of_props(n: nat)
    ensures
        canonical(bytes256_of(n)),
        le256(bytes256_of(n)) == n,
        bytes256_of(n).len() == 0 <==> n == 0,
    decreases n,
{
    if n > 0 {
        lemma_bytes256_of_props(n / 256);
        lemma_fundamental_div_mod(n as int, 256);
        let s = seq![(n % 256) as u8] + bytes256_of(n / 256);
        assert(s.drop_first() =~= bytes256_of(n / 256));
        assert(s[0] == (n % 256) as u8);
        if bytes256_of(n / 256).len() == 0 {
            assert(n / 256 == 0);
            assert(s.last() == (n % 256) as u8);
            assert(n % 256 != 0) by {
                if n % 256 == 0 {
                    assert(n == 256 * (n / 256) + n % 256);
                }
            }
        } else {
            assert(s.last() == bytes256_of(n / 256).last());
        }
    }
}

/// A canonical digit string is the canonical digit string of its value:
/// representation is unique.
pub proof fn lemma_le58_digits_inverse(s: Seq<u8>)
    requires
        digits58(s),
        canonical(s),
    ensures
        digits58_of(le58(s)) == s,
    decreases s.len(),
{
    if s.len() > 0 {
        let rest = s.drop_first();
        let v = le58(s);
        if s.len() == 1 {
            assert(s[0] == s.last());
            assert(rest.len() == 0);
            assert(le58(rest) == 0);
            assert(v == s[0] as nat);
        } else {
            assert(rest.last() == s.last());
            lemma_le58_pos(rest);
        }
        lemma_fundamental_div_mod_converse(v as int, 58, le58(rest) as int, s[0] as int);
        assert(v > 0);
        lemma_le58_digits_inverse(rest);
        assert(digits58_of(v) == seq![(v % 58) as u8] + digits58_of(v / 58));
        assert(seq![s[0]] + rest =~= s);
    }
}

/// A canonical byte string is the canonical byte string of its value:
/// representation is unique.
pub proof fn lemma_le256_bytes_inverse(s: Seq<u8>)
    requires
        canonical(s),
    ensures
        bytes256_of(le256(s)) == s,
    decreases s.len(),
{
    if s.len() > 0 {
        let rest = s.drop_first();
        let v = le256(s);
        if s.len() == 1 {
            assert(s[0] == s.last());
            assert(rest.len() == 0);
            assert(le256(rest) == 0);
            assert(v == s[0] as nat);
        } else {
            assert(rest.last() == s.last());
            lemma_le256_pos(rest);
        }
        lemma_fundamental_div_mod_converse(v as int, 256, le256(rest) as int, s[0] as int);
        assert(v > 0);
        lemma_le256_bytes_inverse(rest);
        assert(bytes256_of(v) == seq![(v % 256) as u8] + bytes256_of(v / 256));
        assert(seq![s[0]] + rest =~= s);
    }
}

/// Appending a most significant byte adds its weighted value.
pub proof fn lemma_le256_push(s: Seq<u8>, x: u8)
    ensures
        le256(s.push(x)) == le256(s) + x * pow256(s.len()),
    decreases s.len(),
{
    if s.len() == 0 {
        assert(s.push(x).drop_first() =~= Seq::<u8>::empty());
        assert(le256(Seq::<u8>::empty()) == 0);
        assert(le256(s.push(x)) == x as nat);
        assert(le256(s) == 0);
        assert(pow256(s.len()) == 1);
        assert(x * pow256(s.len()) == x) by (nonlinear_arith)
            requires pow256(s.len()) == 1;
    } else {
        assert(s.push(x).drop_first() =~= s.drop_first().push(x));
        lemma_le256_push(s.drop_first(), x);
        let p = pow256((s.len() - 1) as nat);
        assert(pow256(s.len()) == 256 * p);
        assert(le256(s.drop_first().push(x)) == le256(s.drop_first()) + x * p);
        assert(le256(s.push(x)) == s[0] + 256 * le256(s.drop_first().push(x)));
        assert(256 * (le256(s.drop_first()) + x * p) == 256 * le256(s.drop_first()) + x * (256
            * p)) by (nonlinear_arith);
        assert(le256(s.push(x)) == s[0] + 256 * le256(s.drop_first()) + x * (256 * p));
        assert(le256(s) == s[0] + 256 * le256(s.drop_first()));
        assert(x * pow256(s.len()) == x * (256 * p)) by (nonlinear_arith)
            requires pow256(s.len()) == 256 * p;
        assert(le256(s.push(x)) == le256(s) + x * pow256(s.len()));
    }
}

/// Dropping a zero in the most significant place keeps the value.
pub proof fn lemma_le256_drop_last_zero(s: Seq<u8>)
    requires
        s.len() > 0,
        s.last() == 0,
    ensures
        le256(s.drop_last()) == le256(s),
    decreases s.len(),
{
    if s.len() == 1 {
        assert(s.drop_last() =~= Seq::<u8>::empty());
        assert(le256(Seq::<u8>::empty()) == 0);
        assert(le256(s.drop_first()) == 0);
        assert(s[0] == s.last());
    } else {
        let df = s.drop_first();
        assert(df.last() == s.last());
        lemma_le256_drop_last_zero(df);
        assert(s.drop_last().drop_first() =~= df.drop_last());
        assert(s.drop_last()[0] == s[0]);
    }
}

/// The sequence read back to front, computed.
pub fn reverse_bytes(v: &Vec<u8>) -> (r: Vec<u8>)
    ensures
        r@ == rev(v@),
{
    let mut out: Vec<u8> = Vec::new();
    let mut k: usize = 0;
    while k < v.len()
        invariant
            0 <= k <= v@.len(),
            out@.len() == k,
            forall|j: int| 0 <= j < k ==> out@[j] == v@[v@.len() - 1 - j],
        decreases v@.len() - k,
    {
        out.push(v[v.len() - 1 - k]);
        k = k + 1;
    }
    proof {
        assert(out@ =~= rev(v@));
    }
    out
}

/// Divide a canonical little-endian number by 58: quotient and
/// remainder, by long division from the most significant byte down.
pub fn divmod58(v: &Vec<u8>) -> (r: (Vec<u8>, u8))
    requires
        canonical(v@),
    ensures
        le256(v@) == 58 * le256(r.0@) + r.1,
        r.1 < 58,
        canonical(r.0@),
        le256(v@) > 0 ==> le256(r.0@) < le256(v@),
{
    let n = v.len();
    let mut qrev: Vec<u8> = Vec::new();
    let mut rem: u8 = 0;
    let mut i: usize = n;
    while i > 0
        invariant
            0 <= i <= n,
            n == v@.len(),
            rem < 58,
            qrev@.len() == n - i,
            le256(v@.subrange(i as int, n as int)) == 58 * be256(qrev@) + rem,
        decreases i,
    {
        i = i - 1;
        let t: u16 = (rem as u16) * 256 + (v[i] as u16);
        proof {
            lemma_fundamental_div_mod(t as int, 58);
            assert(58 * (t as int / 58) <= t < 58 * 256);
        }
        let qd: u8 = (t / 58) as u8;
        let rem2: u8 = (t % 58) as u8;
        proof {
            let sub_hi = v@.subrange(i + 1, n as int);
            let sub_lo = v@.subrange(i as int, n as int);
            assert(sub_lo.drop_first() =~= sub_hi);
            assert(sub_lo[0] == v@[i as int]);
            let b = qrev@;
            assert(b.push(qd).drop_last() =~= b);
            assert(be256(b.push(qd)) == 256 * be256(b) + qd);
        }
        qrev.push(qd);
        rem = rem2;
    }
    proof {
        assert(v@.subrange(0, n as int) =~= v@);
    }
    let qle = reverse_bytes(&qrev);
    proof {
        lemma_rev_le256(qrev@);
    }
    let mut q = qle;
    while q.len() > 0 && q[q.len() - 1] == 0
        invariant
            le256(q@) == le256(qle@),
        decreases q@.len(),
    {
        proof {
            lemma_le256_drop_last_zero(q@);
        }
        q.pop();
    }
    proof {
        let qv = le256(q@);
        let vv = le256(v@);
        assert(vv == 58 * qv + rem);
        if vv > 0 {
            if qv > 0 {
                assert(58 * qv > qv) by (nonlinear_arith)
                    requires qv > 0;
            }
        }
    }
    (q, rem)
}

/// Multiply a canonical little-endian number by 58 and add one digit.
pub fn mul58add(v: Vec<u8>, d: u8) -> (r: Vec<u8>)
    requires
        d < 58,
        canonical(v@),
    ensures
        le256(r@) == 58 * le256(v@) + d,
        canonical(r@),
{
    let n = v.len();
    let mut out: Vec<u8> = Vec::new();
    let mut carry: u8 = d;
    let mut i: usize = 0;
    proof {
        assert(le256(Seq::<u8>::empty()) == 0);
        assert(v@.subrange(0, 0).len() == 0);
        assert(le256(v@.subrange(0, 0)) == 0);
        assert(pow256(0nat) == 1);
    }
    while i < n
        invariant
            0 <= i <= n,
            n == v@.len(),
            canonical(v@),
            carry < 58,
            out@.len() == i,
            le256(out@) + (carry as nat) * pow256(i as nat) == 58 * le256(
                v@.subrange(0, i as int),
            ) + d,
            (i > 0 && carry == 0 && v@[i - 1] != 0) ==> out@.last() != 0,
        decreases n - i,
    {
        let t: u16 = (v[i] as u16) * 58 + (carry as u16);
        proof {
            lemma_fundamental_div_mod(t as int, 256);
            assert(256 * (t as int / 256) <= t < 256 * 58);
        }
        let lo: u8 = (t % 256) as u8;
        let hi: u8 = (t / 256) as u8;
        proof {
            let sub = v@.subrange(0, i as int);
            let sub2 = v@.subrange(0, i + 1);
            assert(sub2 =~= sub.push(v@[i as int]));
            lemma_le256_push(sub, v@[i as int]);
            lemma_le256_push(out@, lo);
            let p = pow256(i as nat);
            assert(le256(out@.push(lo)) + (hi as nat) * pow256((i + 1) as nat) == le256(out@)
                + (lo as nat + 256 * (hi as nat)) * p) by (nonlinear_arith)
                requires
                    le256(out@.push(lo)) == le256(out@) + (lo as nat) * p,
                    pow256((i + 1) as nat) == 256 * p,
            ;
            assert(lo as nat + 256 * (hi as nat) == t as nat);
            assert(58 * le256(sub2) + d == 58 * le256(sub) + d + 58 * (v@[i as int] as nat) * p)
                by (nonlinear_arith)
                requires le256(sub2) == le256(sub) + (v@[i as int] as nat) * p,
            ;
            assert((t as nat) * p == ((carry as nat) + 58 * (v@[i as int] as nat)) * p);
            assert(((carry as nat) + 58 * (v@[i as int] as nat)) * p == (carry as nat) * p + 58
                * (v@[i as int] as nat) * p) by (nonlinear_arith);
            if hi == 0 && v@[i as int] != 0 {
                assert(t >= 58);
                assert(t < 256);
                assert(lo != 0);
            }
        }
        out.push(lo);
        carry = hi;
        i = i + 1;
    }
    proof {
        assert(v@.subrange(0, n as int) =~= v@);
    }
    if carry > 0 {
        proof {
            lemma_le256_push(out@, carry);
        }
        out.push(carry);
        proof {
            assert(out@.last() == carry);
        }
        out
    } else {
        proof {
            if n > 0 {
                assert(v@[n - 1] == v@.last());
            }
        }
        out
    }
}

} // verus!
