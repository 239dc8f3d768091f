use vstd::prelude::*;

use crate::encoding::{amount_be, amount_to_be_bytes};

verus! {

/// The number that big-endian bytes denote.
pub open spec fn be_value(s: Seq<u8>) -> nat
    decreases s.len(),
{
    if s.len() == 0 {
        0
    } else {
        be_value(s.drop_last()) * 256 + s.last() as nat
    }
}

/// The number that the first `n` bytes of `s` denote.
pub open spec fn prefix_value(s: Seq<u8>, n: int) -> nat {
    be_value(s.take(n))
}

/// One more byte at the low end multiplies by 256 and adds the byte.
proof fn lemma_prefix_step(s: Seq<u8>, n: int)
    requires
        0 < n <= s.len(),
    ensures
        prefix_value(s, n) == prefix_value(s, n - 1) * 256 + s[n - 1],
{
    assert(s.take(n).drop_last() =~= s.take(n - 1));
}

/// A leading zero byte does not change the number.
proof fn lemma_leading_zero(s: Seq<u8>)
    ensures
        be_value(seq![0u8] + s) == be_value(s),
    decreases s.len(),
{
    let t = seq![0u8] + s;
    if s.len() > 0 {
        assert(t.drop_last() =~= seq![0u8] + s.drop_last());
        assert(t.last() == s.last());
        lemma_leading_zero(s.drop_last());
        assert(be_value(t) == be_value(t.drop_last()) * 256 + t.last() as nat);
        assert(be_value(s) == be_value(s.drop_last()) * 256 + s.last() as nat);
    } else {
        assert(t.drop_last() =~= Seq::<u8>::empty());
        assert(t.last() == 0);
        assert(be_value(t) == be_value(t.drop_last()) * 256 + t.last() as nat);
    }
}

/// Bytes that start with a nonzero byte denote a positive number.
proof fn lemma_nonzero_lead_positive(s: Seq<u8>)
    requires
        s.len() > 0,
        s[0] != 0,
    ensures
        be_value(s) > 0,
    decreases s.len(),
{
    if s.len() > 1 {
        lemma_nonzero_lead_positive(s.drop_last());
    }
}

/// Bytes without a leading zero are the shortest form of their number.
proof fn lemma_shortest_form(s: Seq<u8>)
    requires
        s.len() == 0 || s[0] != 0,
    ensures
        amount_be(be_value(s)) == s,
    decreases s.len(),
{
    if s.len() > 0 {
        lemma_nonzero_lead_positive(s);
        let v = be_value(s);
        let h = be_value(s.drop_last());
        let l = s.last() as nat;
        assert(v / 256 == h && v % 256 == l) by (nonlinear_arith)
            requires
                v == h * 256 + l,
                l < 256,
        ;
        lemma_shortest_form(s.drop_last());
        assert(amount_be(v) =~= s);
    }
}

/// The shortest form denotes its number.
pub proof fn lemma_amount_be_value(n: nat)
    ensures
        be_value(amount_be(n)) == n,
    decreases n,
{
    if n > 0 {
        lemma_amount_be_value(n / 256);
        assert(amount_be(n).drop_last() =~= amount_be(n / 256));
        assert((n / 256) * 256 + n % 256 == n) by (nonlinear_arith);
    }
}

/// The number of a prefix never exceeds the number of a longer prefix.
proof fn lemma_prefix_monotone(s: Seq<u8>, j: int, k: int)
    requires
        0 <= j <= k <= s.len(),
    ensures
        prefix_value(s, j) <= prefix_value(s, k),
    decreases k - j,
{
    if j < k {
        lemma_prefix_step(s, k);
        lemma_prefix_monotone(s, j, k - 1);
    }
}

/// A token amount of any size, held as big-endian bytes; leading zero bytes
/// are allowed and do not change the amount.
#[derive(Debug)]
pub struct Amount {
    pub bytes: Vec<u8>,
}

impl View for Amount {
    type V = nat;

    open spec fn view(&self) -> nat {
        be_value(self.bytes@)
    }
}

/// The sign of `V(a[..na]) - V(b[..nb])`: -1, 0 or 1.
fn compare_prefixes(a: &[u8], na: usize, b: &[u8], nb: usize) -> (r: i8)
    requires
        na <= a@.len(),
        nb <= b@.len(),
    ensures
        r == -1 ==> prefix_value(a@, na as int) < prefix_value(b@, nb as int),
        r == 0 ==> prefix_value(a@, na as int) == prefix_value(b@, nb as int),
        r == 1 ==> prefix_value(a@, na as int) > prefix_value(b@, nb as int),
        r == -1 || r == 0 || r == 1,
    decreases na + nb,
{
    if na == 0 && nb == 0 {
        return 0;
    }
    let (x, na2) = if na > 0 {
        (a[na - 1], na - 1)
    } else {
        (0u8, 0usize)
    };
    let (y, nb2) = if nb > 0 {
        (b[nb - 1], nb - 1)
    } else {
        (0u8, 0usize)
    };
    proof {
        if na > 0 {
            lemma_prefix_step(a@, na as int);
        }
        if nb > 0 {
            lemma_prefix_step(b@, nb as int);
        }
    }
    let high = compare_prefixes(a, na2, b, nb2);
    if high != 0 {
        high
    } else if x < y {
        -1
    } else if x > y {
        1
    } else {
        0
    }
}

/// The bytes of `V(a[..na]) + V(b[..nb]) + carry`.
fn add_prefixes(a: &[u8], na: usize, b: &[u8], nb: usize, carry: u8) -> (r: Vec<u8>)
    requires
        na <= a@.len(),
        nb <= b@.len(),
        carry <= 1,
    ensures
        be_value(r@) == prefix_value(a@, na as int) + prefix_value(b@, nb as int) + carry,
    decreases na + nb,
{
    if na == 0 && nb == 0 {
        assert(a@.take(0) =~= Seq::<u8>::empty());
        assert(b@.take(0) =~= Seq::<u8>::empty());
        let mut out: Vec<u8> = Vec::new();
        if carry > 0 {
            out.push(carry);
            assert(out@.drop_last() =~= Seq::<u8>::empty());
        }
        return out;
    }
    let (x, na2) = if na > 0 {
        (a[na - 1], na - 1)
    } else {
        (0u8, 0usize)
    };
    let (y, nb2) = if nb > 0 {
        (b[nb - 1], nb - 1)
    } else {
        (0u8, 0usize)
    };
    proof {
        if na > 0 {
            lemma_prefix_step(a@, na as int);
        }
        if nb > 0 {
            lemma_prefix_step(b@, nb as int);
        }
    }
    let sum: u16 = x as u16 + y as u16 + carry as u16;
    let (digit, next_carry) = if sum >= 256 {
        ((sum - 256) as u8, 1u8)
    } else {
        (sum as u8, 0u8)
    };
    let mut out = add_prefixes(a, na2, b, nb2, next_carry);
    let ghost high = out@;
    out.push(digit);
    assert(out@.drop_last() =~= high);
    out
}

/// The bytes of `V(a[..na]) - V(b[..nb]) - borrow`.
fn sub_prefixes(a: &[u8], na: usize, b: &[u8], nb: usize, borrow: u8) -> (r: Vec<u8>)
    requires
        na <= a@.len(),
        nb <= b@.len(),
        borrow <= 1,
        prefix_value(a@, na as int) >= prefix_value(b@, nb as int) + borrow,
    ensures
        be_value(r@) == prefix_value(a@, na as int) - prefix_value(b@, nb as int) - borrow,
    decreases na + nb,
{
    if na == 0 && nb == 0 {
        return Vec::new();
    }
    let (x, na2) = if na > 0 {
        (a[na - 1], na - 1)
    } else {
        (0u8, 0usize)
    };
    let (y, nb2) = if nb > 0 {
        (b[nb - 1], nb - 1)
    } else {
        (0u8, 0usize)
    };
    proof {
        if na > 0 {
            lemma_prefix_step(a@, na as int);
        }
        if nb > 0 {
            lemma_prefix_step(b@, nb as int);
        }
    }
    let need: u16 = y as u16 + borrow as u16;
    let (digit, next_borrow) = if x as u16 >= need {
        ((x as u16 - need) as u8, 0u8)
    } else {
        ((x as u16 + 256 - need) as u8, 1u8)
    };
    let mut out = sub_prefixes(a, na2, b, nb2, next_borrow);
    let ghost high = out@;
    out.push(digit);
    assert(out@.drop_last() =~= high);
    out
}

impl Amount {
    /// The amount that big-endian `bytes` denote.
    pub fn from_be_bytes(bytes: Vec<u8>) -> (r: Amount)
        ensures
            r@ == be_value(bytes@),
            r.bytes@ == bytes@,
    {
        Amount { bytes }
    }

    /// Zero.
    pub fn zero() -> (r: Amount)
        ensures
            r@ == 0,
    {
        Amount { bytes: Vec::new() }
    }

    /// The amount `n`.
    pub fn from_u128(n: u128) -> (r: Amount)
        ensures
            r@ == n,
    {
        let bytes = amount_to_be_bytes(n);
        proof {
            lemma_amount_be_value(n as nat);
        }
        Amount { bytes }
    }

    /// The amount as a `u128`, if it fits.
    pub fn to_u128(&self) -> (r: Option<u128>)
        ensures
            match r {
                Some(v) => v == self@,
                None => self@ > u128::MAX,
            },
    {
        let n = self.bytes.len();
        let mut acc: u128 = 0;
        let mut i: usize = 0;
        assert(self.bytes@.take(0) =~= Seq::<u8>::empty());
        while i < n
            invariant
                n == self.bytes@.len(),
                i <= n,
                acc == prefix_value(self.bytes@, i as int),
            decreases n - i,
        {
            proof {
                lemma_prefix_step(self.bytes@, i + 1);
                lemma_prefix_monotone(self.bytes@, i + 1, n as int);
                assert(self.bytes@.take(n as int) =~= self.bytes@);
            }
            let shifted = match acc.checked_mul(256) {
                Some(v) => v,
                None => {
                    return None;
                },
            };
            let next = match shifted.checked_add(self.bytes[i] as u128) {
                Some(v) => v,
                None => {
                    return None;
                },
            };
            acc = next;
            i = i + 1;
        }
        assert(self.bytes@.take(n as int) =~= self.bytes@);
        Some(acc)
    }

    /// A fresh copy of this amount.
    pub fn duplicate(&self) -> (r: Amount)
        ensures
            r@ == self@,
    {
        Amount { bytes: crate::types::copy_bytes(self.bytes.as_slice()) }
    }

    /// Whether this amount is zero.
    pub fn is_zero(&self) -> (r: bool)
        ensures
            r == (self@ == 0),
    {
        let empty: Vec<u8> = Vec::new();
        let c = compare_prefixes(self.bytes.as_slice(), self.bytes.len(), empty.as_slice(), 0);
        proof {
            assert(self.bytes@.take(self.bytes@.len() as int) =~= self.bytes@);
            assert(empty@.take(0) =~= Seq::<u8>::empty());
        }
        c == 0
    }

    /// The sign of `self - other`: -1, 0 or 1.
    fn compare(&self, other: &Amount) -> (r: i8)
        ensures
            r == -1 ==> self@ < other@,
            r == 0 ==> self@ == other@,
            r == 1 ==> self@ > other@,
            r == -1 || r == 0 || r == 1,
    {
        proof {
            assert(self.bytes@.take(self.bytes@.len() as int) =~= self.bytes@);
            assert(other.bytes@.take(other.bytes@.len() as int) =~= other.bytes@);
        }
        compare_prefixes(self.bytes.as_slice(), self.bytes.len(), other.bytes.as_slice(), other.bytes.len())
    }

    /// Whether this amount is less than `other`.
    pub fn less_than(&self, other: &Amount) -> (r: bool)
        ensures
            r == (self@ < other@),
    {
        self.compare(other) == -1
    }

    /// Whether this amount equals `other`.
    pub fn same_as(&self, other: &Amount) -> (r: bool)
        ensures
            r == (self@ == other@),
    {
        self.compare(other) == 0
    }

    /// The sum of two amounts.
    pub fn plus(&self, other: &Amount) -> (r: Amount)
        ensures
            r@ == self@ + other@,
    {
        proof {
            assert(self.bytes@.take(self.bytes@.len() as int) =~= self.bytes@);
            assert(other.bytes@.take(other.bytes@.len() as int) =~= other.bytes@);
        }
        Amount { bytes: add_prefixes(self.bytes.as_slice(), self.bytes.len(), other.bytes.as_slice(), other.bytes.len(), 0) }
    }

    /// This amount less `other`, which must not exceed it.
    pub fn minus(&self, other: &Amount) -> (r: Amount)
        requires
            other@ <= self@,
        ensures
            r@ == self@ - other@,
    {
        proof {
            assert(self.bytes@.take(self.bytes@.len() as int) =~= self.bytes@);
            assert(other.bytes@.take(other.bytes@.len() as int) =~= other.bytes@);
        }
        Amount { bytes: sub_prefixes(self.bytes.as_slice(), self.bytes.len(), other.bytes.as_slice(), other.bytes.len(), 0) }
    }

    /// The shortest big-endian form of this amount: no leading zero byte,
    /// and no byte at all for zero.
    pub fn to_shortest_bytes(&self) -> (r: Vec<u8>)
        ensures
            r@ == amount_be(self@),
    {
        let n = self.bytes.len();
        let mut i: usize = 0;
        assert(self.bytes@.subrange(0, n as int) =~= self.bytes@);
        while i < n && self.bytes[i] == 0
            invariant
                n == self.bytes@.len(),
                i <= n,
                be_value(self.bytes@.subrange(i as int, n as int)) == self@,
            decreases n - i,
        {
            proof {
                assert(self.bytes@.subrange(i as int, n as int) =~= seq![0u8] + self.bytes@.subrange(
                    i + 1,
                    n as int,
                ));
                lemma_leading_zero(self.bytes@.subrange(i + 1, n as int));
            }
            i = i + 1;
        }
        let start = i;
        let mut out: Vec<u8> = Vec::new();
        while i < n
            invariant
                n == self.bytes@.len(),
                start <= i <= n,
                out@ == self.bytes@.subrange(start as int, i as int),
            decreases n - i,
        {
            out.push(self.bytes[i]);
            i = i + 1;
            assert(out@ =~= self.bytes@.subrange(start as int, i as int));
        }
        let ghost i = start;
        proof {
            lemma_shortest_form(self.bytes@.subrange(i as int, n as int));
            assert(out@ =~= self.bytes@.subrange(i as int, n as int));
        }
        out
    }
}

} // verus!
