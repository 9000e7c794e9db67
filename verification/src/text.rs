//! ASCII text helpers shared by the settings codec: decimal numerals and
//! whitespace trimming over byte sequences.

use vstd::prelude::*;

verus! {

/// ASCII whitespace: space, tab, line feed, vertical tab, form feed,
/// carriage return.
pub open spec fn is_ws(b: u8) -> bool {
    b == 0x20 || (0x09 <= b && b <= 0x0D)
}

/// ASCII decimal digit.
pub open spec fn is_digit(b: u8) -> bool {
    0x30 <= b && b <= 0x39
}

/// Every byte of the sequence is a decimal digit.
pub open spec fn all_digits(s: Seq<u8>) -> bool {
    forall|i: int| 0 <= i < s.len() ==> is_digit(s[i])
}

/// The numeric value of a digit sequence, most significant digit first.
pub open spec fn dec_value(s: Seq<u8>) -> int
    decreases s.len(),
{
    if s.len() == 0 {
        0
    } else {
        dec_value(s.drop_last()) * 10 + (s.last() - 0x30)
    }
}

/// The sequence is a decimal numeral whose value fits in eight bits.
pub open spec fn is_dec_u8(s: Seq<u8>) -> bool {
    &&& s.len() >= 1
    &&& all_digits(s)
    &&& dec_value(s) <= 255
}

/// The decimal digits of a non-negative number, without leading zeros.
pub open spec fn dec_digits(n: int) -> Seq<u8>
    decreases n,
{
    if n < 10 {
        seq![(0x30 + if 0 <= n { n } else { 0 }) as u8]
    } else {
        dec_digits(n / 10).push((0x30 + n % 10) as u8)
    }
}

/// How many whitespace bytes the sequence starts with.
pub open spec fn leading_ws(s: Seq<u8>) -> int
    decreases s.len(),
{
    if s.len() == 0 || !is_ws(s[0]) {
        0
    } else {
        1 + leading_ws(s.drop_first())
    }
}

/// How many whitespace bytes the sequence ends with.
pub open spec fn trailing_ws(s: Seq<u8>) -> int
    decreases s.len(),
{
    if s.len() == 0 || !is_ws(s.last()) {
        0
    } else {
        1 + trailing_ws(s.drop_last())
    }
}

/// The sequence without its leading and trailing ASCII whitespace.
pub open spec fn trim_ws(s: Seq<u8>) -> Seq<u8> {
    if leading_ws(s) == s.len() {
        Seq::empty()
    } else {
        s.subrange(leading_ws(s), s.len() - trailing_ws(s))
    }
}

/// `leading_ws` counts exactly the whitespace prefix: everything before it
/// is whitespace and the byte at it, if any, is not.
pub proof fn lemma_leading_ws_bounds(s: Seq<u8>)
    ensures
        0 <= leading_ws(s) <= s.len(),
        forall|j: int| 0 <= j < leading_ws(s) ==> is_ws(s[j]),
        leading_ws(s) < s.len() ==> !is_ws(s[leading_ws(s)]),
    decreases s.len(),
{
    if s.len() == 0 || !is_ws(s[0]) {
    } else {
        let t = s.drop_first();
        lemma_leading_ws_bounds(t);
        assert forall|j: int| 0 <= j < leading_ws(s) implies is_ws(s[j]) by {
            if j > 0 {
                assert(is_ws(t[j - 1]));
            }
        }
        if leading_ws(s) < s.len() {
            assert(s[leading_ws(s)] == t[leading_ws(t)]);
        }
    }
}

/// Any index with whitespace everywhere before it and a non-whitespace byte
/// (or the end) at it is `leading_ws`.
pub proof fn lemma_leading_ws_unique(s: Seq<u8>, k: int)
    requires
        0 <= k <= s.len(),
        forall|j: int| 0 <= j < k ==> is_ws(s[j]),
        k < s.len() ==> !is_ws(s[k]),
    ensures
        k == leading_ws(s),
{
    lemma_leading_ws_bounds(s);
    if k < leading_ws(s) {
        assert(is_ws(s[k]));
        assert(k < s.len());
    } else if k > leading_ws(s) {
        assert(is_ws(s[leading_ws(s)]));
    }
}

/// `trailing_ws` counts exactly the whitespace suffix.
pub proof fn lemma_trailing_ws_bounds(s: Seq<u8>)
    ensures
        0 <= trailing_ws(s) <= s.len(),
        forall|j: int| s.len() - trailing_ws(s) <= j < s.len() ==> is_ws(s[j]),
        trailing_ws(s) < s.len() ==> !is_ws(s[s.len() - trailing_ws(s) - 1]),
    decreases s.len(),
{
    if s.len() == 0 || !is_ws(s.last()) {
    } else {
        let t = s.drop_last();
        lemma_trailing_ws_bounds(t);
        assert forall|j: int| s.len() - trailing_ws(s) <= j < s.len() implies is_ws(s[j]) by {
            if j < s.len() - 1 {
                assert(is_ws(t[j]));
            }
        }
        if trailing_ws(s) < s.len() {
            assert(s[s.len() - trailing_ws(s) - 1] == t[t.len() - trailing_ws(t) - 1]);
        }
    }
}

/// Any count with whitespace everywhere after it and a non-whitespace byte
/// (or the start) before it is `trailing_ws`.
pub proof fn lemma_trailing_ws_unique(s: Seq<u8>, k: int)
    requires
        0 <= k <= s.len(),
        forall|j: int| s.len() - k <= j < s.len() ==> is_ws(s[j]),
        k < s.len() ==> !is_ws(s[s.len() - k - 1]),
    ensures
        k == trailing_ws(s),
{
    lemma_trailing_ws_bounds(s);
    if k < trailing_ws(s) {
        assert(is_ws(s[s.len() - k - 1]));
    } else if k > trailing_ws(s) {
        assert(is_ws(s[s.len() - trailing_ws(s) - 1]));
    }
}

/// Once a prefix of a digit sequence exceeds 255, the whole sequence does.
pub proof fn lemma_dec_value_prefix_bound(s: Seq<u8>, i: int)
    requires
        all_digits(s),
        0 <= i <= s.len(),
        dec_value(s.subrange(0, i)) > 255,
    ensures
        dec_value(s) > 255,
    decreases s.len() - i,
{
    if i == s.len() {
        assert(s.subrange(0, i) == s);
    } else {
        let p = s.subrange(0, i);
        let q = s.subrange(0, i + 1);
        assert(q.drop_last() == p);
        assert(is_digit(q.last()));
        lemma_dec_value_prefix_bound(s, i + 1);
    }
}

/// A numeral for a value that fits in eight bits is one to three digits.
pub proof fn lemma_dec_digits_props(n: int)
    requires
        0 <= n <= 255,
    ensures
        1 <= dec_digits(n).len() <= 3,
        all_digits(dec_digits(n)),
{
    if n < 10 {
        assert(is_digit(dec_digits(n)[0]));
    } else if n < 100 {
        let p = dec_digits(n / 10);
        assert(n / 10 < 10);
        assert(p.len() == 1 && is_digit(p[0]));
        let d = dec_digits(n);
        assert(d == p.push((0x30 + n % 10) as u8));
        assert(is_digit(d[1]));
        assert(all_digits(d));
    } else {
        assert((n / 10) / 10 == n / 100);
        assert(n / 100 < 10);
        let q = dec_digits(n / 100);
        assert(q.len() == 1 && is_digit(q[0]));
        let p = dec_digits(n / 10);
        assert(n / 10 >= 10);
        assert(p == q.push((0x30 + (n / 10) % 10) as u8));
        assert(p.len() == 2 && is_digit(p[1]));
        let d = dec_digits(n);
        assert(d == p.push((0x30 + n % 10) as u8));
        assert(is_digit(d[2]));
        assert(all_digits(d));
    }
}

/// Whether a byte is ASCII whitespace, decided executably.
pub fn is_ws_byte(b: u8) -> (r: bool)
    ensures
        r == is_ws(b),
{
    b == 0x20 || (0x09 <= b && b <= 0x0D)
}

/// Parses the decimal numeral that `s` holds after discarding surrounding
/// ASCII whitespace; yields its value exactly when the trimmed text is a
/// non-empty digit string whose value fits in eight bits.
pub fn parse_trimmed_u8(s: &[u8]) -> (r: Option<u8>)
    ensures
        r is Some <==> is_dec_u8(trim_ws(s@)),
        r is Some ==> r->0 as int == dec_value(trim_ws(s@)),
{
    let n = s.len();
    let mut lo: usize = 0;
    while lo < n && is_ws_byte(s[lo])
        invariant
            n == s@.len(),
            0 <= lo <= n,
            forall|j: int| 0 <= j < lo ==> is_ws(s@[j]),
        decreases n - lo,
    {
        lo = lo + 1;
    }
    proof {
        lemma_leading_ws_unique(s@, lo as int);
    }
    if lo == n {
        // all whitespace: the trimmed text is empty
        return None;
    }
    let mut hi: usize = n;
    while hi > lo && is_ws_byte(s[hi - 1])
        invariant
            n == s@.len(),
            lo <= hi <= n,
            !is_ws(s@[lo as int]),
            forall|j: int| hi <= j < n ==> is_ws(s@[j]),
        decreases hi,
    {
        hi = hi - 1;
    }
    proof {
        assert(hi > lo);
        lemma_trailing_ws_unique(s@, n - hi as int);
        assert(trim_ws(s@) =~= s@.subrange(lo as int, hi as int));
    }
    let ghost t = trim_ws(s@);
    let mut v: u32 = 0;
    let mut i: usize = lo;
    while i < hi
        invariant
            n == s@.len(),
            lo <= i <= hi <= n,
            lo < hi,
            t == trim_ws(s@),
            t == s@.subrange(lo as int, hi as int),
            forall|j: int| 0 <= j < i - lo ==> is_digit(t[j]),
            v <= 255,
            v as int == dec_value(s@.subrange(lo as int, i as int)),
        decreases hi - i,
    {
        let b = s[i];
        if b < 0x30 || b > 0x39 {
            proof {
                assert(t[i - lo as int] == s@[i as int]);
                assert(!is_digit(t[i - lo as int]));
                assert(!all_digits(t));
            }
            return None;
        }
        proof {
            let p = s@.subrange(lo as int, i as int);
            let q = s@.subrange(lo as int, (i + 1) as int);
            assert(q.drop_last() =~= p);
            assert(q.last() == s@[i as int]);
        }
        v = v * 10 + (b - 0x30) as u32;
        if v > 255 {
            proof {
                let q = s@.subrange(lo as int, (i + 1) as int);
                assert(q =~= t.subrange(0, (i + 1 - lo) as int));
                assert(dec_value(t.subrange(0, (i + 1 - lo) as int)) == v as int);
                if all_digits(t) {
                    lemma_dec_value_prefix_bound(t, (i + 1 - lo) as int);
                    assert(dec_value(t) > 255);
                }
                assert(!is_dec_u8(t));
            }
            return None;
        }
        i = i + 1;
    }
    proof {
        assert(s@.subrange(lo as int, hi as int) =~= t);
        assert(forall|j: int| 0 <= j < t.len() ==> is_digit(t[j]));
        assert(is_dec_u8(t));
    }
    Some(v as u8)
}

/// Renders a number as its decimal digits, without leading zeros.
pub fn render_u8(n: u8) -> (r: Vec<u8>)
    ensures
        r@ == dec_digits(n as int),
{
    let mut out: Vec<u8> = Vec::new();
    if n >= 100 {
        out.push(0x30 + n / 100);
    }
    if n >= 10 {
        out.push(0x30 + (n / 10) % 10);
    }
    out.push(0x30 + n % 10);
    proof {
        if n < 10 {
            assert(out@ =~= dec_digits(n as int));
        } else if n < 100 {
            assert(n as int / 10 < 10);
            assert(dec_digits(n as int) == dec_digits(n as int / 10).push(
                (0x30 + n as int % 10) as u8,
            ));
            assert((n / 10) % 10 == n / 10);
            assert(out@ =~= dec_digits(n as int));
        } else {
            assert(n as int / 10 >= 10);
            assert((n as int / 10) / 10 == n as int / 100);
            assert((n as int / 10) % 10 == (n as int % 100) / 10);
            assert(dec_digits(n as int / 10) == dec_digits(n as int / 100).push(
                (0x30 + (n as int / 10) % 10) as u8,
            ));
            assert(dec_digits(n as int / 100).push((0x30 + (n as int / 10) % 10) as u8).push(
                (0x30 + n as int % 10) as u8,
            ) == dec_digits(n as int));
            assert(n as int / 100 < 10);
            assert(out@ =~= dec_digits(n as int));
        }
    }
    out
}

} // verus!
