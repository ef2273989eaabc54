//! Fixed-width lowercase hexadecimal encoding of identifiers.
//!
//! Trace and span identifiers travel between processes as fixed-width
//! lowercase hex fields. This module gives the mathematical meaning of
//! such a field (`hex_seq_val`), its canonical rendering (`hex_render`),
//! executable parsing and rendering, and the round-trip laws relating
//! the two.

use vstd::prelude::*;

verus! {

/// A byte is a lowercase hexadecimal digit: `0`-`9` or `a`-`f`.
pub open spec fn is_lower_hex_digit(b: u8) -> bool {
    (48 <= b && b <= 57) || (97 <= b && b <= 102)
}

/// Numeric value of a lowercase hex digit.
pub open spec fn hex_val(b: u8) -> nat
    recommends
        is_lower_hex_digit(b),
{
    if 48 <= b && b <= 57 {
        (b - 48) as nat
    } else {
        (b - 87) as nat
    }
}

/// The lowercase hex digit with numeric value `v`.
pub open spec fn hex_digit_of(v: nat) -> u8
    recommends
        v < 16,
{
    if v < 10 {
        (v + 48) as u8
    } else {
        (v + 87) as u8
    }
}

/// Every byte of `s` is a lowercase hex digit.
pub open spec fn is_lower_hex(s: Seq<u8>) -> bool {
    forall|i: int| 0 <= i < s.len() ==> is_lower_hex_digit(#[trigger] s[i])
}

/// `16^n`.
pub open spec fn pow16(n: nat) -> nat
    decreases n,
{
    if n == 0 {
        1
    } else {
        16 * pow16((n - 1) as nat)
    }
}

/// The number denoted by a big-endian string of hex digits.
pub open spec fn hex_seq_val(s: Seq<u8>) -> nat
    decreases s.len(),
{
    if s.len() == 0 {
        0
    } else {
        hex_seq_val(s.drop_last()) * 16 + hex_val(s.last())
    }
}

/// The canonical `w`-digit lowercase rendering of `v`.
pub open spec fn hex_render(v: nat, w: nat) -> Seq<u8>
    decreases w,
{
    if w == 0 {
        Seq::empty()
    } else {
        hex_render(v / 16, (w - 1) as nat).push(hex_digit_of(v % 16))
    }
}

/// A digit survives the value / rendering round trip.
pub proof fn lemma_hex_digit_roundtrip(b: u8)
    requires
        is_lower_hex_digit(b),
    ensures
        hex_val(b) < 16,
        hex_digit_of(hex_val(b)) == b,
{
}

/// `pow16` is monotonic.
pub proof fn lemma_pow16_monotonic(a: nat, b: nat)
    requires
        a <= b,
    ensures
        pow16(a) <= pow16(b),
    decreases b,
{
    if a < b {
        lemma_pow16_monotonic(a, (b - 1) as nat);
        assert(pow16(b) == 16 * pow16((b - 1) as nat));
    }
}

/// The powers of 16 at the widths the propagation format uses.
pub proof fn lemma_pow16_widths()
    ensures
        pow16(2) == 0x100,
        pow16(16) == 0x10000000000000000,
        pow16(31) == 0x10000000000000000000000000000000,
        pow16(32) == 0x100000000000000000000000000000000,
{
    reveal_with_fuel(pow16, 33);
}

/// A string of `n` hex digits denotes a value below `16^n`.
pub proof fn lemma_hex_val_bound(s: Seq<u8>)
    requires
        is_lower_hex(s),
    ensures
        hex_seq_val(s) < pow16(s.len()),
    decreases s.len(),
{
    if s.len() > 0 {
        assert(is_lower_hex(s.drop_last()));
        lemma_hex_val_bound(s.drop_last());
        assert(hex_val(s.last()) < 16);
        assert(hex_seq_val(s.drop_last()) * 16 + 15 < pow16(s.len())) by (nonlinear_arith)
            requires
                hex_seq_val(s.drop_last()) < pow16((s.len() - 1) as nat),
                pow16(s.len()) == 16 * pow16((s.len() - 1) as nat),
        ;
    }
}

/// The canonical rendering of `v < 16^w` has width `w`, is lowercase
/// hex, and denotes `v` again.
pub proof fn lemma_hex_render_props(v: nat, w: nat)
    requires
        v < pow16(w),
    ensures
        hex_render(v, w).len() == w,
        is_lower_hex(hex_render(v, w)),
        hex_seq_val(hex_render(v, w)) == v,
    decreases w,
{
    if w > 0 {
        assert(v / 16 < pow16((w - 1) as nat)) by (nonlinear_arith)
            requires
                v < pow16(w),
                pow16(w) == 16 * pow16((w - 1) as nat),
        ;
        lemma_hex_render_props(v / 16, (w - 1) as nat);
        let r = hex_render(v, w);
        assert(r.drop_last() =~= hex_render(v / 16, (w - 1) as nat));
        assert(r.last() == hex_digit_of(v % 16));
        assert(hex_val(hex_digit_of(v % 16)) == v % 16);
        assert(hex_seq_val(r) == (v / 16) * 16 + v % 16);
        assert((v / 16) * 16 + v % 16 == v) by (nonlinear_arith);
        assert forall|i: int| 0 <= i < r.len() implies is_lower_hex_digit(#[trigger] r[i]) by {
            if i < r.len() - 1 {
                assert(r[i] == hex_render(v / 16, (w - 1) as nat)[i]);
            }
        }
    }
}

/// Rendering the value of a fixed-width lowercase hex string gives the
/// identical string: the denotation is injective at fixed width.
pub proof fn lemma_hex_render_of_val(s: Seq<u8>)
    requires
        is_lower_hex(s),
    ensures
        hex_render(hex_seq_val(s), s.len()) == s,
    decreases s.len(),
{
    if s.len() > 0 {
        let v = hex_seq_val(s);
        let a = hex_seq_val(s.drop_last());
        let d = hex_val(s.last());
        assert(is_lower_hex_digit(s.last()));
        assert(d < 16);
        assert(v == a * 16 + d);
        assert(v / 16 == a && v % 16 == d) by (nonlinear_arith)
            requires
                v == a * 16 + d,
                0 <= d < 16,
        ;
        assert(is_lower_hex(s.drop_last()));
        lemma_hex_render_of_val(s.drop_last());
        lemma_hex_digit_roundtrip(s.last());
        assert(hex_render(v, s.len()) =~= s);
    }
}

/// Parse the bytes of `s` between `lo` and `hi` as big-endian lowercase
/// hex. Returns the denoted value, or `None` on any other byte.
pub fn parse_hex_range(s: &[u8], lo: usize, hi: usize) -> (r: Option<u128>)
    requires
        lo <= hi <= s@.len(),
        hi - lo <= 32,
    ensures
        r is Some <==> is_lower_hex(s@.subrange(lo as int, hi as int)),
        r is Some ==> r == Some((hex_seq_val(s@.subrange(lo as int, hi as int)) as u128)),
{
    let ghost whole = s@.subrange(lo as int, hi as int);
    let mut acc: u128 = 0;
    let mut i: usize = lo;
    while i < hi
        invariant
            lo <= i <= hi <= s@.len(),
            hi - lo <= 32,
            whole == s@.subrange(lo as int, hi as int),
            is_lower_hex(s@.subrange(lo as int, i as int)),
            acc == hex_seq_val(s@.subrange(lo as int, i as int)),
            acc < pow16((i - lo) as nat),
        decreases hi - i,
    {
        let b = s[i];
        let d: u8 = if 48 <= b && b <= 57 {
            b - 48
        } else if 97 <= b && b <= 102 {
            b - 87
        } else {
            proof {
                assert(s@.subrange(lo as int, hi as int)[i - lo] == b);
            }
            return None;
        };
        proof {
            lemma_pow16_monotonic((i - lo) as nat, 31);
            lemma_pow16_widths();
            let prev = s@.subrange(lo as int, i as int);
            let next = s@.subrange(lo as int, i + 1 as int);
            assert(next.drop_last() =~= prev);
            assert(next.last() == b);
            assert(hex_val(b) == d);
            assert(pow16(((i + 1) - lo) as nat) == 16 * pow16((i - lo) as nat));
            assert(acc * 16 + d < pow16(((i + 1) - lo) as nat)) by (nonlinear_arith)
                requires
                    acc < pow16((i - lo) as nat),
                    d < 16,
                    pow16(((i + 1) - lo) as nat) == 16 * pow16((i - lo) as nat),
            ;
        }
        acc = acc * 16 + (d as u128);
        i = i + 1;
    }
    proof {
        assert(s@.subrange(lo as int, i as int) =~= whole);
    }
    Some(acc)
}

/// Render `v` as exactly `w` lowercase hex digits, most significant
/// first.
pub fn render_hex(v: u128, w: usize) -> (r: Vec<u8>)
    requires
        (v as nat) < pow16(w as nat),
    ensures
        r@ == hex_render(v as nat, w as nat),
        r@.len() == w,
        is_lower_hex(r@),
        hex_seq_val(r@) == v as nat,
    decreases w,
{
    proof {
        lemma_hex_render_props(v as nat, w as nat);
    }
    if w == 0 {
        Vec::new()
    } else {
        proof {
            assert((v as nat) / 16 < pow16((w - 1) as nat)) by (nonlinear_arith)
                requires
                    (v as nat) < pow16(w as nat),
                    pow16(w as nat) == 16 * pow16((w - 1) as nat),
            ;
        }
        let mut r = render_hex(v / 16, w - 1);
        let m: u128 = v % 16;
        let d: u8 = if m < 10 {
            (m as u8) + 48
        } else {
            (m as u8) + 87
        };
        proof {
            assert(hex_digit_of((v as nat) % 16) == d);
        }
        r.push(d);
        r
    }
}

} // verus!
