//! Disk-usage arithmetic: allocation in whole clusters, and the
//! human-readable rendering of byte counts.
use vstd::prelude::*;
use vstd::arithmetic::power2::pow2;
use vstd::arithmetic::power2::lemma2_to64;
use vstd::arithmetic::power2::lemma2_to64_rest;
use vstd::arithmetic::power2::lemma_pow2_unfold;
use vstd::arithmetic::power2::lemma_pow2_strictly_increases;
use vstd::string::StringExecFns;

use crate::text::concat;
use crate::text::dec;
use crate::text::decimal;
use crate::text::push_char;

verus! {

/// The allocation unit of the file system, in bytes.
pub const CLUSTER_SIZE: u64 = 4096;

/// Bytes that a file of `len` bytes occupies: `len` rounded up to a whole
/// number of clusters (nothing for an empty file).
pub open spec fn spec_allocated_size(len: nat) -> nat {
    if len == 0 {
        0
    } else {
        ((len + 4095) / 4096) * 4096
    }
}

/// Occupied size of a file of `len` bytes.
pub fn allocated_size(len: u64) -> (r: u64)
    requires
        len <= u64::MAX - 4095,
    ensures
        r == spec_allocated_size(len as nat),
        r % 4096 == 0,
        len <= r,
        r < len + 4096,
        (r == 0) == (len == 0),
{
    if len == 0 {
        0
    } else {
        let blocks: u64 = len / CLUSTER_SIZE + if len % CLUSTER_SIZE == 0 { 0 } else { 1 };
        assert(blocks == (len + 4095) / 4096);
        blocks * CLUSTER_SIZE
    }
}

/// Sum of the occupied sizes of files with the given lengths.
pub open spec fn spec_total_allocated(lens: Seq<u64>) -> nat
    decreases lens.len(),
{
    if lens.len() == 0 {
        0
    } else {
        spec_total_allocated(lens.drop_last()) + spec_allocated_size(lens.last() as nat)
    }
}

/// Total occupied size of files with lengths `lens` (the sum that a
/// directory walk adds up), or `None` where it does not fit in a `u64`.
pub fn total_allocated(lens: &Vec<u64>) -> (r: Option<u64>)
    ensures
        match r {
            Some(t) => t == spec_total_allocated(lens@),
            None => spec_total_allocated(lens@) > u64::MAX,
        },
{
    let mut total: u64 = 0;
    let mut i: usize = 0;
    while i < lens.len()
        invariant
            i <= lens@.len(),
            total == spec_total_allocated(lens@.take(i as int)),
        decreases lens.len() - i,
    {
        assert(lens@.take(i + 1).drop_last() == lens@.take(i as int));
        let len = lens[i];
        if len > u64::MAX - 4095 {
            proof {
                lemma_total_monotone(lens@, i as int + 1);
            }
            return None;
        }
        let a = allocated_size(len);
        if a > u64::MAX - total {
            proof {
                lemma_total_monotone(lens@, i as int + 1);
            }
            return None;
        }
        total = total + a;
        i = i + 1;
    }
    assert(lens@.take(i as int) == lens@);
    Some(total)
}

proof fn lemma_total_monotone(lens: Seq<u64>, k: int)
    requires
        0 <= k <= lens.len(),
    ensures
        spec_total_allocated(lens.take(k)) <= spec_total_allocated(lens),
    decreases lens.len() - k,
{
    if k < lens.len() {
        lemma_total_monotone(lens, k + 1);
        assert(lens.take(k + 1).drop_last() == lens.take(k));
    } else {
        assert(lens.take(k) == lens);
    }
}

/// `n / d` rounded to the nearest integer, ties to the even one.
pub open spec fn round_half_even(n: nat, d: nat) -> nat {
    let q = n / d;
    let r = n % d;
    if 2 * r > d || (2 * r == d && q % 2 == 1) {
        q + 1
    } else {
        q
    }
}

/// The number of low bits that an `f64` drops from `b`: how often `b` must
/// be halved before it has at most 53 significant bits.
pub open spec fn dropped_bits(b: nat) -> nat
    decreases b,
{
    if b < 0x20000000000000 {
        0
    } else {
        1 + dropped_bits(b / 2)
    }
}

/// The value of `b as f64`: `b` rounded to 53 significant bits, ties to even.
pub open spec fn f64_value(b: nat) -> nat {
    let d = pow2(dropped_bits(b));
    round_half_even(b, d) * d
}

/// The fractional digits of a fixed-point rendering with `places` digits.
pub open spec fn frac_digits(r: nat, places: nat) -> Seq<char> {
    if places == 2 && r < 10 {
        seq!['0'] + dec(r)
    } else {
        dec(r)
    }
}

/// `n / unit` written with `places` (1 or 2) decimals, the last one rounded
/// half to even, as `{:.1}` and `{:.2}` render an exact value.
pub open spec fn fixed_text(n: nat, unit: nat, places: nat) -> Seq<char> {
    let scale: nat = if places == 2 {
        100
    } else {
        10
    };
    let q = round_half_even(n * scale, unit);
    dec(q / scale) + seq!['.'] + frac_digits(q % scale, places)
}

/// The rendering of a byte count: plain bytes below 1 KiB, one decimal for
/// KB and MB, two for GB and TB (binary units).
pub open spec fn spec_format_bytes(b: nat) -> Seq<char> {
    if b < 1024 {
        dec(b) + seq![' ', 'B']
    } else if b < 1048576 {
        fixed_text(b, 1024, 1) + seq![' ', 'K', 'B']
    } else if b < 1073741824 {
        fixed_text(b, 1048576, 1) + seq![' ', 'M', 'B']
    } else if b < 1099511627776 {
        fixed_text(b, 1073741824, 2) + seq![' ', 'G', 'B']
    } else {
        fixed_text(f64_value(b), 1099511627776, 2) + seq![' ', 'T', 'B']
    }
}

fn div_round_half_even(n: u128, d: u128) -> (r: u128)
    requires
        d > 0,
    ensures
        r == round_half_even(n as nat, d as nat),
        r <= n / d + 1,
{
    let q: u128 = n / d;
    let rem: u128 = n % d;
    if rem > d - rem || (rem == d - rem && q % 2 == 1) {
        assert(q + 1 <= u128::MAX) by (nonlinear_arith)
            requires
                q == n / d,
                d > 0,
                rem == n % d,
                rem > 0,
        ;
        q + 1
    } else {
        q
    }
}

/// The exact value of `b as f64`.
fn as_f64_value(b: u64) -> (r: u128)
    ensures
        r == f64_value(b as nat),
        r <= 0x10000000000000800,
{
    let mut t: u64 = b;
    let mut e: u64 = 0;
    let mut d: u128 = 1;
    proof {
        lemma2_to64();
    }
    while t >= 0x20000000000000
        invariant
            dropped_bits(b as nat) == e + dropped_bits(t as nat),
            d == pow2(e as nat),
            e <= 11,
            t < pow2((64 - e) as nat),
        decreases t,
    {
        proof {
            lemma2_to64();
            lemma2_to64_rest();
            if 64 - e <= 53 {
                if 64 - e < 53 {
                    lemma_pow2_strictly_increases((64 - e) as nat, 53);
                }
                assert(false);
            }
            lemma_pow2_unfold((64 - e) as nat);
            lemma_pow2_unfold((e + 1) as nat);
        }
        t = t / 2;
        e = e + 1;
        d = d * 2;
    }
    proof {
        lemma2_to64();
        if e < 11 {
            lemma_pow2_strictly_increases(e as nat, 11);
        }
    }
    let q = div_round_half_even(b as u128, d);
    assert(q * d <= 0x10000000000000800) by (nonlinear_arith)
        requires
            q <= (b as int) / (d as int) + 1,
            0 < d <= 2048,
            b <= u64::MAX,
    ;
    q * d
}

/// `n / unit` with one or two decimals.
fn fixed_point(n: u128, unit: u128, two_places: bool) -> (r: String)
    requires
        1024 <= unit,
        n <= 0x10000000000000800,
    ensures
        r@ == fixed_text(n as nat, unit as nat, if two_places { 2 } else { 1 }),
{
    let scale: u128 = if two_places { 100 } else { 10 };
    let q = div_round_half_even(n * scale, unit);
    assert(q / scale <= u64::MAX) by (nonlinear_arith)
        requires
            q <= (n * scale) / (unit as int) + 1,
            1024 <= unit,
            n <= 0x10000000000000800,
            scale == 10 || scale == 100,
    ;
    let whole: u64 = (q / scale) as u64;
    let frac: u64 = (q % scale) as u64;
    let mut s = decimal(whole);
    push_char(&mut s, '.');
    if two_places && frac < 10 {
        push_char(&mut s, '0');
    }
    let tail = decimal(frac);
    s.append(tail.as_str());
    assert(s@ == fixed_text(n as nat, unit as nat, if two_places { 2 } else { 1 }));
    s
}

/// Renders a byte count for people, e.g. `1536` as `1.5 KB`.
pub fn format_bytes(bytes: u64) -> (r: String)
    ensures
        r@ == spec_format_bytes(bytes as nat),
{
    if bytes < 1024 {
        let d = decimal(bytes);
        let r = concat(d.as_str(), " B");
        proof {
            reveal_strlit(" B");
        }
        assert(r@ == spec_format_bytes(bytes as nat));
        r
    } else if bytes < 1048576 {
        let f = fixed_point(bytes as u128, 1024, false);
        let r = concat(f.as_str(), " KB");
        proof {
            reveal_strlit(" KB");
        }
        r
    } else if bytes < 1073741824 {
        let f = fixed_point(bytes as u128, 1048576, false);
        let r = concat(f.as_str(), " MB");
        proof {
            reveal_strlit(" MB");
        }
        r
    } else if bytes < 1099511627776 {
        let f = fixed_point(bytes as u128, 1073741824, true);
        let r = concat(f.as_str(), " GB");
        proof {
            reveal_strlit(" GB");
        }
        r
    } else {
        let v = as_f64_value(bytes);
        let f = fixed_point(v, 1099511627776, true);
        let r = concat(f.as_str(), " TB");
        proof {
            reveal_strlit(" TB");
        }
        r
    }
}

} // verus!
