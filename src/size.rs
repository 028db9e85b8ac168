//! Human-scaled byte sizes with a unit-bucket-first order.
use vstd::arithmetic::div_mod::{lemma_fundamental_div_mod, lemma_fundamental_div_mod_converse};
use crate::text::{decimal_text, digit_char, digit_str, push_decimal};
use vstd::prelude::*;
use vstd::string::StringExecFns;

verus! {

/// The unit of a scaled size, from the smallest to the largest.
#[derive(Clone, Copy, Debug, PartialEq, Eq, Structural)]
pub enum FileSizeUnit {
    Bytes,
    Kilobytes,
    Megabytes,
    Gigabytes,
}

impl FileSizeUnit {
    /// Position of the unit: bytes are 0, gigabytes 3.
    pub open spec fn rank(self) -> nat {
        match self {
            FileSizeUnit::Bytes => 0,
            FileSizeUnit::Kilobytes => 1,
            FileSizeUnit::Megabytes => 2,
            FileSizeUnit::Gigabytes => 3,
        }
    }

    /// Number of bytes in one of this unit.
    pub open spec fn bytes_per_unit(self) -> nat {
        pow1024(self.rank())
    }

    /// The unit's position, as in `rank`.
    pub fn index(&self) -> (r: u8)
        ensures
            r as nat == self.rank(),
    {
        match self {
            FileSizeUnit::Bytes => 0,
            FileSizeUnit::Kilobytes => 1,
            FileSizeUnit::Megabytes => 2,
            FileSizeUnit::Gigabytes => 3,
        }
    }
}

/// The unit at position `k` (3 and above give gigabytes).
pub open spec fn unit_of_rank(k: nat) -> FileSizeUnit {
    if k == 0 {
        FileSizeUnit::Bytes
    } else if k == 1 {
        FileSizeUnit::Kilobytes
    } else if k == 2 {
        FileSizeUnit::Megabytes
    } else {
        FileSizeUnit::Gigabytes
    }
}

/// `1024` raised to `k`, for the four unit positions.
pub open spec fn pow1024(k: nat) -> nat {
    if k == 0 {
        1
    } else if k == 1 {
        1024
    } else if k == 2 {
        1048576
    } else {
        1073741824
    }
}

/// The smallest integer not below `a / b`.
pub open spec fn ceil_div(a: int, b: int) -> int {
    (a + b - 1) / b
}

/// The byte count `numerator / denominator`, expressed in unit `k`, rounded up
/// at the hundredths and counted in hundredths.
pub open spec fn scaled_hundredths(numerator: int, denominator: int, k: nat) -> int {
    ceil_div(100 * numerator, denominator * pow1024(k))
}

/// Whether the rounded value in unit `k` stays below 1024.
pub open spec fn fits_unit(numerator: int, denominator: int, k: nat) -> bool {
    scaled_hundredths(numerator, denominator, k) < 102400
}

/// Position of the unit that a byte count is shown in: the first one, from bytes
/// up, whose rounded value is below 1024, and gigabytes past them.
pub open spec fn scale_rank(numerator: int, denominator: int) -> nat {
    if fits_unit(numerator, denominator, 0) {
        0
    } else if fits_unit(numerator, denominator, 1) {
        1
    } else if fits_unit(numerator, denominator, 2) {
        2
    } else {
        3
    }
}

/// The size that the byte count `numerator / denominator` scales to.
pub open spec fn scaled_size(numerator: int, denominator: int) -> FileSize {
    let k = scale_rank(numerator, denominator);
    FileSize { hundredths: scaled_hundredths(numerator, denominator, k) as u128, unit: unit_of_rank(k) }
}

/// The symbol of a unit.
pub open spec fn unit_text(u: FileSizeUnit) -> Seq<char> {
    match u {
        FileSizeUnit::Bytes => "B"@,
        FileSizeUnit::Kilobytes => "KB"@,
        FileSizeUnit::Megabytes => "MB"@,
        FileSizeUnit::Gigabytes => "GB"@,
    }
}

fn unit_symbol(u: FileSizeUnit) -> (r: &'static str)
    ensures
        r@ == unit_text(u),
{
    match u {
        FileSizeUnit::Bytes => "B",
        FileSizeUnit::Kilobytes => "KB",
        FileSizeUnit::Megabytes => "MB",
        FileSizeUnit::Gigabytes => "GB",
    }
}

/// The digits after the point of a count of hundredths, without trailing zeros.
pub open spec fn fraction_text(frac: nat) -> Seq<char> {
    if frac == 0 {
        Seq::empty()
    } else if frac % 10 == 0 {
        seq!['.', digit_char(frac / 10)]
    } else {
        seq!['.', digit_char(frac / 10), digit_char(frac % 10)]
    }
}

/// The text of a size: its magnitude and its unit's symbol.
pub open spec fn size_text(s: FileSize) -> Seq<char> {
    decimal_text((s.hundredths / 100) as nat) + fraction_text((s.hundredths % 100) as nat) + unit_text(
        s.unit,
    )
}

/// A byte count scaled to a unit: `hundredths / 100` of `unit`.
#[derive(Clone, Copy, Debug, PartialEq, Eq, Structural)]
pub struct FileSize {
    pub hundredths: u128,
    pub unit: FileSizeUnit,
}

/// The order of sizes: by unit first, and by magnitude only within one unit.
pub open spec fn size_lt(a: FileSize, b: FileSize) -> bool {
    if a.unit == b.unit {
        a.hundredths < b.hundredths
    } else {
        a.unit.rank() < b.unit.rank()
    }
}

impl FileSize {
    /// Below 1024 in every unit but gigabytes.
    pub open spec fn wf(self) -> bool {
        self.unit != FileSizeUnit::Gigabytes ==> self.hundredths < 102400
    }

    /// Scales the byte count `numerator / denominator`.
    pub fn new(numerator: u128, denominator: u64) -> (r: FileSize)
        requires
            denominator > 0,
        ensures
            r.unit == unit_of_rank(scale_rank(numerator as int, denominator as int)),
            r.hundredths == scaled_hundredths(
                numerator as int,
                denominator as int,
                scale_rank(numerator as int, denominator as int),
            ),
            r == scaled_size(numerator as int, denominator as int),
            r.wf(),
    {
        let d = denominator as u128;
        let n = numerator;
        let h0 = rounded_in_unit(n, d, 0);
        if let Some(h) = h0 {
            return FileSize { hundredths: h, unit: FileSizeUnit::Bytes };
        }
        let h1 = rounded_in_unit(n, d, 1);
        if let Some(h) = h1 {
            return FileSize { hundredths: h, unit: FileSizeUnit::Kilobytes };
        }
        let h2 = rounded_in_unit(n, d, 2);
        if let Some(h) = h2 {
            return FileSize { hundredths: h, unit: FileSizeUnit::Megabytes };
        }
        let dd = d * 1073741824;
        let q = n / dd;
        let rest = n % dd;
        proof {
            lemma_ceil_split(n as int, dd as int);
            assert(q <= n);
            assert(q * 100 <= 100 * (n as int) / 1073741824) by (nonlinear_arith)
                requires
                    q == n as int / dd as int,
                    dd as int == d as int * 1073741824,
                    d >= 1,
                    n >= 0,
            ;
        }
        let h = 100 * q + (100 * rest + dd - 1) / dd;
        FileSize { hundredths: h, unit: FileSizeUnit::Gigabytes }
    }

    /// The size as text: the magnitude with its hundredths (no trailing zeros
    /// after the point, no point for a whole number) and the unit's symbol, such as
    /// `976.57KB`, `1.5MB` or `3GB`.
    pub fn to_text(&self) -> (r: String)
        ensures
            r@ == size_text(*self),
    {
        let mut out = String::new();
        push_decimal(&mut out, self.hundredths / 100);
        let frac = self.hundredths % 100;
        proof {
            reveal_strlit(".");
        }
        if frac != 0 {
            out.append(".");
            out.append(digit_str((frac / 10) as u8));
            if frac % 10 != 0 {
                out.append(digit_str((frac % 10) as u8));
            }
        }
        out.append(unit_symbol(self.unit));
        out
    }

    /// Whether `self` comes before `other` in the order of sizes.
    pub fn is_smaller_than(&self, other: &FileSize) -> (r: bool)
        ensures
            r == size_lt(*self, *other),
    {
        if self.unit == other.unit {
            self.hundredths < other.hundredths
        } else {
            self.unit.index() < other.unit.index()
        }
    }
}

/// The rounded hundredths of `n / d` in the unit at position `k`, where they stay
/// below 1024 units.
fn rounded_in_unit(n: u128, d: u128, k: u8) -> (r: Option<u128>)
    requires
        0 < d <= u64::MAX,
        k < 3,
    ensures
        r is Some <==> fits_unit(n as int, d as int, k as nat),
        r matches Some(h) ==> h == scaled_hundredths(n as int, d as int, k as nat),
{
    let unit: u128 = if k == 0 {
        1
    } else if k == 1 {
        1024
    } else {
        1048576
    };
    let dd = d * unit;
    let q = n / dd;
    let rest = n % dd;
    proof {
        lemma_ceil_split(n as int, dd as int);
    }
    if q >= 1024 {
        return None;
    }
    let h = 100 * q + (100 * rest + dd - 1) / dd;
    if h < 102400 {
        Some(h)
    } else {
        None
    }
}

/// A scaled size lies in `[0, 1024)` of its unit unless that unit is gigabytes,
/// and, rounded up as it is, it never shows less than the byte count it scales.
pub proof fn lemma_scaled_size_bounds(numerator: u128, denominator: u64)
    requires
        denominator > 0,
    ensures
        ({
            let k = scale_rank(numerator as int, denominator as int);
            let h = scaled_hundredths(numerator as int, denominator as int, k);
            &&& 0 <= h
            &&& unit_of_rank(k) != FileSizeUnit::Gigabytes ==> h < 102400
            &&& h * (denominator * pow1024(k)) >= 100 * numerator
        }),
{
    let k = scale_rank(numerator as int, denominator as int);
    let dd = denominator * pow1024(k);
    assert(dd > 0) by (nonlinear_arith)
        requires
            denominator > 0,
            pow1024(k) >= 1,
            dd == denominator * pow1024(k),
    ;
    lemma_ceil_covers(100 * numerator, dd);
}

/// Any size in a smaller unit comes before any size in a larger one, whatever the
/// magnitudes.
pub proof fn lemma_unit_bucket_first(a: FileSize, b: FileSize)
    requires
        a.unit.rank() < b.unit.rank(),
    ensures
        size_lt(a, b),
        !size_lt(b, a),
{
}

/// The order of sizes is transitive and irreflexive.
pub proof fn lemma_size_order(a: FileSize, b: FileSize, c: FileSize)
    ensures
        !size_lt(a, a),
        size_lt(a, b) && size_lt(b, c) ==> size_lt(a, c),
{
}

/// How two sizes compare in the order of sizes.
pub open spec fn size_cmp(a: FileSize, b: FileSize) -> core::cmp::Ordering {
    if size_lt(a, b) {
        core::cmp::Ordering::Less
    } else if size_lt(b, a) {
        core::cmp::Ordering::Greater
    } else {
        core::cmp::Ordering::Equal
    }
}

impl PartialOrd for FileSize {
    fn partial_cmp(&self, other: &FileSize) -> (r: Option<core::cmp::Ordering>) {
        if self.is_smaller_than(other) {
            Some(core::cmp::Ordering::Less)
        } else if other.is_smaller_than(self) {
            Some(core::cmp::Ordering::Greater)
        } else {
            Some(core::cmp::Ordering::Equal)
        }
    }
}

impl vstd::std_specs::cmp::PartialOrdSpecImpl for FileSize {
    open spec fn obeys_partial_cmp_spec() -> bool {
        true
    }

    open spec fn partial_cmp_spec(&self, other: &FileSize) -> Option<core::cmp::Ordering> {
        Some(size_cmp(*self, *other))
    }
}

/// Rounding a quotient up never falls below it.
proof fn lemma_ceil_covers(a: int, b: int)
    requires
        a >= 0,
        b > 0,
    ensures
        ceil_div(a, b) >= 0,
        ceil_div(a, b) * b >= a,
{
    let c = a + b - 1;
    lemma_fundamental_div_mod(c, b);
    vstd::arithmetic::div_mod::lemma_mod_pos_bound(c, b);
    assert(c / b >= 0 && (c / b) * b >= a) by (nonlinear_arith)
        requires
            c == b * (c / b) + c % b,
            0 <= c % b < b,
            c == a + b - 1,
            a >= 0,
            b > 0,
    ;
}

/// Rounding up the hundredths of `n / dd` splits into a whole part and a rest.
proof fn lemma_ceil_split(n: int, dd: int)
    requires
        n >= 0,
        dd > 0,
    ensures
        0 <= n % dd < dd,
        0 <= (100 * (n % dd) + dd - 1) / dd <= 100,
        ceil_div(100 * n, dd) == 100 * (n / dd) + (100 * (n % dd) + dd - 1) / dd,
{
    let q = n / dd;
    let r = n % dd;
    lemma_fundamental_div_mod(n, dd);
    vstd::arithmetic::div_mod::lemma_mod_pos_bound(n, dd);
    let a = 100 * r + dd - 1;
    let q2 = a / dd;
    let r2 = a % dd;
    lemma_fundamental_div_mod(a, dd);
    vstd::arithmetic::div_mod::lemma_mod_pos_bound(a, dd);
    assert(0 <= q2 <= 100) by (nonlinear_arith)
        requires
            a == dd * q2 + r2,
            0 <= r2 < dd,
            0 <= r < dd,
            a == 100 * r + dd - 1,
    ;
    assert(100 * n + dd - 1 == (100 * q + q2) * dd + r2) by (nonlinear_arith)
        requires
            n == dd * q + r,
            a == dd * q2 + r2,
            a == 100 * r + dd - 1,
    ;
    lemma_fundamental_div_mod_converse(100 * n + dd - 1, dd, 100 * q + q2, r2);
}

} // verus!
