use vstd::prelude::*;

use crate::units::lemma_unit_constants;
use crate::units::Unit;
use crate::units::TB;

verus! {

/// A count of bytes.
pub struct ByteConverter {
    pub bytes: u64,
}

/// A byte count measured in a unit, kept exactly: the value is
/// `whole + remainder / unit size`, with `remainder` counted in bytes.
#[derive(Clone, Copy, Debug, PartialEq, Eq, Structural)]
pub struct Scaled {
    pub whole: u64,
    pub remainder: u64,
    pub unit: Unit,
}

/// `bytes` measured in `unit`: the quotient by the unit's size and what is left.
pub open spec fn scale(bytes: u64, unit: Unit) -> Scaled {
    Scaled {
        whole: (bytes as nat / unit.size()) as u64,
        remainder: (bytes as nat % unit.size()) as u64,
        unit,
    }
}

/// The byte count of `tb` whole terabytes, held at `u64::MAX` where it does not fit.
pub open spec fn bytes_of_terabytes(tb: u64) -> u64 {
    if tb * TB <= u64::MAX {
        (tb * TB) as u64
    } else {
        u64::MAX
    }
}

impl Scaled {
    /// The remainder is less than one of the unit.
    pub open spec fn wf(self) -> bool {
        (self.remainder as nat) < self.unit.size()
    }

    /// The byte count that this value stands for.
    pub open spec fn total_bytes(self) -> nat {
        self.whole as nat * self.unit.size() + self.remainder as nat
    }

    /// The smaller value of two in the same unit.
    pub open spec fn less_than(self, other: Scaled) -> bool {
        self.whole < other.whole || (self.whole == other.whole && self.remainder
            < other.remainder)
    }

    /// The label of the unit: "KB", "MB", "GB" or "TB".
    pub fn label(&self) -> (r: &'static str)
        ensures
            r@ == self.unit.label_spec(),
    {
        self.unit.label()
    }
}

impl ByteConverter {
    /// Holds exactly `bytes`.
    pub fn new(bytes: u64) -> (r: Self)
        ensures
            r.bytes == bytes,
    {
        ByteConverter { bytes }
    }

    /// The byte count measured in `unit`.
    pub fn convert(&self, unit: Unit) -> (r: Scaled)
        ensures
            r == scale(self.bytes, unit),
            r.wf(),
            r.total_bytes() == self.bytes,
    {
        let d = unit.divisor();
        let r = Scaled { whole: self.bytes / d, remainder: self.bytes % d, unit };
        proof {
            let b = self.bytes as nat;
            let n = d as nat;
            assert(b == (b / n) * n + b % n) by (nonlinear_arith)
                requires
                    n > 0,
            ;
            assert(b % n < n) by (nonlinear_arith)
                requires
                    n > 0,
            ;
        }
        r
    }

    /// The byte count in kilobytes (1024 bytes).
    pub fn to_kb(&self) -> (r: Scaled)
        ensures
            r == scale(self.bytes, Unit::Kilobyte),
            r.wf(),
            r.total_bytes() == self.bytes,
    {
        self.convert(Unit::Kilobyte)
    }

    /// The byte count in megabytes (1024 kilobytes).
    pub fn to_mb(&self) -> (r: Scaled)
        ensures
            r == scale(self.bytes, Unit::Megabyte),
            r.wf(),
            r.total_bytes() == self.bytes,
    {
        self.convert(Unit::Megabyte)
    }

    /// The byte count in gigabytes (1024 megabytes).
    pub fn to_gb(&self) -> (r: Scaled)
        ensures
            r == scale(self.bytes, Unit::Gigabyte),
            r.wf(),
            r.total_bytes() == self.bytes,
    {
        self.convert(Unit::Gigabyte)
    }

    /// The byte count in terabytes (1024 gigabytes).
    pub fn to_tb(&self) -> (r: Scaled)
        ensures
            r == scale(self.bytes, Unit::Terabyte),
            r.wf(),
            r.total_bytes() == self.bytes,
    {
        self.convert(Unit::Terabyte)
    }

    /// Holds `tb` whole terabytes in bytes, or `u64::MAX` where that many
    /// bytes do not fit.
    pub fn tb_to_byte(tb: u64) -> (r: Self)
        ensures
            r.bytes == bytes_of_terabytes(tb),
    {
        match tb.checked_mul(TB) {
            Some(bytes) => ByteConverter { bytes },
            None => ByteConverter { bytes: u64::MAX },
        }
    }
}

/// Terabytes made into bytes and measured in terabytes again come back whole,
/// with nothing left over, wherever the byte count fits.
pub proof fn lemma_terabyte_round_trip(tb: u64)
    requires
        tb * TB <= u64::MAX,
    ensures
        scale(bytes_of_terabytes(tb), Unit::Terabyte) == (Scaled {
            whole: tb,
            remainder: 0,
            unit: Unit::Terabyte,
        }),
{
    lemma_unit_constants();
    let n = Unit::Terabyte.size();
    assert(n == TB);
    let b = tb as nat * n;
    assert(b == bytes_of_terabytes(tb));
    assert(b / n == tb as nat && b % n == 0) by (nonlinear_arith)
        requires
            b == tb as nat * n,
            n > 0,
    ;
}

/// A larger byte count is a larger value in every unit.
pub proof fn lemma_conversion_monotonic(b1: u64, b2: u64, unit: Unit)
    requires
        b1 < b2,
    ensures
        scale(b1, unit).less_than(scale(b2, unit)),
{
    lemma_unit_constants();
    let n = unit.size();
    assert(n > 0);
    let (x, y) = (b1 as nat, b2 as nat);
    assert(x == (x / n) * n + x % n && x % n < n) by (nonlinear_arith)
        requires
            n > 0,
    ;
    assert(y == (y / n) * n + y % n && y % n < n) by (nonlinear_arith)
        requires
            n > 0,
    ;
    assert(x / n < y / n || (x / n == y / n && x % n < y % n)) by (nonlinear_arith)
        requires
            x < y,
            n > 0,
            x == (x / n) * n + x % n,
            y == (y / n) * n + y % n,
            x % n < n,
            y % n < n,
    {
        if x / n > y / n {
            assert((x / n) * n >= (y / n + 1) * n);
        }
    }
    assert(x / n <= x && x % n <= x) by (nonlinear_arith)
        requires
            n > 0,
    ;
    assert(y / n <= y && y % n <= y) by (nonlinear_arith)
        requires
            n > 0,
    ;
}

} // verus!
