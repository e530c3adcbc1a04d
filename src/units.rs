use vstd::prelude::*;

verus! {

/// Bytes in one kilobyte.
pub const KB: u64 = 1024;

/// Bytes in one megabyte.
pub const MB: u64 = 1024 * KB;

/// Bytes in one gigabyte.
pub const GB: u64 = 1024 * MB;

/// Bytes in one terabyte.
pub const TB: u64 = 1024 * GB;

/// `1024` raised to the power `n`.
pub open spec fn pow1024(n: nat) -> nat
    decreases n,
{
    if n == 0 {
        1
    } else {
        1024 * pow1024((n - 1) as nat)
    }
}

/// The unit constants are successive powers of 1024.
pub proof fn lemma_unit_constants()
    ensures
        KB == pow1024(1),
        MB == pow1024(2),
        GB == pow1024(3),
        TB == pow1024(4),
{
    assert(pow1024(0) == 1);
    assert(pow1024(1) == 1024);
    assert(pow1024(2) == 1024 * 1024);
    assert(pow1024(3) == 1024 * 1024 * 1024);
    assert(pow1024(4) == 1024 * 1024 * 1024 * 1024);
}

/// A binary storage unit.
#[derive(Clone, Copy, Debug, PartialEq, Eq, Structural)]
pub enum Unit {
    Kilobyte,
    Megabyte,
    Gigabyte,
    Terabyte,
}

impl Unit {
    /// The power of 1024 that one of this unit holds.
    pub open spec fn exponent(self) -> nat {
        match self {
            Unit::Kilobyte => 1,
            Unit::Megabyte => 2,
            Unit::Gigabyte => 3,
            Unit::Terabyte => 4,
        }
    }

    /// Bytes in one of this unit.
    pub open spec fn size(self) -> nat {
        pow1024(self.exponent())
    }

    /// The short label of this unit.
    pub open spec fn label_spec(self) -> Seq<char> {
        match self {
            Unit::Kilobyte => seq!['K', 'B'],
            Unit::Megabyte => seq!['M', 'B'],
            Unit::Gigabyte => seq!['G', 'B'],
            Unit::Terabyte => seq!['T', 'B'],
        }
    }

    /// Bytes in one of this unit.
    pub fn divisor(&self) -> (r: u64)
        ensures
            r as nat == self.size(),
            r > 0,
    {
        proof {
            lemma_unit_constants();
        }
        match self {
            Unit::Kilobyte => KB,
            Unit::Megabyte => MB,
            Unit::Gigabyte => GB,
            Unit::Terabyte => TB,
        }
    }

    /// The short label of this unit: "KB", "MB", "GB" or "TB".
    pub fn label(&self) -> (r: &'static str)
        ensures
            r@ == self.label_spec(),
    {
        match self {
            Unit::Kilobyte => {
                proof {
                    reveal_strlit("KB");
                }
                "KB"
            },
            Unit::Megabyte => {
                proof {
                    reveal_strlit("MB");
                }
                "MB"
            },
            Unit::Gigabyte => {
                proof {
                    reveal_strlit("GB");
                }
                "GB"
            },
            Unit::Terabyte => {
                proof {
                    reveal_strlit("TB");
                }
                "TB"
            },
        }
    }
}

} // verus!
