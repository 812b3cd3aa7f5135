//! The ARM condition codes.

use vstd::prelude::*;

verus! {

/// The fifteen ARM condition codes, in encoding order: condition
/// number 0b1110 is AL; 0b1111 never encodes a condition.
#[derive(Clone, Copy, Debug, PartialEq, Eq, Structural)]
pub enum Condition {
    /// Equal (Z set).
    EQ,
    /// Not equal (Z clear).
    NE,
    /// Carry set (also HS).
    CS,
    /// Carry clear (also LO).
    CC,
    /// Minus, negative (N set).
    MI,
    /// Plus, positive or zero (N clear).
    PL,
    /// Overflow (V set).
    VS,
    /// No overflow (V clear).
    VC,
    /// Unsigned higher (C set and Z clear).
    HI,
    /// Unsigned lower or same (C clear or Z set).
    LS,
    /// Signed greater than or equal (N equals V).
    GE,
    /// Signed less than (N differs from V).
    LT,
    /// Signed greater than (Z clear and N equals V).
    GT,
    /// Signed less than or equal (Z set or N differs from V).
    LE,
    /// Always.
    AL,
}

/// The condition with the given number (0 through 14; other values
/// name AL, which callers rule out).
pub open spec fn spec_cond_of(n: int) -> Condition {
    if n == 0 {
        Condition::EQ
    } else if n == 1 {
        Condition::NE
    } else if n == 2 {
        Condition::CS
    } else if n == 3 {
        Condition::CC
    } else if n == 4 {
        Condition::MI
    } else if n == 5 {
        Condition::PL
    } else if n == 6 {
        Condition::VS
    } else if n == 7 {
        Condition::VC
    } else if n == 8 {
        Condition::HI
    } else if n == 9 {
        Condition::LS
    } else if n == 10 {
        Condition::GE
    } else if n == 11 {
        Condition::LT
    } else if n == 12 {
        Condition::GT
    } else if n == 13 {
        Condition::LE
    } else {
        Condition::AL
    }
}

impl Condition {
    /// The 4-bit condition number of the encoding.
    pub open spec fn num(self) -> int {
        match self {
            Condition::EQ => 0,
            Condition::NE => 1,
            Condition::CS => 2,
            Condition::CC => 3,
            Condition::MI => 4,
            Condition::PL => 5,
            Condition::VS => 6,
            Condition::VC => 7,
            Condition::HI => 8,
            Condition::LS => 9,
            Condition::GE => 10,
            Condition::LT => 11,
            Condition::GT => 12,
            Condition::LE => 13,
            Condition::AL => 14,
        }
    }

    /// The condition number as an executable value.
    pub fn number(self) -> (r: u16)
        ensures
            r == self.num(),
            r < 15,
    {
        match self {
            Condition::EQ => 0,
            Condition::NE => 1,
            Condition::CS => 2,
            Condition::CC => 3,
            Condition::MI => 4,
            Condition::PL => 5,
            Condition::VS => 6,
            Condition::VC => 7,
            Condition::HI => 8,
            Condition::LS => 9,
            Condition::GE => 10,
            Condition::LT => 11,
            Condition::GT => 12,
            Condition::LE => 13,
            Condition::AL => 14,
        }
    }

    /// The condition named by a 4-bit encoding field; 0b1111 encodes
    /// no condition.
    pub fn from_u16(value: u16) -> (r: Option<Condition>)
        ensures
            match r {
                Some(cond) => value < 15 && cond.num() == value && cond == spec_cond_of(
                    value as int,
                ),
                None => value >= 15,
            },
    {
        match value {
            0u16 => Some(Condition::EQ),
            1u16 => Some(Condition::NE),
            2u16 => Some(Condition::CS),
            3u16 => Some(Condition::CC),
            4u16 => Some(Condition::MI),
            5u16 => Some(Condition::PL),
            6u16 => Some(Condition::VS),
            7u16 => Some(Condition::VC),
            8u16 => Some(Condition::HI),
            9u16 => Some(Condition::LS),
            10u16 => Some(Condition::GE),
            11u16 => Some(Condition::LT),
            12u16 => Some(Condition::GT),
            13u16 => Some(Condition::LE),
            14u16 => Some(Condition::AL),
            _ => None,
        }
    }
}

} // verus!
