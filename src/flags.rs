use vstd::prelude::*;

verus! {

/// The three condition flags; exactly one is held at a time.
#[derive(Clone, Copy, Debug, PartialEq, Eq, Structural)]
pub enum Flag {
    Positive,
    Zero,
    Negative,
}

/// The flag that a register value defines: zero first, then the sign bit.
pub open spec fn flag_for(v: u16) -> Flag {
    if v == 0 {
        Flag::Zero
    } else if v >> 15u16 == 1u16 {
        Flag::Negative
    } else {
        Flag::Positive
    }
}

/// The bit that a flag occupies in the condition register.
pub open spec fn flag_bits(f: Flag) -> u16 {
    match f {
        Flag::Positive => 1,
        Flag::Zero => 2,
        Flag::Negative => 4,
    }
}

/// The condition register's content after defining a register with `v`.
pub open spec fn cond_for(v: u16) -> u16 {
    flag_bits(flag_for(v))
}

impl Flag {
    /// The bit of this flag in the condition register.
    pub fn bits(&self) -> (r: u16)
        ensures
            r == flag_bits(*self),
    {
        match self {
            Flag::Positive => 1,
            Flag::Zero => 2,
            Flag::Negative => 4,
        }
    }
}

/// The flag defined by the register value `v`.
pub fn flag_of(v: u16) -> (r: Flag)
    ensures
        r == flag_for(v),
{
    if v == 0 {
        Flag::Zero
    } else if v >> 15 == 1 {
        Flag::Negative
    } else {
        Flag::Positive
    }
}

/// A register value defines ZERO exactly when it is zero, NEGATIVE exactly
/// when it is non-zero with its top bit set, and POSITIVE otherwise; the
/// condition register then holds exactly one of the three flag bits.
pub proof fn lemma_flags_exclusive(v: u16)
    ensures
        (flag_for(v) == Flag::Zero) <==> v == 0,
        (flag_for(v) == Flag::Negative) <==> (v != 0 && v >> 15u16 == 1u16),
        (flag_for(v) == Flag::Positive) <==> (v != 0 && v >> 15u16 != 1u16),
        cond_for(v) == 1 || cond_for(v) == 2 || cond_for(v) == 4,
        cond_for(v) == 2 <==> v == 0,
        cond_for(v) == 4 <==> (v != 0 && v >> 15u16 == 1u16),
        cond_for(v) == 1 <==> (v != 0 && v >> 15u16 != 1u16),
{
}

} // verus!
