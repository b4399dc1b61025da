//! Bridge between the engine's flag convention (all bits set for true, all
//! bits clear for false) and `subtle::Choice`, which stores a single bit.

use subtle::Choice;
use vstd::prelude::*;

verus! {

/// `subtle::Choice`, carried through the library as an opaque value.
#[verifier::external_type_specification]
#[verifier::external_body]
pub struct ExChoice(Choice);

/// The byte that a `Choice` holds.
pub uninterp spec fn choice_byte(c: Choice) -> u8;

/// The all-ones engine flag that stands for true.
pub const ENGINE_TRUE: u32 = 0xffff_ffff;

/// The all-zeros engine flag that stands for false.
pub const ENGINE_FALSE: u32 = 0;

/// The bit that an engine flag stands for: 1 for the all-ones flag, 0 for the
/// all-zeros flag.
pub open spec fn flag_bit(flag: u32) -> u8 {
    if flag == ENGINE_TRUE {
        1
    } else {
        0
    }
}

/// The engine flag that a bit stands for: all ones for 1, all zeros for 0.
pub open spec fn bit_flag(bit: u8) -> u32 {
    if bit == 1 {
        ENGINE_TRUE
    } else {
        ENGINE_FALSE
    }
}

/// Relies on `impl From<u8> for subtle::Choice`: the choice stores the byte it
/// is given (behind an optimisation barrier that hands the byte back
/// unchanged). The conversion debug-asserts that the byte is 0 or 1.
#[verifier::external_body]
fn choice_from_byte(b: u8) -> (r: Choice)
    requires
        b == 0 || b == 1,
    ensures
        choice_byte(r) == b,
{
    Choice::from(b)
}

/// Relies on `subtle::Choice::unwrap_u8`, which returns the stored byte.
#[verifier::external_body]
fn choice_unwrap(c: &Choice) -> (r: u8)
    ensures
        r == choice_byte(*c),
{
    c.unwrap_u8()
}

/// Turns an engine flag into a `Choice` without branching on it: the flag is
/// negated modulo 2^32, which maps all ones to 1 and zero to 0, and truncated
/// to a byte.
pub fn to_choice(flag: u32) -> (r: Choice)
    requires
        flag == ENGINE_TRUE || flag == ENGINE_FALSE,
    ensures
        choice_byte(r) == flag_bit(flag),
{
    let zero_or_one: u32 = 0u32.wrapping_sub(flag);
    assert(zero_or_one == 0 || zero_or_one == 1);
    choice_from_byte(zero_or_one as u8)
}

/// Turns a `Choice` into an engine flag without branching on it: the stored
/// bit is negated modulo 2^32, which maps 1 to all ones and 0 to zero.
pub fn from_choice(c: Choice) -> (r: u32)
    ensures
        r as int == (0x1_0000_0000 - choice_byte(c)) % 0x1_0000_0000,
        choice_byte(c) == 0 || choice_byte(c) == 1 ==> r == bit_flag(choice_byte(c)),
{
    let zero_or_one: u32 = choice_unwrap(&c) as u32;
    0u32.wrapping_sub(zero_or_one)
}

/// Converting an engine flag to a choice and the choice back to an engine
/// flag gives the flag that was started from.
pub proof fn lemma_flag_round_trip(flag: u32)
    requires
        flag == ENGINE_TRUE || flag == ENGINE_FALSE,
    ensures
        bit_flag(flag_bit(flag)) == flag,
{
}

/// Converting a choice bit to an engine flag and the flag back to a choice
/// gives the bit that was started from.
pub proof fn lemma_bit_round_trip(bit: u8)
    requires
        bit == 0 || bit == 1,
    ensures
        flag_bit(bit_flag(bit)) == bit,
{
}

} // verus!
