//! The fields of a 16-bit opcode.
//!
//! An opcode is read as four nibbles `n3 n2 n1 n0`, most significant first.
//! The spec functions give each field by division and remainder; the
//! executable functions compute the same values by shifting and masking.

use vstd::prelude::*;

verus! {

/// The nibble in bits 12 to 15: the primary group selector.
pub open spec fn nibble_3(opcode: u16) -> u8 {
    (opcode / 0x1000) as u8
}

/// The nibble in bits 8 to 11: the first register operand.
pub open spec fn nibble_2(opcode: u16) -> u8 {
    ((opcode / 0x100) % 0x10) as u8
}

/// The nibble in bits 4 to 7: the second register operand.
pub open spec fn nibble_1(opcode: u16) -> u8 {
    ((opcode / 0x10) % 0x10) as u8
}

/// The nibble in bits 0 to 3.
pub open spec fn nibble_0(opcode: u16) -> u8 {
    (opcode % 0x10) as u8
}

/// The low byte: an immediate value or a secondary selector.
pub open spec fn low_byte(opcode: u16) -> u8 {
    (opcode % 0x100) as u8
}

/// The low twelve bits: an address operand.
pub open spec fn low_12(opcode: u16) -> u16 {
    (opcode % 0x1000) as u16
}

#[allow(non_snake_case)]
pub fn mask_F000(opcode: u16) -> (nibble: u8)
    ensures
        nibble == nibble_3(opcode),
        nibble < 16,
{
    assert((opcode >> 12) & 0xF == opcode / 0x1000) by (bit_vector);
    ((opcode >> 12) & 0xF) as u8
}

#[allow(non_snake_case)]
pub fn mask_00FF(opcode: u16) -> (byte: u8)
    ensures
        byte == low_byte(opcode),
{
    assert(opcode & 0xFF == opcode % 0x100) by (bit_vector);
    (opcode & 0xFF) as u8
}

#[allow(non_snake_case)]
pub fn mask_0F00(opcode: u16) -> (nibble: u8)
    ensures
        nibble == nibble_2(opcode),
        nibble < 16,
{
    assert((opcode >> 8) & 0xF == (opcode / 0x100) % 0x10) by (bit_vector);
    ((opcode >> 8) & 0xF) as u8
}

#[allow(non_snake_case)]
pub fn mask_0FFF(opcode: u16) -> (address: u16)
    ensures
        address == low_12(opcode),
        address < 0x1000,
{
    assert(opcode & 0xFFF == opcode % 0x1000) by (bit_vector);
    opcode & 0xFFF
}

#[allow(non_snake_case)]
pub fn mask_00F0(opcode: u16) -> (nibble: u8)
    ensures
        nibble == nibble_1(opcode),
        nibble < 16,
{
    assert((opcode >> 4) & 0xF == (opcode / 0x10) % 0x10) by (bit_vector);
    ((opcode >> 4) & 0xF) as u8
}

#[allow(non_snake_case)]
pub fn mask_000F(opcode: u16) -> (nibble: u8)
    ensures
        nibble == nibble_0(opcode),
        nibble < 16,
{
    assert(opcode & 0xF == opcode % 0x10) by (bit_vector);
    (opcode & 0xF) as u8
}

/// An opcode is the sum of its four nibbles, each at its place.
pub proof fn lemma_nibbles_compose(opcode: u16)
    ensures
        opcode == nibble_3(opcode) * 0x1000 + nibble_2(opcode) * 0x100 + nibble_1(opcode) * 0x10
            + nibble_0(opcode),
        low_byte(opcode) == nibble_1(opcode) * 0x10 + nibble_0(opcode),
        low_12(opcode) == nibble_2(opcode) * 0x100 + low_byte(opcode),
{
    let n: int = opcode as int;
    assert(n == (n / 0x1000) * 0x1000 + n % 0x1000);
    assert(n % 0x1000 == ((n / 0x100) % 0x10) * 0x100 + n % 0x100);
    assert(n % 0x100 == ((n / 0x10) % 0x10) * 0x10 + n % 0x10);
}

} // verus!
