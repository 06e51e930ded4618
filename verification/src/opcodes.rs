//! The decoder that dispatches on the opcode's nibbles.
//!
//! The first nibble selects the group. The groups 0, 8, E and F are decided
//! by the low byte or the low nibble; in every other group the first nibble
//! alone decides, whatever the rest holds.

use crate::bitmasks::{
    low_12, low_byte, mask_000F, mask_00F0, mask_00FF, mask_0F00, mask_0FFF, mask_F000, nibble_0,
    nibble_1, nibble_2, nibble_3,
};
use crate::hexfmt::{hex_digits, with_upper_hex};
use crate::instructions::{Instruction, InstructionParser};
use vstd::prelude::*;

verus! {

/// The instruction of an opcode of group 8, by its low nibble.
pub open spec fn decode_group_8(opcode: u16) -> Option<Instruction> {
    let x = nibble_2(opcode);
    let y = nibble_1(opcode);
    let n = nibble_0(opcode);
    if n == 0x0 {
        Some(Instruction::LoadRegister(x, y))
    } else if n == 0x1 {
        Some(Instruction::Or(x, y))
    } else if n == 0x2 {
        Some(Instruction::And(x, y))
    } else if n == 0x3 {
        Some(Instruction::Xor(x, y))
    } else if n == 0x4 {
        Some(Instruction::AddRegister(x, y))
    } else if n == 0x5 {
        Some(Instruction::SubRegister(x, y))
    } else if n == 0x6 {
        Some(Instruction::ShiftRight(x))
    } else if n == 0x7 {
        Some(Instruction::SubNRegister(x, y))
    } else if n == 0xE {
        Some(Instruction::ShiftLeft(x))
    } else {
        None
    }
}

/// The instruction of an opcode of group E, by its low byte.
pub open spec fn decode_group_e(opcode: u16) -> Option<Instruction> {
    let x = nibble_2(opcode);
    let kk = low_byte(opcode);
    if kk == 0x9E {
        Some(Instruction::SkipKeyPress(x))
    } else if kk == 0xA1 {
        Some(Instruction::SkipNotKeyPress(x))
    } else {
        None
    }
}

/// The instruction of an opcode of group F, by its low byte.
pub open spec fn decode_group_f(opcode: u16) -> Option<Instruction> {
    let x = nibble_2(opcode);
    let kk = low_byte(opcode);
    if kk == 0x07 {
        Some(Instruction::LoadFromDelay(x))
    } else if kk == 0x0A {
        Some(Instruction::LoadKeyPress(x))
    } else if kk == 0x15 {
        Some(Instruction::LoadDelay(x))
    } else if kk == 0x18 {
        Some(Instruction::LoadSound(x))
    } else if kk == 0x1E {
        Some(Instruction::AddI(x))
    } else if kk == 0x29 {
        Some(Instruction::LoadFontSprite(x))
    } else if kk == 0x33 {
        Some(Instruction::LoadIBCD(x))
    } else if kk == 0x55 {
        Some(Instruction::StoreRegisters(x))
    } else if kk == 0x65 {
        Some(Instruction::LoadRegisters(x))
    } else {
        None
    }
}

/// The instruction that an opcode stands for, by its nibbles. Group 0 goes
/// by the low byte alone, and the groups 5 and 9 take any low nibble.
pub open spec fn decode_by_nibbles(opcode: u16) -> Option<Instruction> {
    let group = nibble_3(opcode);
    let x = nibble_2(opcode);
    let y = nibble_1(opcode);
    let kk = low_byte(opcode);
    let nnn = low_12(opcode);
    if group == 0x0 {
        if kk == 0xE0 {
            Some(Instruction::ClearScreen)
        } else if kk == 0xEE {
            Some(Instruction::Return)
        } else {
            Some(Instruction::SYS)
        }
    } else if group == 0x1 {
        Some(Instruction::Jump(nnn))
    } else if group == 0x2 {
        Some(Instruction::Call(nnn))
    } else if group == 0x3 {
        Some(Instruction::SkipEqualsByte(x, kk))
    } else if group == 0x4 {
        Some(Instruction::SkipNotEqualsByte(x, kk))
    } else if group == 0x5 {
        Some(Instruction::SkipEqualsRegister(x, y))
    } else if group == 0x6 {
        Some(Instruction::LoadByte(x, kk))
    } else if group == 0x7 {
        Some(Instruction::AddByte(x, kk))
    } else if group == 0x8 {
        decode_group_8(opcode)
    } else if group == 0x9 {
        Some(Instruction::SkipNotEqualRegister(x, y))
    } else if group == 0xA {
        Some(Instruction::LoadImmediate(nnn))
    } else if group == 0xB {
        Some(Instruction::JumpBase(nnn))
    } else if group == 0xC {
        Some(Instruction::Random(x, kk))
    } else if group == 0xD {
        Some(Instruction::DisplaySprite(x, y, nibble_0(opcode)))
    } else if group == 0xE {
        decode_group_e(opcode)
    } else {
        decode_group_f(opcode)
    }
}

/// The message for an opcode that this decoder takes for no instruction.
pub open spec fn invalid_opcode_text(opcode: u16) -> Seq<char> {
    "Invalid opcode: "@ + hex_digits(opcode as nat)
}

/// The decoder by nibbles.
pub struct OpcodeMaskParser {}

impl InstructionParser for OpcodeMaskParser {
    open spec fn decode(&self, opcode: u16) -> Option<Instruction> {
        decode_by_nibbles(opcode)
    }

    fn try_from(&self, opcode: u16) -> (res: Result<Instruction, String>)
        ensures
            res matches Err(message) ==> message@ == invalid_opcode_text(opcode),
    {
        match mask_F000(opcode) {
            0x0 => match mask_00FF(opcode) {
                0xE0 => Ok(Instruction::ClearScreen),
                0xEE => Ok(Instruction::Return),
                _ => Ok(Instruction::SYS),
            },
            0x1 => Ok(Instruction::Jump(mask_0FFF(opcode))),
            0x2 => Ok(Instruction::Call(mask_0FFF(opcode))),
            0x3 => Ok(Instruction::SkipEqualsByte(mask_0F00(opcode), mask_00FF(opcode))),
            0x4 => Ok(Instruction::SkipNotEqualsByte(mask_0F00(opcode), mask_00FF(opcode))),
            0x5 => Ok(Instruction::SkipEqualsRegister(mask_0F00(opcode), mask_00F0(opcode))),
            0x6 => Ok(Instruction::LoadByte(mask_0F00(opcode), mask_00FF(opcode))),
            0x7 => Ok(Instruction::AddByte(mask_0F00(opcode), mask_00FF(opcode))),
            0x8 => {
                let r1 = mask_0F00(opcode);
                let r2 = mask_00F0(opcode);
                match mask_000F(opcode) {
                    0x0 => Ok(Instruction::LoadRegister(r1, r2)),
                    0x1 => Ok(Instruction::Or(r1, r2)),
                    0x2 => Ok(Instruction::And(r1, r2)),
                    0x3 => Ok(Instruction::Xor(r1, r2)),
                    0x4 => Ok(Instruction::AddRegister(r1, r2)),
                    0x5 => Ok(Instruction::SubRegister(r1, r2)),
                    0x6 => Ok(Instruction::ShiftRight(r1)),
                    0x7 => Ok(Instruction::SubNRegister(r1, r2)),
                    0xE => Ok(Instruction::ShiftLeft(r1)),
                    _ => Err(with_upper_hex("Invalid opcode: ", opcode)),
                }
            },
            0x9 => Ok(Instruction::SkipNotEqualRegister(mask_0F00(opcode), mask_00F0(opcode))),
            0xA => Ok(Instruction::LoadImmediate(mask_0FFF(opcode))),
            0xB => Ok(Instruction::JumpBase(mask_0FFF(opcode))),
            0xC => Ok(Instruction::Random(mask_0F00(opcode), mask_00FF(opcode))),
            0xD => Ok(
                Instruction::DisplaySprite(
                    mask_0F00(opcode),
                    mask_00F0(opcode),
                    mask_000F(opcode),
                ),
            ),
            0xE => {
                let register = mask_0F00(opcode);
                match mask_00FF(opcode) {
                    0x9E => Ok(Instruction::SkipKeyPress(register)),
                    0xA1 => Ok(Instruction::SkipNotKeyPress(register)),
                    _ => Err(with_upper_hex("Invalid opcode: ", opcode)),
                }
            },
            _ => {
                let register = mask_0F00(opcode);
                match mask_00FF(opcode) {
                    0x07 => Ok(Instruction::LoadFromDelay(register)),
                    0x0A => Ok(Instruction::LoadKeyPress(register)),
                    0x15 => Ok(Instruction::LoadDelay(register)),
                    0x18 => Ok(Instruction::LoadSound(register)),
                    0x1E => Ok(Instruction::AddI(register)),
                    0x29 => Ok(Instruction::LoadFontSprite(register)),
                    0x33 => Ok(Instruction::LoadIBCD(register)),
                    0x55 => Ok(Instruction::StoreRegisters(register)),
                    0x65 => Ok(Instruction::LoadRegisters(register)),
                    _ => Err(with_upper_hex("Invalid opcode: ", opcode)),
                }
            },
        }
    }
}

} // verus!
