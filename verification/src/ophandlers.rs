//! One builder for each opcode family: it reads the operands out of an
//! opcode of that family.

use crate::bitmasks::{
    low_12, low_byte, mask_000F, mask_00F0, mask_00FF, mask_0F00, mask_0FFF, nibble_0, nibble_1,
    nibble_2,
};
use crate::instructions::Instruction;
use vstd::prelude::*;

verus! {

#[allow(non_snake_case)]
pub fn handle0x00E0(_opcode: u16) -> (ins: Instruction)
    ensures
        ins == Instruction::ClearScreen,
{
    Instruction::ClearScreen
}

#[allow(non_snake_case)]
pub fn handle0x00EE(_opcode: u16) -> (ins: Instruction)
    ensures
        ins == Instruction::Return,
{
    Instruction::Return
}

#[allow(non_snake_case)]
pub fn handle0x0NNN(_opcode: u16) -> (ins: Instruction)
    ensures
        ins == Instruction::SYS,
{
    Instruction::SYS
}

#[allow(non_snake_case)]
pub fn handle0x1NNN(opcode: u16) -> (ins: Instruction)
    ensures
        ins == Instruction::Jump(low_12(opcode)),
{
    Instruction::Jump(mask_0FFF(opcode))
}

#[allow(non_snake_case)]
pub fn handle0x2NNN(opcode: u16) -> (ins: Instruction)
    ensures
        ins == Instruction::Call(low_12(opcode)),
{
    Instruction::Call(mask_0FFF(opcode))
}

#[allow(non_snake_case)]
pub fn handle0x3XNN(opcode: u16) -> (ins: Instruction)
    ensures
        ins == Instruction::SkipEqualsByte(nibble_2(opcode), low_byte(opcode)),
{
    Instruction::SkipEqualsByte(mask_0F00(opcode), mask_00FF(opcode))
}

#[allow(non_snake_case)]
pub fn handle0x4XNN(opcode: u16) -> (ins: Instruction)
    ensures
        ins == Instruction::SkipNotEqualsByte(nibble_2(opcode), low_byte(opcode)),
{
    Instruction::SkipNotEqualsByte(mask_0F00(opcode), mask_00FF(opcode))
}

#[allow(non_snake_case)]
pub fn handle0x5XY0(opcode: u16) -> (ins: Instruction)
    ensures
        ins == Instruction::SkipEqualsRegister(nibble_2(opcode), nibble_1(opcode)),
{
    Instruction::SkipEqualsRegister(mask_0F00(opcode), mask_00F0(opcode))
}

#[allow(non_snake_case)]
pub fn handle0x6XNN(opcode: u16) -> (ins: Instruction)
    ensures
        ins == Instruction::LoadByte(nibble_2(opcode), low_byte(opcode)),
{
    Instruction::LoadByte(mask_0F00(opcode), mask_00FF(opcode))
}

#[allow(non_snake_case)]
pub fn handle0x7XNN(opcode: u16) -> (ins: Instruction)
    ensures
        ins == Instruction::AddByte(nibble_2(opcode), low_byte(opcode)),
{
    Instruction::AddByte(mask_0F00(opcode), mask_00FF(opcode))
}

#[allow(non_snake_case)]
pub fn handle0x8XY0(opcode: u16) -> (ins: Instruction)
    ensures
        ins == Instruction::LoadRegister(nibble_2(opcode), nibble_1(opcode)),
{
    Instruction::LoadRegister(mask_0F00(opcode), mask_00F0(opcode))
}

#[allow(non_snake_case)]
pub fn handle0x8XY1(opcode: u16) -> (ins: Instruction)
    ensures
        ins == Instruction::Or(nibble_2(opcode), nibble_1(opcode)),
{
    Instruction::Or(mask_0F00(opcode), mask_00F0(opcode))
}

#[allow(non_snake_case)]
pub fn handle0x8XY2(opcode: u16) -> (ins: Instruction)
    ensures
        ins == Instruction::And(nibble_2(opcode), nibble_1(opcode)),
{
    Instruction::And(mask_0F00(opcode), mask_00F0(opcode))
}

#[allow(non_snake_case)]
pub fn handle0x8XY3(opcode: u16) -> (ins: Instruction)
    ensures
        ins == Instruction::Xor(nibble_2(opcode), nibble_1(opcode)),
{
    Instruction::Xor(mask_0F00(opcode), mask_00F0(opcode))
}

#[allow(non_snake_case)]
pub fn handle0x8XY4(opcode: u16) -> (ins: Instruction)
    ensures
        ins == Instruction::AddRegister(nibble_2(opcode), nibble_1(opcode)),
{
    Instruction::AddRegister(mask_0F00(opcode), mask_00F0(opcode))
}

#[allow(non_snake_case)]
pub fn handle0x8XY5(opcode: u16) -> (ins: Instruction)
    ensures
        ins == Instruction::SubRegister(nibble_2(opcode), nibble_1(opcode)),
{
    Instruction::SubRegister(mask_0F00(opcode), mask_00F0(opcode))
}

#[allow(non_snake_case)]
pub fn handle0x8XY6(opcode: u16) -> (ins: Instruction)
    ensures
        ins == Instruction::ShiftRight(nibble_2(opcode)),
{
    Instruction::ShiftRight(mask_0F00(opcode))
}

#[allow(non_snake_case)]
pub fn handle0x8XY7(opcode: u16) -> (ins: Instruction)
    ensures
        ins == Instruction::SubNRegister(nibble_2(opcode), nibble_1(opcode)),
{
    Instruction::SubNRegister(mask_0F00(opcode), mask_00F0(opcode))
}

#[allow(non_snake_case)]
pub fn handle0x8XYE(opcode: u16) -> (ins: Instruction)
    ensures
        ins == Instruction::ShiftLeft(nibble_2(opcode)),
{
    Instruction::ShiftLeft(mask_0F00(opcode))
}

#[allow(non_snake_case)]
pub fn handle0x9XY0(opcode: u16) -> (ins: Instruction)
    ensures
        ins == Instruction::SkipNotEqualRegister(nibble_2(opcode), nibble_1(opcode)),
{
    Instruction::SkipNotEqualRegister(mask_0F00(opcode), mask_00F0(opcode))
}

#[allow(non_snake_case)]
pub fn handle0xANNN(opcode: u16) -> (ins: Instruction)
    ensures
        ins == Instruction::LoadImmediate(low_12(opcode)),
{
    Instruction::LoadImmediate(mask_0FFF(opcode))
}

#[allow(non_snake_case)]
pub fn handle0xBNNN(opcode: u16) -> (ins: Instruction)
    ensures
        ins == Instruction::JumpBase(low_12(opcode)),
{
    Instruction::JumpBase(mask_0FFF(opcode))
}

#[allow(non_snake_case)]
pub fn handle0xCXNN(opcode: u16) -> (ins: Instruction)
    ensures
        ins == Instruction::Random(nibble_2(opcode), low_byte(opcode)),
{
    Instruction::Random(mask_0F00(opcode), mask_00FF(opcode))
}

#[allow(non_snake_case)]
pub fn handle0xDXYN(opcode: u16) -> (ins: Instruction)
    ensures
        ins == Instruction::DisplaySprite(nibble_2(opcode), nibble_1(opcode), nibble_0(opcode)),
{
    Instruction::DisplaySprite(mask_0F00(opcode), mask_00F0(opcode), mask_000F(opcode))
}

#[allow(non_snake_case)]
pub fn handle0xEX9E(opcode: u16) -> (ins: Instruction)
    ensures
        ins == Instruction::SkipKeyPress(nibble_2(opcode)),
{
    Instruction::SkipKeyPress(mask_0F00(opcode))
}

#[allow(non_snake_case)]
pub fn handle0xEXA1(opcode: u16) -> (ins: Instruction)
    ensures
        ins == Instruction::SkipNotKeyPress(nibble_2(opcode)),
{
    Instruction::SkipNotKeyPress(mask_0F00(opcode))
}

#[allow(non_snake_case)]
pub fn handle0xFX07(opcode: u16) -> (ins: Instruction)
    ensures
        ins == Instruction::LoadFromDelay(nibble_2(opcode)),
{
    Instruction::LoadFromDelay(mask_0F00(opcode))
}

#[allow(non_snake_case)]
pub fn handle0xFX0A(opcode: u16) -> (ins: Instruction)
    ensures
        ins == Instruction::LoadKeyPress(nibble_2(opcode)),
{
    Instruction::LoadKeyPress(mask_0F00(opcode))
}

#[allow(non_snake_case)]
pub fn handle0xFX15(opcode: u16) -> (ins: Instruction)
    ensures
        ins == Instruction::LoadDelay(nibble_2(opcode)),
{
    Instruction::LoadDelay(mask_0F00(opcode))
}

#[allow(non_snake_case)]
pub fn handle0xFX18(opcode: u16) -> (ins: Instruction)
    ensures
        ins == Instruction::LoadSound(nibble_2(opcode)),
{
    Instruction::LoadSound(mask_0F00(opcode))
}

#[allow(non_snake_case)]
pub fn handle0xFX1E(opcode: u16) -> (ins: Instruction)
    ensures
        ins == Instruction::AddI(nibble_2(opcode)),
{
    Instruction::AddI(mask_0F00(opcode))
}

#[allow(non_snake_case)]
pub fn handle0xFX29(opcode: u16) -> (ins: Instruction)
    ensures
        ins == Instruction::LoadFontSprite(nibble_2(opcode)),
{
    Instruction::LoadFontSprite(mask_0F00(opcode))
}

#[allow(non_snake_case)]
pub fn handle0xFX33(opcode: u16) -> (ins: Instruction)
    ensures
        ins == Instruction::LoadIBCD(nibble_2(opcode)),
{
    Instruction::LoadIBCD(mask_0F00(opcode))
}

#[allow(non_snake_case)]
pub fn handle0xFX55(opcode: u16) -> (ins: Instruction)
    ensures
        ins == Instruction::StoreRegisters(nibble_2(opcode)),
{
    Instruction::StoreRegisters(mask_0F00(opcode))
}

#[allow(non_snake_case)]
pub fn handle0xFX65(opcode: u16) -> (ins: Instruction)
    ensures
        ins == Instruction::LoadRegisters(nibble_2(opcode)),
{
    Instruction::LoadRegisters(mask_0F00(opcode))
}

} // verus!
