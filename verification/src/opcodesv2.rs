//! The decoder that walks a table of masks and patterns.
//!
//! An entry holds a mask, the pattern that the masked opcode must equal, and
//! the family whose builder reads the operands. The first entry that matches
//! decides, so an entry with a narrower mask stands before a wider one of
//! the same group. The opcode 0 matches no entry.

use crate::bitmasks::{
    lemma_nibbles_compose, low_12, low_byte, nibble_0, nibble_1, nibble_2, nibble_3,
};
use crate::hexfmt::{hex_digits, with_upper_hex};
use crate::instructions::{Instruction, InstructionParser};
use crate::opcodes::decode_by_nibbles;
use crate::ophandlers;
use vstd::prelude::*;

verus! {

/// An opcode family: which instruction a table entry builds.
#[derive(Debug, PartialEq, Eq, Clone, Copy, Structural)]
pub enum Handler {
    ClearScreen,
    Return,
    SYS,
    Jump,
    Call,
    SkipEqualsByte,
    SkipNotEqualsByte,
    SkipEqualsRegister,
    LoadByte,
    AddByte,
    LoadRegister,
    Or,
    And,
    Xor,
    AddRegister,
    SubRegister,
    ShiftRight,
    SubNRegister,
    ShiftLeft,
    SkipNotEqualRegister,
    LoadImmediate,
    JumpBase,
    Random,
    DisplaySprite,
    SkipKeyPress,
    SkipNotKeyPress,
    LoadFromDelay,
    LoadKeyPress,
    LoadDelay,
    LoadSound,
    AddI,
    LoadFontSprite,
    LoadIBCD,
    StoreRegisters,
    LoadRegisters,
}

impl Handler {
    /// The instruction of this family with the operands of `opcode`.
    pub open spec fn instruction(self, opcode: u16) -> Instruction {
        match self {
            Handler::ClearScreen => Instruction::ClearScreen,
            Handler::Return => Instruction::Return,
            Handler::SYS => Instruction::SYS,
            Handler::Jump => Instruction::Jump(low_12(opcode)),
            Handler::Call => Instruction::Call(low_12(opcode)),
            Handler::SkipEqualsByte => Instruction::SkipEqualsByte(nibble_2(opcode), low_byte(opcode)),
            Handler::SkipNotEqualsByte => Instruction::SkipNotEqualsByte(nibble_2(opcode), low_byte(opcode)),
            Handler::SkipEqualsRegister => Instruction::SkipEqualsRegister(nibble_2(opcode), nibble_1(opcode)),
            Handler::LoadByte => Instruction::LoadByte(nibble_2(opcode), low_byte(opcode)),
            Handler::AddByte => Instruction::AddByte(nibble_2(opcode), low_byte(opcode)),
            Handler::LoadRegister => Instruction::LoadRegister(nibble_2(opcode), nibble_1(opcode)),
            Handler::Or => Instruction::Or(nibble_2(opcode), nibble_1(opcode)),
            Handler::And => Instruction::And(nibble_2(opcode), nibble_1(opcode)),
            Handler::Xor => Instruction::Xor(nibble_2(opcode), nibble_1(opcode)),
            Handler::AddRegister => Instruction::AddRegister(nibble_2(opcode), nibble_1(opcode)),
            Handler::SubRegister => Instruction::SubRegister(nibble_2(opcode), nibble_1(opcode)),
            Handler::ShiftRight => Instruction::ShiftRight(nibble_2(opcode)),
            Handler::SubNRegister => Instruction::SubNRegister(nibble_2(opcode), nibble_1(opcode)),
            Handler::ShiftLeft => Instruction::ShiftLeft(nibble_2(opcode)),
            Handler::SkipNotEqualRegister => Instruction::SkipNotEqualRegister(nibble_2(opcode), nibble_1(opcode)),
            Handler::LoadImmediate => Instruction::LoadImmediate(low_12(opcode)),
            Handler::JumpBase => Instruction::JumpBase(low_12(opcode)),
            Handler::Random => Instruction::Random(nibble_2(opcode), low_byte(opcode)),
            Handler::DisplaySprite => Instruction::DisplaySprite(nibble_2(opcode), nibble_1(opcode), nibble_0(opcode)),
            Handler::SkipKeyPress => Instruction::SkipKeyPress(nibble_2(opcode)),
            Handler::SkipNotKeyPress => Instruction::SkipNotKeyPress(nibble_2(opcode)),
            Handler::LoadFromDelay => Instruction::LoadFromDelay(nibble_2(opcode)),
            Handler::LoadKeyPress => Instruction::LoadKeyPress(nibble_2(opcode)),
            Handler::LoadDelay => Instruction::LoadDelay(nibble_2(opcode)),
            Handler::LoadSound => Instruction::LoadSound(nibble_2(opcode)),
            Handler::AddI => Instruction::AddI(nibble_2(opcode)),
            Handler::LoadFontSprite => Instruction::LoadFontSprite(nibble_2(opcode)),
            Handler::LoadIBCD => Instruction::LoadIBCD(nibble_2(opcode)),
            Handler::StoreRegisters => Instruction::StoreRegisters(nibble_2(opcode)),
            Handler::LoadRegisters => Instruction::LoadRegisters(nibble_2(opcode)),
        }
    }

    /// Builds the instruction of this family from `opcode`.
    pub fn build(&self, opcode: u16) -> (ins: Instruction)
        ensures
            ins == self.instruction(opcode),
    {
        match self {
            Handler::ClearScreen => ophandlers::handle0x00E0(opcode),
            Handler::Return => ophandlers::handle0x00EE(opcode),
            Handler::SYS => ophandlers::handle0x0NNN(opcode),
            Handler::Jump => ophandlers::handle0x1NNN(opcode),
            Handler::Call => ophandlers::handle0x2NNN(opcode),
            Handler::SkipEqualsByte => ophandlers::handle0x3XNN(opcode),
            Handler::SkipNotEqualsByte => ophandlers::handle0x4XNN(opcode),
            Handler::SkipEqualsRegister => ophandlers::handle0x5XY0(opcode),
            Handler::LoadByte => ophandlers::handle0x6XNN(opcode),
            Handler::AddByte => ophandlers::handle0x7XNN(opcode),
            Handler::LoadRegister => ophandlers::handle0x8XY0(opcode),
            Handler::Or => ophandlers::handle0x8XY1(opcode),
            Handler::And => ophandlers::handle0x8XY2(opcode),
            Handler::Xor => ophandlers::handle0x8XY3(opcode),
            Handler::AddRegister => ophandlers::handle0x8XY4(opcode),
            Handler::SubRegister => ophandlers::handle0x8XY5(opcode),
            Handler::ShiftRight => ophandlers::handle0x8XY6(opcode),
            Handler::SubNRegister => ophandlers::handle0x8XY7(opcode),
            Handler::ShiftLeft => ophandlers::handle0x8XYE(opcode),
            Handler::SkipNotEqualRegister => ophandlers::handle0x9XY0(opcode),
            Handler::LoadImmediate => ophandlers::handle0xANNN(opcode),
            Handler::JumpBase => ophandlers::handle0xBNNN(opcode),
            Handler::Random => ophandlers::handle0xCXNN(opcode),
            Handler::DisplaySprite => ophandlers::handle0xDXYN(opcode),
            Handler::SkipKeyPress => ophandlers::handle0xEX9E(opcode),
            Handler::SkipNotKeyPress => ophandlers::handle0xEXA1(opcode),
            Handler::LoadFromDelay => ophandlers::handle0xFX07(opcode),
            Handler::LoadKeyPress => ophandlers::handle0xFX0A(opcode),
            Handler::LoadDelay => ophandlers::handle0xFX15(opcode),
            Handler::LoadSound => ophandlers::handle0xFX18(opcode),
            Handler::AddI => ophandlers::handle0xFX1E(opcode),
            Handler::LoadFontSprite => ophandlers::handle0xFX29(opcode),
            Handler::LoadIBCD => ophandlers::handle0xFX33(opcode),
            Handler::StoreRegisters => ophandlers::handle0xFX55(opcode),
            Handler::LoadRegisters => ophandlers::handle0xFX65(opcode),
        }
    }
}

/// One line of the table.
#[derive(Debug, PartialEq, Eq, Clone, Copy, Structural)]
pub struct OpcodeTableEntry {
    pub opcode: u16,
    pub mask: u16,
    pub handler: Handler,
}

impl OpcodeTableEntry {
    /// The entry matches `opcode`: the bits under the mask equal the pattern.
    pub open spec fn matches(self, opcode: u16) -> bool {
        opcode & self.mask == self.opcode
    }
}

/// The number of entries, one for each opcode family.
pub const TABLE_SIZE: usize = 35;

/// The table's patterns, one for each entry.
pub const PATTERNS: [u16; 35] = [
    0x00E0, 0x00EE, 0x0000, 0x1000, 0x2000,
    0x3000, 0x4000, 0x5000, 0x6000, 0x7000,
    0x8000, 0x8001, 0x8002, 0x8003, 0x8004,
    0x8005, 0x8006, 0x8007, 0x800E, 0x9000,
    0xA000, 0xB000, 0xC000, 0xD000, 0xE09E,
    0xE0A1, 0xF007, 0xF00A, 0xF015, 0xF018,
    0xF01E, 0xF029, 0xF033, 0xF055, 0xF065,
];

/// The table's masks, one for each entry.
pub const MASKS: [u16; 35] = [
    0xFFFF, 0xFFFF, 0xF000, 0xF000, 0xF000,
    0xF000, 0xF000, 0xF00F, 0xF000, 0xF000,
    0xF00F, 0xF00F, 0xF00F, 0xF00F, 0xF00F,
    0xF00F, 0xF00F, 0xF00F, 0xF00F, 0xF00F,
    0xF000, 0xF000, 0xF000, 0xF000, 0xF0FF,
    0xF0FF, 0xF0FF, 0xF0FF, 0xF0FF, 0xF0FF,
    0xF0FF, 0xF0FF, 0xF0FF, 0xF0FF, 0xF0FF,
];

/// The table's families, one for each entry.
pub const HANDLERS: [Handler; 35] = [
    Handler::ClearScreen,
    Handler::Return,
    Handler::SYS,
    Handler::Jump,
    Handler::Call,
    Handler::SkipEqualsByte,
    Handler::SkipNotEqualsByte,
    Handler::SkipEqualsRegister,
    Handler::LoadByte,
    Handler::AddByte,
    Handler::LoadRegister,
    Handler::Or,
    Handler::And,
    Handler::Xor,
    Handler::AddRegister,
    Handler::SubRegister,
    Handler::ShiftRight,
    Handler::SubNRegister,
    Handler::ShiftLeft,
    Handler::SkipNotEqualRegister,
    Handler::LoadImmediate,
    Handler::JumpBase,
    Handler::Random,
    Handler::DisplaySprite,
    Handler::SkipKeyPress,
    Handler::SkipNotKeyPress,
    Handler::LoadFromDelay,
    Handler::LoadKeyPress,
    Handler::LoadDelay,
    Handler::LoadSound,
    Handler::AddI,
    Handler::LoadFontSprite,
    Handler::LoadIBCD,
    Handler::StoreRegisters,
    Handler::LoadRegisters,
];

/// Entry `k` of the table.
pub open spec fn table_entry(k: int) -> OpcodeTableEntry {
    OpcodeTableEntry { opcode: PATTERNS@[k], mask: MASKS@[k], handler: HANDLERS@[k] }
}

/// Reads entry `k` of the table.
pub fn entry_at(k: usize) -> (entry: OpcodeTableEntry)
    requires
        k < TABLE_SIZE,
    ensures
        entry == table_entry(k as int),
{
    OpcodeTableEntry { opcode: PATTERNS[k], mask: MASKS[k], handler: HANDLERS[k] }
}

/// The instruction that an opcode stands for, as the table has it: that of
/// the dispatch by nibbles, but the opcode 0 stands for nothing, only 00E0
/// and 00EE clear the screen and return, and the groups 5 and 9 ask for a
/// low nibble of 0.
pub open spec fn decode_by_table(opcode: u16) -> Option<Instruction> {
    let group = nibble_3(opcode);
    if opcode == 0 {
        None
    } else if opcode == 0x00E0 {
        Some(Instruction::ClearScreen)
    } else if opcode == 0x00EE {
        Some(Instruction::Return)
    } else if group == 0x0 {
        Some(Instruction::SYS)
    } else if (group == 0x5 || group == 0x9) && nibble_0(opcode) != 0 {
        None
    } else {
        decode_by_nibbles(opcode)
    }
}

/// The message for an opcode that no entry matches.
pub open spec fn not_found_text(opcode: u16) -> Seq<char> {
    "Opcode not found: "@ + hex_digits(opcode as nat)
}

/// What the bits under each of the table's four masks are, by division and
/// remainder.
pub proof fn lemma_masks(opcode: u16)
    ensures
        opcode & 0xFFFF == opcode,
        opcode & 0xF000 == nibble_3(opcode) * 0x1000,
        opcode & 0xF00F == nibble_3(opcode) * 0x1000 + nibble_0(opcode),
        opcode & 0xF0FF == nibble_3(opcode) * 0x1000 + low_byte(opcode),
{
    assert(opcode & 0xFFFF == opcode) by (bit_vector);
    assert(opcode & 0xF000 == (opcode / 0x1000) * 0x1000) by (bit_vector);
    assert(opcode & 0xF00F == (opcode / 0x1000) * 0x1000 + opcode % 0x10) by (bit_vector);
    assert(opcode & 0xF0FF == (opcode / 0x1000) * 0x1000 + opcode % 0x100) by (bit_vector);
}

/// The first entry that matches an opcode builds the instruction that the
/// opcode stands for.
pub proof fn lemma_first_match(opcode: u16, k: int)
    requires
        0 <= k < 35,
        opcode != 0,
        table_entry(k).matches(opcode),
        forall|j: int| 0 <= j < k ==> !#[trigger] table_entry(j).matches(opcode),
    ensures
        decode_by_table(opcode) == Some(table_entry(k).handler.instruction(opcode)),
{
    lemma_masks(opcode);
    lemma_nibbles_compose(opcode);
    if k >= 1 {
        assert(!table_entry(0).matches(opcode));
    }
    if k >= 2 {
        assert(!table_entry(1).matches(opcode));
    }
}

/// An opcode that no entry matches stands for no instruction.
pub proof fn lemma_no_match(opcode: u16)
    requires
        forall|j: int| 0 <= j < 35 ==> !#[trigger] table_entry(j).matches(opcode),
    ensures
        opcode != 0,
        decode_by_table(opcode) is None,
{
    lemma_masks(opcode);
    lemma_nibbles_compose(opcode);
    assert(!table_entry(0).matches(opcode));
    assert(!table_entry(1).matches(opcode));
    assert(!table_entry(2).matches(opcode));
    assert(!table_entry(3).matches(opcode));
    assert(!table_entry(4).matches(opcode));
    assert(!table_entry(5).matches(opcode));
    assert(!table_entry(6).matches(opcode));
    assert(!table_entry(7).matches(opcode));
    assert(!table_entry(8).matches(opcode));
    assert(!table_entry(9).matches(opcode));
    assert(!table_entry(10).matches(opcode));
    assert(!table_entry(11).matches(opcode));
    assert(!table_entry(12).matches(opcode));
    assert(!table_entry(13).matches(opcode));
    assert(!table_entry(14).matches(opcode));
    assert(!table_entry(15).matches(opcode));
    assert(!table_entry(16).matches(opcode));
    assert(!table_entry(17).matches(opcode));
    assert(!table_entry(18).matches(opcode));
    assert(!table_entry(19).matches(opcode));
    assert(!table_entry(20).matches(opcode));
    assert(!table_entry(21).matches(opcode));
    assert(!table_entry(22).matches(opcode));
    assert(!table_entry(23).matches(opcode));
    assert(!table_entry(24).matches(opcode));
    assert(!table_entry(25).matches(opcode));
    assert(!table_entry(26).matches(opcode));
    assert(!table_entry(27).matches(opcode));
    assert(!table_entry(28).matches(opcode));
    assert(!table_entry(29).matches(opcode));
    assert(!table_entry(30).matches(opcode));
    assert(!table_entry(31).matches(opcode));
    assert(!table_entry(32).matches(opcode));
    assert(!table_entry(33).matches(opcode));
    assert(!table_entry(34).matches(opcode));
}

/// The decoder by table.
pub struct OpcodeTable {}

impl InstructionParser for OpcodeTable {
    open spec fn decode(&self, opcode: u16) -> Option<Instruction> {
        decode_by_table(opcode)
    }

    fn try_from(&self, opcode: u16) -> (res: Result<Instruction, String>)
        ensures
            res matches Err(message) ==> message@ == not_found_text(opcode),
    {
        let mut k: usize = 0;
        while k < TABLE_SIZE
            invariant
                k <= 35,
                forall|j: int|
                    0 <= j < k ==> opcode == 0 || !#[trigger] table_entry(j).matches(opcode),
            decreases 35 - k,
        {
            let entry = entry_at(k);
            if opcode != 0 && (opcode & entry.mask == entry.opcode) {
                proof {
                    lemma_first_match(opcode, k as int);
                }
                return Ok(entry.handler.build(opcode));
            }
            k += 1;
        }
        proof {
            if opcode != 0 {
                lemma_no_match(opcode);
            }
        }
        Err(with_upper_hex("Opcode not found: ", opcode))
    }
}

} // verus!
