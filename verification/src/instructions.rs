//! The instruction set and the decoder interface.

use vstd::prelude::*;

verus! {

type Address = u16;

type Register = u8;

type Data = u8;

/// One decoded instruction. A register operand is the register's number, an
/// address operand is twelve bits wide when it comes out of a decoder.
#[derive(Debug, PartialEq, Eq, Clone, Copy, Structural)]
pub enum Instruction {
    /// 00E0 - CLS
    ClearScreen,
    /// 00EE - RET
    Return,
    /// 0nnn - SYS addr
    SYS,
    /// 1nnn - JP addr
    Jump(Address),
    /// 2nnn - CALL addr
    Call(Address),
    /// 3xkk - SE Vx, byte
    SkipEqualsByte(Register, Data),
    /// 4xkk - SNE Vx, byte
    SkipNotEqualsByte(Register, Data),
    /// 5xy0 - SE Vx, Vy
    SkipEqualsRegister(Register, Register),
    /// 6xkk - LD Vx, byte
    LoadByte(Register, Data),
    /// 7xkk - ADD Vx, byte
    AddByte(Register, Data),
    /// 8xy0 - LD Vx, Vy
    LoadRegister(Register, Register),
    /// 8xy1 - OR Vx, Vy
    Or(Register, Register),
    /// 8xy2 - AND Vx, Vy
    And(Register, Register),
    /// 8xy3 - XOR Vx, Vy
    Xor(Register, Register),
    /// 8xy4 - ADD Vx, Vy
    AddRegister(Register, Register),
    /// 8xy5 - SUB Vx, Vy
    SubRegister(Register, Register),
    /// 8xy6 - SHR Vx
    ShiftRight(Register),
    /// 8xy7 - SUBN Vx, Vy
    SubNRegister(Register, Register),
    /// 8xyE - SHL Vx
    ShiftLeft(Register),
    /// 9xy0 - SNE Vx, Vy
    SkipNotEqualRegister(Register, Register),
    /// Annn - LD I, addr
    LoadImmediate(Address),
    /// Bnnn - JP V0, addr
    JumpBase(Address),
    /// Cxkk - RND Vx, byte
    Random(Register, Data),
    /// Dxyn - DRW Vx, Vy, nibble
    DisplaySprite(Register, Register, u8),
    /// Ex9E - SKP Vx
    SkipKeyPress(Register),
    /// ExA1 - SKNP Vx
    SkipNotKeyPress(Register),
    /// Fx07 - LD Vx, DT
    LoadFromDelay(Register),
    /// Fx0A - LD Vx, K
    LoadKeyPress(Register),
    /// Fx15 - LD DT, Vx
    LoadDelay(Register),
    /// Fx18 - LD ST, Vx
    LoadSound(Register),
    /// Fx1E - ADD I, Vx
    AddI(Register),
    /// Fx29 - LD F, Vx
    LoadFontSprite(Register),
    /// Fx33 - LD B, Vx
    LoadIBCD(Register),
    /// Fx55 - LD [I], Vx
    StoreRegisters(Register),
    /// Fx65 - LD Vx, [I]
    LoadRegisters(Register),
}

/// A decoder from opcodes to instructions.
///
/// `decode` is the decoder's mathematical meaning; `try_from` computes it and
/// turns a failure into a message that carries the opcode.
pub trait InstructionParser {
    /// The instruction that `opcode` stands for, or `None` where it stands
    /// for none.
    spec fn decode(&self, opcode: u16) -> Option<Instruction>;

    fn try_from(&self, opcode: u16) -> (res: Result<Instruction, String>)
        ensures
            res is Ok <==> self.decode(opcode) is Some,
            res matches Ok(ins) ==> self.decode(opcode) == Some(ins),
    ;
}

} // verus!
