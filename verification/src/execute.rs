//! The execution engine: what the machine does for each instruction.

use crate::instructions::{Instruction, InstructionParser};
use crate::machine::Machine;
use crate::state::{carry_16, carry_8, sum_16, sum_8, Fault, State, FLAG_REGISTER};
use rand::Rng;
use vstd::prelude::*;

verus! {

/// Draws one byte from the thread's generator of the `rand` crate, with
/// `rand::thread_rng` and `Rng::gen`. The byte is uniform over 0 to 255;
/// nothing is claimed of its value.
#[verifier::external_body]
fn random_byte() -> (byte: u8) {
    rand::thread_rng().gen::<u8>()
}

/// `ins` moves the program counter, the stack or the screen as a whole.
spec fn is_control(ins: Instruction) -> bool {
    ins is ClearScreen
        || ins is Return
        || ins is SYS
        || ins is Jump
        || ins is Call
        || ins is SkipEqualsByte
        || ins is SkipNotEqualsByte
        || ins is SkipEqualsRegister
        || ins is SkipNotEqualRegister
        || ins is JumpBase
        || ins is SkipKeyPress
        || ins is SkipNotKeyPress
}

/// `ins` computes a register from registers and immediate values.
spec fn is_arithmetic(ins: Instruction) -> bool {
    ins is LoadByte
        || ins is AddByte
        || ins is LoadRegister
        || ins is Or
        || ins is And
        || ins is Xor
        || ins is AddRegister
        || ins is SubNRegister
        || ins is SubRegister
        || ins is ShiftRight
        || ins is ShiftLeft
        || ins is Random
}

/// `ins` moves data between registers, memory, timers, keys and the screen.
spec fn is_transfer(ins: Instruction) -> bool {
    ins is LoadImmediate
        || ins is LoadFromDelay
        || ins is LoadDelay
        || ins is LoadSound
        || ins is AddI
        || ins is LoadFontSprite
        || ins is LoadIBCD
        || ins is StoreRegisters
        || ins is LoadRegisters
        || ins is DisplaySprite
        || ins is LoadKeyPress
}

impl<T: InstructionParser> Machine<T> {
    /// Moves the program counter on by one instruction.
    pub fn inc_pc(&mut self)
        requires
            old(self).counter <= 0xFFFD,
        ensures
            final(self)@ == old(self)@.advanced(),
    {
        self.counter += 2;
    }

    /// Adds two bytes, with the carry in the flag register.
    pub fn add(&mut self, d1: u8, d2: u8) -> (sum: u8)
        ensures
            sum == sum_8(d1, d2),
            final(self)@ == old(self)@.with_flag(carry_8(d1, d2)),
    {
        let res: u16 = d1 as u16 + d2 as u16;
        self.v[FLAG_REGISTER] = if res > 255 {
            1
        } else {
            0
        };
        assert(self@ =~= old(self)@.with_flag(carry_8(d1, d2)));
        (res % 256) as u8
    }

    /// Adds two words, with the carry in the flag register.
    pub fn add_16(&mut self, d1: u16, d2: u16) -> (sum: u16)
        ensures
            sum == sum_16(d1, d2),
            final(self)@ == old(self)@.with_flag(carry_16(d1, d2)),
    {
        let res: u32 = d1 as u32 + d2 as u32;
        self.v[FLAG_REGISTER] = if res > 65535 {
            1
        } else {
            0
        };
        assert(self@ =~= old(self)@.with_flag(carry_16(d1, d2)));
        (res % 65536) as u16
    }

    /// Writes a register.
    fn set_register(&mut self, x: u8, value: u8)
        requires
            x < 16,
        ensures
            final(self)@ == old(self)@.with_reg(x, value),
    {
        self.v[x as usize] = value;
        assert(self@ =~= old(self)@.with_reg(x, value));
    }

    /// Writes the flag register and then a register: the two writes of an
    /// arithmetic instruction.
    fn set_result(&mut self, x: u8, flag: u8, value: u8)
        requires
            x < 16,
        ensures
            final(self)@ == old(self)@.with_result(x, flag, value),
    {
        self.v[FLAG_REGISTER] = flag;
        self.v[x as usize] = value;
        assert(self@ =~= old(self)@.with_result(x, flag, value));
    }

    /// Why `ins` cannot be carried out now, or `None` where it can.
    pub fn fault(&self, ins: &Instruction) -> (fault: Option<Fault>)
        ensures
            fault == self@.fault(*ins),
    {
        match *ins {
            Instruction::ClearScreen
            | Instruction::SYS
            | Instruction::Jump(_)
            | Instruction::LoadImmediate(_)
            | Instruction::JumpBase(_) => None,
            Instruction::Return => {
                if self.stack_ptr == 0 {
                    Some(Fault::StackUnderflow)
                } else if self.stack_ptr > 16 {
                    Some(Fault::StackOverflow)
                } else {
                    None
                }
            },
            Instruction::Call(_) => {
                if self.stack_ptr >= 16 {
                    Some(Fault::StackOverflow)
                } else if self.counter > 0xFFFD {
                    Some(Fault::ProgramCounter)
                } else {
                    None
                }
            },
            Instruction::SkipEqualsByte(x, kk) => {
                if x >= 16 {
                    Some(Fault::InvalidRegister)
                } else {
                    self.skip_fault(self.v[x as usize] == kk)
                }
            },
            Instruction::SkipNotEqualsByte(x, kk) => {
                if x >= 16 {
                    Some(Fault::InvalidRegister)
                } else {
                    self.skip_fault(self.v[x as usize] != kk)
                }
            },
            Instruction::SkipEqualsRegister(x, y) => {
                if x >= 16 || y >= 16 {
                    Some(Fault::InvalidRegister)
                } else {
                    self.skip_fault(self.v[x as usize] == self.v[y as usize])
                }
            },
            Instruction::SkipNotEqualRegister(x, y) => {
                if x >= 16 || y >= 16 {
                    Some(Fault::InvalidRegister)
                } else {
                    self.skip_fault(self.v[x as usize] != self.v[y as usize])
                }
            },
            Instruction::LoadByte(x, _)
            | Instruction::AddByte(x, _)
            | Instruction::ShiftRight(x)
            | Instruction::ShiftLeft(x)
            | Instruction::Random(x, _)
            | Instruction::LoadFromDelay(x)
            | Instruction::LoadKeyPress(x)
            | Instruction::LoadDelay(x)
            | Instruction::LoadSound(x)
            | Instruction::AddI(x)
            | Instruction::LoadFontSprite(x) => {
                if x >= 16 {
                    Some(Fault::InvalidRegister)
                } else {
                    None
                }
            },
            Instruction::LoadRegister(x, y)
            | Instruction::Or(x, y)
            | Instruction::And(x, y)
            | Instruction::Xor(x, y)
            | Instruction::AddRegister(x, y)
            | Instruction::SubRegister(x, y)
            | Instruction::SubNRegister(x, y) => {
                if x >= 16 || y >= 16 {
                    Some(Fault::InvalidRegister)
                } else {
                    None
                }
            },
            Instruction::DisplaySprite(x, y, height) => {
                if height > 15 {
                    Some(Fault::SpriteHeight)
                } else if x >= 16 || y >= 16 {
                    Some(Fault::InvalidRegister)
                } else {
                    self.memory_fault(height as u16)
                }
            },
            Instruction::SkipKeyPress(x) => {
                if x >= 16 {
                    Some(Fault::InvalidRegister)
                } else if self.v[x as usize] >= 16 {
                    Some(Fault::InvalidKey)
                } else {
                    self.skip_fault(self.keyboard[self.v[x as usize] as usize])
                }
            },
            Instruction::SkipNotKeyPress(x) => {
                if x >= 16 {
                    Some(Fault::InvalidRegister)
                } else if self.v[x as usize] >= 16 {
                    Some(Fault::InvalidKey)
                } else {
                    self.skip_fault(!self.keyboard[self.v[x as usize] as usize])
                }
            },
            Instruction::LoadIBCD(x) => {
                if x >= 16 {
                    Some(Fault::InvalidRegister)
                } else {
                    self.memory_fault(3)
                }
            },
            Instruction::StoreRegisters(x) | Instruction::LoadRegisters(x) => {
                if x >= 16 {
                    Some(Fault::InvalidRegister)
                } else {
                    self.memory_fault(x as u16 + 1)
                }
            },
        }
    }

    fn skip_fault(&self, cond: bool) -> (fault: Option<Fault>)
        ensures
            fault == self@.skip_fault(0, 0, cond),
    {
        if cond && self.counter > 0xFFFD {
            Some(Fault::ProgramCounter)
        } else {
            None
        }
    }

    fn memory_fault(&self, len: u16) -> (fault: Option<Fault>)
        requires
            len <= 16,
        ensures
            fault == self@.memory_fault(len as int),
    {
        if self.i as u32 + len as u32 > 4096 {
            Some(Fault::MemoryBounds)
        } else {
            None
        }
    }

    /// Stores registers 0 to `x` in memory, from the index register on.
    fn store_registers(&mut self, x: u8)
        requires
            x < 16,
            old(self).i + x < 4096,
        ensures
            final(self)@ == old(self)@.step(Instruction::StoreRegisters(x), 0),
    {
        let last = x as usize;
        let base = self.i as usize;
        let mut n: usize = 0;
        while n <= last
            invariant
                n <= last + 1,
                last == x,
                x < 16,
                base == self.i,
                base + last < 4096,
                self@ == (State { mem: self.mem@, ..old(self)@ }),
                forall|a: int| base <= a < base + n ==> self.mem@[a] == self.v@[a - base],
                forall|a: int|
                    0 <= a < 4096 && !(base <= a < base + n) ==> self.mem@[a] == old(
                        self,
                    ).mem@[a],
            decreases last + 1 - n,
        {
            self.mem.mem[base + n] = self.v[n];
            n += 1;
        }
        assert(self@ =~= old(self)@.step(Instruction::StoreRegisters(x), 0));
    }

    /// Loads registers 0 to `x` from memory, from the index register on.
    fn load_registers(&mut self, x: u8)
        requires
            x < 16,
            old(self).i + x < 4096,
        ensures
            final(self)@ == old(self)@.step(Instruction::LoadRegisters(x), 0),
    {
        let last = x as usize;
        let base = self.i as usize;
        let mut n: usize = 0;
        while n <= last
            invariant
                n <= last + 1,
                last == x,
                x < 16,
                base == self.i,
                base + last < 4096,
                self@ == (State { v: self.v@, ..old(self)@ }),
                forall|k: int| 0 <= k < n ==> self.v@[k] == self.mem@[base + k],
                forall|k: int| n <= k < 16 ==> self.v@[k] == old(self).v@[k],
            decreases last + 1 - n,
        {
            self.v[n] = self.mem.mem[base + n];
            n += 1;
        }
        assert(self@ =~= old(self)@.step(Instruction::LoadRegisters(x), 0));
    }

    /// Carries out an instruction of control flow.
    fn execute_control(&mut self, ins: &Instruction)
        requires
            is_control(*ins),
            old(self)@.fault(*ins) is None,
        ensures
            final(self)@ == old(self)@.step(*ins, 0),
    {
        match *ins {
            Instruction::ClearScreen => {
                self.graphics.clear();
            },
            Instruction::Return => {
                self.stack_ptr -= 1;
                self.counter = self.stack[self.stack_ptr as usize];
                self.skip_increment = true;
            },
            Instruction::SYS => {},
            Instruction::Jump(address) => {
                self.counter = address;
                self.skip_increment = true;
            },
            Instruction::Call(address) => {
                self.stack[self.stack_ptr as usize] = self.counter + 2;
                self.stack_ptr += 1;
                self.counter = address;
                self.skip_increment = true;
            },
            Instruction::SkipEqualsByte(reg, byte) => {
                if self.v[reg as usize] == byte {
                    self.inc_pc();
                }
            },
            Instruction::SkipNotEqualsByte(reg, byte) => {
                if self.v[reg as usize] != byte {
                    self.inc_pc();
                }
            },
            Instruction::SkipEqualsRegister(reg1, reg2) => {
                if self.v[reg1 as usize] == self.v[reg2 as usize] {
                    self.inc_pc();
                }
            },
            Instruction::SkipNotEqualRegister(reg1, reg2) => {
                if self.v[reg1 as usize] != self.v[reg2 as usize] {
                    self.inc_pc();
                }
            },
            Instruction::JumpBase(address) => {
                self.counter = self.add_16(address, self.v[0x0] as u16);
                self.skip_increment = true;
            },
            Instruction::SkipKeyPress(reg) => {
                let key = self.keyboard[self.v[reg as usize] as usize];
                if key {
                    self.inc_pc();
                }
            },
            Instruction::SkipNotKeyPress(reg) => {
                let key = self.keyboard[self.v[reg as usize] as usize];
                if !key {
                    self.inc_pc();
                }
            },
            _ => {},
        };
        assert(self@ =~= old(self)@.step(*ins, 0));
    }

    /// Carries out an arithmetic or logic instruction.
    fn execute_arithmetic(&mut self, ins: &Instruction, random: u8)
        requires
            is_arithmetic(*ins),
            old(self)@.fault(*ins) is None,
        ensures
            final(self)@ == old(self)@.step(*ins, random),
    {
        match *ins {
            Instruction::LoadByte(reg, byte) => {
                self.set_register(reg, byte);
            },
            Instruction::AddByte(reg, byte) => {
                let sum = self.add(self.v[reg as usize], byte);
                self.set_register(reg, sum);
            },
            Instruction::LoadRegister(reg1, reg2) => {
                self.set_register(reg1, self.v[reg2 as usize]);
            },
            Instruction::Or(reg1, reg2) => {
                self.set_register(reg1, self.v[reg1 as usize] | self.v[reg2 as usize]);
            },
            Instruction::And(reg1, reg2) => {
                self.set_register(reg1, self.v[reg1 as usize] & self.v[reg2 as usize]);
            },
            Instruction::Xor(reg1, reg2) => {
                self.set_register(reg1, self.v[reg1 as usize] ^ self.v[reg2 as usize]);
            },
            Instruction::AddRegister(reg1, reg2) => {
                let sum = self.add(self.v[reg1 as usize], self.v[reg2 as usize]);
                self.set_register(reg1, sum);
            },
            Instruction::SubNRegister(reg1, reg2) => {
                let a = self.v[reg2 as usize];
                let b = self.v[reg1 as usize];
                let flag: u8 = if a >= b {
                    1
                } else {
                    0
                };
                self.set_result(reg1, flag, a.wrapping_sub(b));
            },
            Instruction::SubRegister(reg1, reg2) => {
                let a = self.v[reg1 as usize];
                let b = self.v[reg2 as usize];
                let flag: u8 = if a >= b {
                    1
                } else {
                    0
                };
                self.set_result(reg1, flag, a.wrapping_sub(b));
            },
            Instruction::ShiftRight(reg) => {
                let a = self.v[reg as usize];
                assert(a & 0x1 == a % 2) by (bit_vector);
                self.set_result(reg, a & 0x1, a / 2);
            },
            Instruction::ShiftLeft(reg) => {
                let a = self.v[reg as usize];
                assert((a & 0x80) >> 7 == a / 128) by (bit_vector);
                self.set_result(reg, (a & 0x80) >> 7, a.wrapping_mul(2));
            },
            Instruction::Random(register, data) => {
                self.set_register(register, random & data);
            },
            _ => {},
        }
    }

    /// Carries out an instruction that moves data.
    fn execute_transfer(&mut self, ins: &Instruction)
        requires
            is_transfer(*ins),
            old(self)@.fault(*ins) is None,
        ensures
            final(self)@ == old(self)@.step(*ins, 0),
    {
        match *ins {
            Instruction::LoadImmediate(address) => {
                self.i = address;
            },
            Instruction::LoadFromDelay(register) => {
                self.v[register as usize] = self.delay_register;
            },
            Instruction::LoadDelay(register) => {
                self.delay_register = self.v[register as usize];
            },
            Instruction::LoadSound(register) => {
                self.sound_register = self.v[register as usize];
            },
            Instruction::AddI(register) => {
                self.i = self.add_16(self.i, self.v[register as usize] as u16);
            },
            Instruction::LoadFontSprite(register) => {
                self.i = self.v[register as usize] as u16 * 5;
            },
            Instruction::LoadIBCD(register) => {
                let value = self.v[register as usize];
                let base = self.i as usize;
                self.mem.mem[base] = value / 100;
                self.mem.mem[base + 1] = (value / 10) % 10;
                self.mem.mem[base + 2] = value % 10;
            },
            Instruction::StoreRegisters(register) => {
                self.store_registers(register);
            },
            Instruction::LoadRegisters(register) => {
                self.load_registers(register);
            },
            Instruction::DisplaySprite(reg_x, reg_y, h) => {
                let vx = self.v[reg_x as usize];
                let vy = self.v[reg_y as usize];
                let flipped = self.graphics.draw(&self.mem, self.i, vx, vy, h);
                self.v[FLAG_REGISTER] = if flipped {
                    1
                } else {
                    0
                };
            },
            Instruction::LoadKeyPress(reg) => {
                match self.last_key() {
                    Some(key) => {
                        self.v[reg as usize] = key;
                    },
                    None => {
                        self.skip_increment = true;
                    },
                }
            },
            _ => {},
        };
        assert(self@ =~= old(self)@.step(*ins, 0));
    }

    /// Carries out `ins`, with `random` as the byte that a `Random`
    /// instruction draws.
    pub fn execute_with(&mut self, ins: &Instruction, random: u8)
        requires
            old(self)@.fault(*ins) is None,
        ensures
            final(self)@ == old(self)@.step(*ins, random),
    {
        match *ins {
            Instruction::ClearScreen
            | Instruction::Return
            | Instruction::SYS
            | Instruction::Jump(_)
            | Instruction::Call(_)
            | Instruction::SkipEqualsByte(_, _)
            | Instruction::SkipNotEqualsByte(_, _)
            | Instruction::SkipEqualsRegister(_, _)
            | Instruction::SkipNotEqualRegister(_, _)
            | Instruction::JumpBase(_)
            | Instruction::SkipKeyPress(_)
            | Instruction::SkipNotKeyPress(_) => self.execute_control(ins),
            Instruction::LoadByte(_, _)
            | Instruction::AddByte(_, _)
            | Instruction::LoadRegister(_, _)
            | Instruction::Or(_, _)
            | Instruction::And(_, _)
            | Instruction::Xor(_, _)
            | Instruction::AddRegister(_, _)
            | Instruction::SubNRegister(_, _)
            | Instruction::SubRegister(_, _)
            | Instruction::ShiftRight(_)
            | Instruction::ShiftLeft(_)
            | Instruction::Random(_, _) => self.execute_arithmetic(ins, random),
            Instruction::LoadImmediate(_)
            | Instruction::LoadFromDelay(_)
            | Instruction::LoadDelay(_)
            | Instruction::LoadSound(_)
            | Instruction::AddI(_)
            | Instruction::LoadFontSprite(_)
            | Instruction::LoadIBCD(_)
            | Instruction::StoreRegisters(_)
            | Instruction::LoadRegisters(_)
            | Instruction::DisplaySprite(_, _, _)
            | Instruction::LoadKeyPress(_) => self.execute_transfer(ins),
        }
    }

    /// Carries out `ins`. A `Random` instruction draws its byte from the
    /// thread's random number generator.
    pub fn execute(&mut self, ins: &Instruction)
        requires
            old(self)@.fault(*ins) is None,
        ensures
            exists|random: u8| final(self)@ == #[trigger] old(self)@.step(*ins, random),
            !(*ins is Random) ==> final(self)@ == old(self)@.step(*ins, 0),
    {
        let random = match *ins {
            Instruction::Random(_, _) => random_byte(),
            _ => 0,
        };
        self.execute_with(ins, random);
    }
}

} // verus!
