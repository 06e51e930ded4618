//! The machine as a mathematical value, and what each instruction, the
//! timers and a whole tick do to it.
//!
//! The program counter names the instruction that the next tick fetches. A
//! tick reads the opcode there, carries its instruction out, and then moves
//! the program counter on by two, unless the instruction asked to suppress
//! that. An instruction that skips the next one adds another two.

use crate::graphics::{blank_screen, collides, draw_sprite, screen_wf, Screen};
use crate::instructions::{Instruction, InstructionParser};
use crate::keyboard::{key_table, resolve};
use crate::memory::initial_memory;
use vstd::prelude::*;

verus! {

pub const STACK_SIZE: usize = 16;

pub const KEY_SIZE: usize = 16;

pub const REGISTER_COUNT: usize = 16;

pub const FLAG_REGISTER: usize = 15;

/// Instructions per second that the host is meant to run.
pub const CLOCK_SPEED: u64 = 500;

/// Decrements per second of the delay and sound timers.
pub const TIMER_FREQ: u64 = 60;

/// Milliseconds between two decrements of a timer.
pub const TIMER_PERIOD: u64 = 1_000 / TIMER_FREQ;

/// The highest address at which a two-byte opcode can be read.
pub const LAST_OPCODE_ADDRESS: u16 = 4094;

/// Why an instruction cannot be carried out, or a tick cannot fetch.
#[derive(Debug, PartialEq, Eq, Clone, Copy, Structural)]
pub enum Fault {
    /// The program counter would leave the addresses that hold an opcode.
    ProgramCounter,
    /// A register operand is not below 16.
    InvalidRegister,
    /// A call with all 16 stack slots in use, or a stack pointer above 16.
    StackOverflow,
    /// A return with no stack slot in use.
    StackUnderflow,
    /// An access through the index register beyond the end of memory.
    MemoryBounds,
    /// A sprite of more than 15 rows.
    SpriteHeight,
    /// A key test on a register that holds no key number.
    InvalidKey,
}

impl Fault {
    /// The message that reports this fault.
    pub open spec fn text(self) -> Seq<char> {
        match self {
            Fault::ProgramCounter => "PC out of bounds"@,
            Fault::InvalidRegister => "Register out of bounds"@,
            Fault::StackOverflow => "Stack overflow"@,
            Fault::StackUnderflow => "Stack underflow"@,
            Fault::MemoryBounds => "Memory access out of bounds"@,
            Fault::SpriteHeight => "Sprite Height exceeded maximum limit!"@,
            Fault::InvalidKey => "Key out of bounds"@,
        }
    }

    /// The message that reports this fault, as a string.
    pub fn message(&self) -> (message: String)
        ensures
            message@ == self.text(),
    {
        match self {
            Fault::ProgramCounter => "PC out of bounds".to_owned(),
            Fault::InvalidRegister => "Register out of bounds".to_owned(),
            Fault::StackOverflow => "Stack overflow".to_owned(),
            Fault::StackUnderflow => "Stack underflow".to_owned(),
            Fault::MemoryBounds => "Memory access out of bounds".to_owned(),
            Fault::SpriteHeight => "Sprite Height exceeded maximum limit!".to_owned(),
            Fault::InvalidKey => "Key out of bounds".to_owned(),
        }
    }
}

/// What a tick did.
#[derive(Debug, PartialEq, Eq, Clone, Copy, Structural)]
pub enum Outcome {
    /// The opcode was decoded and its instruction carried out.
    Executed(Instruction),
    /// The opcode stands for no instruction; the program counter moved past
    /// it and nothing was carried out.
    BadOpcode(u16),
}

/// The low eight bits of the sum of two bytes.
pub open spec fn sum_8(a: u8, b: u8) -> u8 {
    ((a + b) % 256) as u8
}

/// 1 where the sum of two bytes exceeds 255, else 0.
pub open spec fn carry_8(a: u8, b: u8) -> u8 {
    if a + b > 255 {
        1
    } else {
        0
    }
}

/// The low sixteen bits of the sum of two words.
pub open spec fn sum_16(a: u16, b: u16) -> u16 {
    ((a + b) % 65536) as u16
}

/// 1 where the sum of two words exceeds 65535, else 0.
pub open spec fn carry_16(a: u16, b: u16) -> u8 {
    if a + b > 65535 {
        1
    } else {
        0
    }
}

/// `a - b` modulo 256.
pub open spec fn difference_8(a: u8, b: u8) -> u8 {
    if a >= b {
        (a - b) as u8
    } else {
        (a - b + 256) as u8
    }
}

/// 1 where `a - b` needs no borrow, else 0.
pub open spec fn no_borrow(a: u8, b: u8) -> u8 {
    if a >= b {
        1
    } else {
        0
    }
}

/// The two bytes at `addr` and `addr + 1`, the first in the high half.
pub open spec fn opcode_at(mem: Seq<u8>, addr: int) -> u16 {
    (mem[addr] * 256 + mem[addr + 1]) as u16
}

/// The highest key number whose key is down, if any is.
pub open spec fn last_pressed(keys: Seq<bool>) -> Option<u8>
    decreases keys.len(),
{
    if keys.len() == 0 {
        None
    } else if keys.last() {
        Some((keys.len() - 1) as u8)
    } else {
        last_pressed(keys.drop_last())
    }
}

/// Memory after registers 0 to `x` are stored from address `i` on.
pub open spec fn store_registers(mem: Seq<u8>, v: Seq<u8>, i: int, x: int) -> Seq<u8> {
    Seq::new(mem.len(), |a: int| if i <= a <= i + x { v[a - i] } else { mem[a] })
}

/// The registers after 0 to `x` are loaded from address `i` on.
pub open spec fn load_registers(v: Seq<u8>, mem: Seq<u8>, i: int, x: int) -> Seq<u8> {
    Seq::new(v.len(), |k: int| if k <= x { mem[i + k] } else { v[k] })
}

/// Milliseconds from `last` to `now`; zero where the clock went backwards.
pub open spec fn elapsed(last: u64, now: u64) -> int {
    if now >= last {
        now - last
    } else {
        0
    }
}

/// A timer is decremented at `now`: it is not at zero and a full period has
/// passed since its last decrement.
pub open spec fn timer_due(register: u8, last: u64, now: u64) -> bool {
    register > 0 && elapsed(last, now) >= TIMER_PERIOD
}

/// A timer looked at at time `now`: its register and the time of its last
/// decrement, afterwards. A timer that is due goes down by one and notes
/// the time; one that is not stays as it is.
pub open spec fn timer_step(register: u8, last: u64, now: u64) -> (u8, u64) {
    if timer_due(register, last, now) {
        ((register - 1) as u8, now)
    } else {
        (register, last)
    }
}

/// The first of two faults that is present.
pub open spec fn first_fault(a: Option<Fault>, b: Option<Fault>) -> Option<Fault> {
    if a is Some {
        a
    } else {
        b
    }
}

/// The fault of a register operand.
pub open spec fn register_fault(x: u8) -> Option<Fault> {
    if x >= 16 {
        Some(Fault::InvalidRegister)
    } else {
        None
    }
}

/// The state of a machine whose decoder is a `T`.
#[verifier::ext_equal]
pub struct State<T> {
    pub parser: T,
    pub name: Seq<char>,
    pub headless: bool,
    /// The key map; a headless machine has none.
    pub keymap: Option<Map<i32, usize>>,
    /// The address of the instruction that is fetched next.
    pub counter: u16,
    /// The number of stack slots in use.
    pub stack_ptr: u8,
    pub mem: Seq<u8>,
    pub graphics: Screen,
    pub stack: Seq<u16>,
    pub keyboard: Seq<bool>,
    pub v: Seq<u8>,
    pub i: u16,
    pub delay_register: u8,
    pub sound_register: u8,
    /// The instruction asked that the program counter stay where it is
    /// when the tick ends, instead of moving on by two.
    pub skip_increment: bool,
    /// When the delay timer was decremented last, in milliseconds.
    pub delay_last: u64,
    /// When the sound timer was decremented last, in milliseconds.
    pub sound_last: u64,
    /// The tone should be audible.
    pub beep: bool,
}

impl<T> State<T> {
    /// Every part has its fixed size.
    pub open spec fn wf(self) -> bool {
        &&& self.mem.len() == 4096
        &&& screen_wf(self.graphics)
        &&& self.stack.len() == 16
        &&& self.keyboard.len() == 16
        &&& self.v.len() == 16
    }

    /// The state of a new machine: the fonts in memory, the program counter
    /// at 512, everything else zero.
    pub open spec fn initial(parser: T, name: Seq<char>, headless: bool) -> Self {
        State {
            parser,
            name,
            headless,
            keymap: if headless {
                None
            } else {
                Some(key_table())
            },
            counter: 512,
            stack_ptr: 0,
            mem: initial_memory(),
            graphics: blank_screen(),
            stack: Seq::new(16, |k: int| 0u16),
            keyboard: Seq::new(16, |k: int| false),
            v: Seq::new(16, |k: int| 0u8),
            i: 0,
            delay_register: 0,
            sound_register: 0,
            skip_increment: false,
            delay_last: 0,
            sound_last: 0,
            beep: false,
        }
    }

    /// The state after a reset: program counter at 512, memory, stack,
    /// registers and timers at zero. The screen, the keys and the timers'
    /// clocks stay.
    pub open spec fn reset(self) -> Self {
        State {
            counter: 512,
            stack_ptr: 0,
            mem: Seq::new(4096, |a: int| 0u8),
            stack: Seq::new(16, |k: int| 0u16),
            v: Seq::new(16, |k: int| 0u8),
            i: 0,
            delay_register: 0,
            sound_register: 0,
            ..self
        }
    }

    /// The value of register `x`.
    pub open spec fn reg(self, x: u8) -> u8 {
        self.v[x as int]
    }

    /// The value of the flag register.
    pub open spec fn flag(self) -> u8 {
        self.v[15]
    }

    /// Register `x` set to `value`.
    pub open spec fn with_reg(self, x: u8, value: u8) -> Self {
        State { v: self.v.update(x as int, value), ..self }
    }

    /// The flag register set to `value`.
    pub open spec fn with_flag(self, value: u8) -> Self {
        self.with_reg(15, value)
    }

    /// An arithmetic result: the flag is written first, the result last, so
    /// that the result stands where the target is the flag register itself.
    pub open spec fn with_result(self, x: u8, flag: u8, value: u8) -> Self {
        self.with_flag(flag).with_reg(x, value)
    }

    /// The program counter moved on by two.
    pub open spec fn advanced(self) -> Self {
        State { counter: (self.counter + 2) as u16, ..self }
    }

    /// The next instruction is skipped where `cond` holds.
    pub open spec fn skip_if(self, cond: bool) -> Self {
        if cond {
            self.advanced()
        } else {
            self
        }
    }

    /// The rows of the sprite that the index register points at.
    pub open spec fn sprite(self, height: u8) -> Seq<u8> {
        self.mem.subrange(self.i as int, self.i + height)
    }

    /// The fault of an instruction that skips where `cond` holds, on
    /// register operands `x` and `y`.
    pub open spec fn skip_fault(self, x: u8, y: u8, cond: bool) -> Option<Fault> {
        if x >= 16 || y >= 16 {
            Some(Fault::InvalidRegister)
        } else if cond && self.counter > 0xFFFD {
            Some(Fault::ProgramCounter)
        } else {
            None
        }
    }

    /// The fault of an access to `len` bytes from the index register on.
    pub open spec fn memory_fault(self, len: int) -> Option<Fault> {
        if self.i + len > 4096 {
            Some(Fault::MemoryBounds)
        } else {
            None
        }
    }

    /// Why `ins` cannot be carried out in this state, or `None` where it can.
    pub open spec fn fault(self, ins: Instruction) -> Option<Fault> {
        match ins {
            Instruction::ClearScreen => None,
            Instruction::Return => if self.stack_ptr == 0 {
                Some(Fault::StackUnderflow)
            } else if self.stack_ptr > 16 {
                Some(Fault::StackOverflow)
            } else {
                None
            },
            Instruction::SYS => None,
            Instruction::Jump(_) => None,
            Instruction::Call(_) => if self.stack_ptr >= 16 {
                Some(Fault::StackOverflow)
            } else if self.counter > 0xFFFD {
                Some(Fault::ProgramCounter)
            } else {
                None
            },
            Instruction::SkipEqualsByte(x, kk) => self.skip_fault(x, x, self.reg(x) == kk),
            Instruction::SkipNotEqualsByte(x, kk) => self.skip_fault(x, x, self.reg(x) != kk),
            Instruction::SkipEqualsRegister(x, y) => self.skip_fault(
                x,
                y,
                self.reg(x) == self.reg(y),
            ),
            Instruction::LoadByte(x, _) => register_fault(x),
            Instruction::AddByte(x, _) => register_fault(x),
            Instruction::LoadRegister(x, y) => first_fault(register_fault(x), register_fault(y)),
            Instruction::Or(x, y) => first_fault(register_fault(x), register_fault(y)),
            Instruction::And(x, y) => first_fault(register_fault(x), register_fault(y)),
            Instruction::Xor(x, y) => first_fault(register_fault(x), register_fault(y)),
            Instruction::AddRegister(x, y) => first_fault(register_fault(x), register_fault(y)),
            Instruction::SubRegister(x, y) => first_fault(register_fault(x), register_fault(y)),
            Instruction::ShiftRight(x) => register_fault(x),
            Instruction::SubNRegister(x, y) => first_fault(register_fault(x), register_fault(y)),
            Instruction::ShiftLeft(x) => register_fault(x),
            Instruction::SkipNotEqualRegister(x, y) => self.skip_fault(
                x,
                y,
                self.reg(x) != self.reg(y),
            ),
            Instruction::LoadImmediate(_) => None,
            Instruction::JumpBase(_) => None,
            Instruction::Random(x, _) => register_fault(x),
            Instruction::DisplaySprite(x, y, height) => if height > 15 {
                Some(Fault::SpriteHeight)
            } else {
                first_fault(
                    first_fault(register_fault(x), register_fault(y)),
                    self.memory_fault(height as int),
                )
            },
            Instruction::SkipKeyPress(x) => if x >= 16 {
                Some(Fault::InvalidRegister)
            } else if self.reg(x) >= 16 {
                Some(Fault::InvalidKey)
            } else {
                self.skip_fault(x, x, self.keyboard[self.reg(x) as int])
            },
            Instruction::SkipNotKeyPress(x) => if x >= 16 {
                Some(Fault::InvalidRegister)
            } else if self.reg(x) >= 16 {
                Some(Fault::InvalidKey)
            } else {
                self.skip_fault(x, x, !self.keyboard[self.reg(x) as int])
            },
            Instruction::LoadFromDelay(x) => register_fault(x),
            Instruction::LoadKeyPress(x) => register_fault(x),
            Instruction::LoadDelay(x) => register_fault(x),
            Instruction::LoadSound(x) => register_fault(x),
            Instruction::AddI(x) => register_fault(x),
            Instruction::LoadFontSprite(x) => register_fault(x),
            Instruction::LoadIBCD(x) => first_fault(register_fault(x), self.memory_fault(3)),
            Instruction::StoreRegisters(x) => first_fault(
                register_fault(x),
                self.memory_fault(x + 1),
            ),
            Instruction::LoadRegisters(x) => first_fault(
                register_fault(x),
                self.memory_fault(x + 1),
            ),
        }
    }

    /// The state after `ins` is carried out. `random` is the byte that a
    /// `Random` instruction draws; no other instruction reads it.
    ///
    /// Operands are read before anything is written. Every instruction
    /// that sets the program counter, a jump, a jump with base, a call and a
    /// return, suppresses the increment, so that the next fetch reads at its
    /// target. Both additions, of bytes and of words, write their carry to
    /// the flag register; the word addition of a jump with base does so
    /// too. A sprite sets the flag register to 1 where it
    /// erases a cell and to 0 where it erases none. A wait for a key takes
    /// the highest key that is down; while none is, it suppresses the
    /// increment, so that the same instruction is fetched again.
    pub open spec fn step(self, ins: Instruction, random: u8) -> Self {
        match ins {
            Instruction::ClearScreen => State { graphics: blank_screen(), ..self },
            Instruction::Return => State {
                stack_ptr: (self.stack_ptr - 1) as u8,
                counter: self.stack[self.stack_ptr - 1],
                skip_increment: true,
                ..self
            },
            Instruction::SYS => self,
            Instruction::Jump(address) => State { counter: address, skip_increment: true, ..self },
            Instruction::Call(address) => State {
                stack: self.stack.update(self.stack_ptr as int, (self.counter + 2) as u16),
                stack_ptr: (self.stack_ptr + 1) as u8,
                counter: address,
                skip_increment: true,
                ..self
            },
            Instruction::SkipEqualsByte(x, kk) => self.skip_if(self.reg(x) == kk),
            Instruction::SkipNotEqualsByte(x, kk) => self.skip_if(self.reg(x) != kk),
            Instruction::SkipEqualsRegister(x, y) => self.skip_if(self.reg(x) == self.reg(y)),
            Instruction::LoadByte(x, kk) => self.with_reg(x, kk),
            Instruction::AddByte(x, kk) => self.with_result(
                x,
                carry_8(self.reg(x), kk),
                sum_8(self.reg(x), kk),
            ),
            Instruction::LoadRegister(x, y) => self.with_reg(x, self.reg(y)),
            Instruction::Or(x, y) => self.with_reg(x, self.reg(x) | self.reg(y)),
            Instruction::And(x, y) => self.with_reg(x, self.reg(x) & self.reg(y)),
            Instruction::Xor(x, y) => self.with_reg(x, self.reg(x) ^ self.reg(y)),
            Instruction::AddRegister(x, y) => self.with_result(
                x,
                carry_8(self.reg(x), self.reg(y)),
                sum_8(self.reg(x), self.reg(y)),
            ),
            Instruction::SubRegister(x, y) => self.with_result(
                x,
                no_borrow(self.reg(x), self.reg(y)),
                difference_8(self.reg(x), self.reg(y)),
            ),
            Instruction::ShiftRight(x) => self.with_result(
                x,
                self.reg(x) % 2,
                self.reg(x) / 2,
            ),
            Instruction::SubNRegister(x, y) => self.with_result(
                x,
                no_borrow(self.reg(y), self.reg(x)),
                difference_8(self.reg(y), self.reg(x)),
            ),
            Instruction::ShiftLeft(x) => self.with_result(
                x,
                self.reg(x) / 128,
                ((self.reg(x) * 2) % 256) as u8,
            ),
            Instruction::SkipNotEqualRegister(x, y) => self.skip_if(self.reg(x) != self.reg(y)),
            Instruction::LoadImmediate(address) => State { i: address, ..self },
            Instruction::JumpBase(address) => State {
                counter: sum_16(address, self.reg(0) as u16),
                skip_increment: true,
                ..self.with_flag(carry_16(address, self.reg(0) as u16))
            },
            Instruction::Random(x, kk) => self.with_reg(x, random & kk),
            Instruction::DisplaySprite(x, y, height) => {
                let sprite = self.sprite(height);
                let left = self.reg(x) as int;
                let top = self.reg(y) as int;
                let drawn = State {
                    graphics: draw_sprite(self.graphics, sprite, left, top),
                    ..self
                };
                drawn.with_flag(
                    if collides(self.graphics, sprite, left, top) {
                        1
                    } else {
                        0
                    },
                )
            },
            Instruction::SkipKeyPress(x) => self.skip_if(self.keyboard[self.reg(x) as int]),
            Instruction::SkipNotKeyPress(x) => self.skip_if(!self.keyboard[self.reg(x) as int]),
            Instruction::LoadFromDelay(x) => self.with_reg(x, self.delay_register),
            Instruction::LoadKeyPress(x) => match last_pressed(self.keyboard) {
                Some(key) => self.with_reg(x, key),
                None => State { skip_increment: true, ..self },
            },
            Instruction::LoadDelay(x) => State { delay_register: self.reg(x), ..self },
            Instruction::LoadSound(x) => State { sound_register: self.reg(x), ..self },
            Instruction::AddI(x) => State {
                i: sum_16(self.i, self.reg(x) as u16),
                ..self.with_flag(carry_16(self.i, self.reg(x) as u16))
            },
            Instruction::LoadFontSprite(x) => State { i: (self.reg(x) * 5) as u16, ..self },
            Instruction::LoadIBCD(x) => State {
                mem: self.mem.update(self.i as int, self.reg(x) / 100).update(
                    self.i + 1,
                    (self.reg(x) / 10) % 10,
                ).update(self.i + 2, self.reg(x) % 10),
                ..self
            },
            Instruction::StoreRegisters(x) => State {
                mem: store_registers(self.mem, self.v, self.i as int, x as int),
                ..self
            },
            Instruction::LoadRegisters(x) => State {
                v: load_registers(self.v, self.mem, self.i as int, x as int),
                ..self
            },
        }
    }

    /// The state after the timers are looked at, at time `now`: each timer
    /// that is due goes down by one and notes the time. The tone is audible
    /// exactly where the sound timer is above zero after that.
    pub open spec fn run_timers(self, now: u64) -> Self {
        let sound = timer_step(self.sound_register, self.sound_last, now);
        let delay = timer_step(self.delay_register, self.delay_last, now);
        State {
            beep: sound.0 > 0,
            sound_register: sound.0,
            sound_last: sound.1,
            delay_register: delay.0,
            delay_last: delay.1,
            ..self
        }
    }

    /// Every key up.
    pub open spec fn release_keys(self) -> Self {
        State { keyboard: Seq::new(16, |k: int| false), ..self }
    }

    /// One of the host keys `keys` stands for the machine's key `k`.
    pub open spec fn pressed(self, keys: Seq<i32>, k: int) -> bool {
        self.keymap matches Some(keymap) && exists|j: int|
            0 <= j < keys.len() && #[trigger] resolve(keymap, keys[j]) == Some(k as usize)
    }

    /// The machine keys down that the host keys `keys` stand for, besides
    /// those that are down already. A host key that the key map does not
    /// hold is passed over, and so is every key where there is no key map.
    pub open spec fn press_keys(self, keys: Seq<i32>) -> Self {
        State {
            keyboard: Seq::new(16, |k: int| self.keyboard[k] || self.pressed(keys, k)),
            ..self
        }
    }

    /// The state after a fetch: a request to suppress the increment that is
    /// left from before is cleared, so that only the instruction of this
    /// tick can make one.
    pub open spec fn fetched(self) -> Self {
        State { skip_increment: false, ..self }
    }

    /// The state at the end of a tick: the program counter moved on by two
    /// unless the instruction asked to suppress that, and the request used
    /// up.
    pub open spec fn settled(self) -> Self {
        if self.skip_increment {
            State { skip_increment: false, ..self }
        } else {
            self.advanced()
        }
    }
}

impl<T: InstructionParser> State<T> {
    /// A whole tick at time `now`: fetch, decode, execute, program counter,
    /// timers, keys.
    ///
    /// The opcode is read at the program counter. Where it stands for an
    /// instruction, that is carried out and the program counter then moves
    /// on by two unless the instruction suppressed that; where it stands for
    /// none, nothing is carried out and the program counter moves on by two.
    /// Either way the timers are looked at and every key is released.
    ///
    /// A tick fails, and changes nothing, where the opcode would be read
    /// beyond the last opcode address or the instruction cannot be carried
    /// out.
    pub open spec fn tick(self, now: u64, random: u8) -> (Self, Result<Outcome, Fault>) {
        if self.counter > 4094 {
            (self, Err(Fault::ProgramCounter))
        } else {
            let fetched = self.fetched();
            let opcode = opcode_at(self.mem, self.counter as int);
            match self.parser.decode(opcode) {
                None => (
                    fetched.advanced().run_timers(now).release_keys(),
                    Ok(Outcome::BadOpcode(opcode)),
                ),
                Some(ins) => match fetched.fault(ins) {
                    Some(fault) => (self, Err(fault)),
                    None => (
                        fetched.step(ins, random).settled().run_timers(now).release_keys(),
                        Ok(Outcome::Executed(ins)),
                    ),
                },
            }
        }
    }
}

} // verus!
