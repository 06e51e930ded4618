//! One tick of the machine: fetch, decode, execute, program counter,
//! timers, keys.

use crate::instructions::{Instruction, InstructionParser};
use crate::machine::Machine;
use crate::state::{opcode_at, Fault, Outcome, State, LAST_OPCODE_ADDRESS};
use vstd::prelude::*;

verus! {

/// A tick that started in `before` at time `now`, with `random` as the byte
/// drawn, ended in `after` with the result `res`.
pub open spec fn tick_agrees<T: InstructionParser>(
    before: State<T>,
    now: u64,
    random: u8,
    after: State<T>,
    res: Result<Outcome, String>,
) -> bool {
    &&& after == before.tick(now, random).0
    &&& match res {
        Ok(outcome) => before.tick(now, random).1 == Ok::<Outcome, Fault>(outcome),
        Err(message) => before.tick(now, random).1 matches Err(fault) && message@ == fault.text(),
    }
}

impl<T: InstructionParser> Machine<T> {
    /// The opcode made of the first two bytes of `b`, the first in the high
    /// half.
    pub fn get_opcode(b: &[u8]) -> (opcode: u16)
        requires
            b@.len() >= 2,
        ensures
            opcode == opcode_at(b@, 0),
    {
        let high = b[0] as u16;
        let low = b[1] as u16;
        assert(high << 8 | low == high * 256 + low) by (bit_vector)
            requires
                high < 256,
                low < 256,
        ;
        high << 8 | low
    }

    /// Reads the opcode at the program counter, and clears a request to
    /// suppress the increment that is left from before. Fails, and changes
    /// nothing, where that would read beyond the last opcode address.
    pub fn instruction_fetch(&mut self) -> (res: Result<u16, String>)
        ensures
            match res {
                Ok(opcode) => old(self)@.counter <= 4094 && final(self)@ == old(self)@.fetched()
                    && opcode == opcode_at(old(self)@.mem, old(self)@.counter as int),
                Err(message) => old(self)@.counter > 4094 && final(self)@ == old(self)@
                    && message@ == Fault::ProgramCounter.text(),
            },
    {
        if self.counter > LAST_OPCODE_ADDRESS {
            return Err(Fault::ProgramCounter.message());
        }
        self.skip_increment = false;
        let pc: usize = self.counter as usize;
        let bytes = [self.mem.mem[pc], self.mem.mem[pc + 1]];
        Ok(Self::get_opcode(&bytes))
    }

    /// Ends a tick: moves the program counter on by two unless the
    /// instruction asked to suppress that.
    fn settle(&mut self)
        requires
            old(self).skip_increment || old(self).counter <= 0xFFFD,
        ensures
            final(self)@ == old(self)@.settled(),
    {
        if self.skip_increment {
            self.skip_increment = false;
        } else {
            self.inc_pc();
        }
    }

    /// Decodes an opcode with the machine's decoder.
    pub fn instruction_decode(&mut self, opcode: u16) -> (ins: Option<Instruction>)
        ensures
            ins == old(self)@.parser.decode(opcode),
            final(self)@ == old(self)@,
    {
        match self.instruction_parser.try_from(opcode) {
            Ok(x) => Some(x),
            Err(_) => None,
        }
    }

    /// One tick at time `now`: fetch, decode, execute, program counter,
    /// timers, keys. With `random` given, a `Random` instruction takes that
    /// byte; without, it draws one.
    fn tick_inner(&mut self, now: u64, random: Option<u8>) -> (res: Result<Outcome, String>)
        ensures
            exists|byte: u8|
                (random matches Some(given) ==> byte == given) && #[trigger] tick_agrees(
                    old(self)@,
                    now,
                    byte,
                    final(self)@,
                    res,
                ),
    {
        let skip_increment = self.skip_increment;
        let ghost given_or_zero = match random {
            Some(given) => given,
            None => 0u8,
        };
        let opcode = match self.instruction_fetch() {
            Ok(opcode) => opcode,
            Err(message) => {
                assert(tick_agrees(old(self)@, now, given_or_zero, self@, Err(message)));
                return Err(message);
            },
        };
        match self.instruction_decode(opcode) {
            Some(ins) => {
                match self.fault(&ins) {
                    Some(fault) => {
                        let ghost fetched = self@;
                        self.skip_increment = skip_increment;
                        let message = fault.message();
                        proof {
                            assert(self@ =~= old(self)@);
                            assert(fetched == old(self)@.fetched());
                            assert(tick_agrees(
                                old(self)@,
                                now,
                                given_or_zero,
                                self@,
                                Err(message),
                            ));
                        }
                        Err(message)
                    },
                    None => {
                        let ghost fetched = self@;
                        match random {
                            Some(given) => self.execute_with(&ins, given),
                            None => self.execute(&ins),
                        }
                        let ghost byte = choose|byte: u8|
                            (random matches Some(given) ==> byte == given) && self@
                                == #[trigger] fetched.step(ins, byte);
                        self.settle();
                        self.handle_timers(now);
                        self.reset_keyboard();
                        proof {
                            assert(tick_agrees(
                                old(self)@,
                                now,
                                byte,
                                self@,
                                Ok(Outcome::Executed(ins)),
                            ));
                        }
                        Ok(Outcome::Executed(ins))
                    },
                }
            },
            None => {
                self.inc_pc();
                self.handle_timers(now);
                self.reset_keyboard();
                assert(tick_agrees(
                    old(self)@,
                    now,
                    given_or_zero,
                    self@,
                    Ok(Outcome::BadOpcode(opcode)),
                ));
                Ok(Outcome::BadOpcode(opcode))
            },
        }
    }

    /// One tick at time `now`, in milliseconds: fetches, decodes and
    /// carries out the instruction at the program counter, moves the
    /// program counter on, looks at the timers and releases the keys. An
    /// error ends the run and leaves the machine as it was.
    pub fn tick(&mut self, now: u64) -> (res: Result<Outcome, String>)
        ensures
            exists|random: u8| #[trigger] tick_agrees(old(self)@, now, random, final(self)@, res),
    {
        self.tick_inner(now, None)
    }

    /// One tick at time `now`, with `random` as the byte that a `Random`
    /// instruction draws.
    pub fn tick_with(&mut self, now: u64, random: u8) -> (res: Result<Outcome, String>)
        ensures
            tick_agrees(old(self)@, now, random, final(self)@, res),
    {
        self.tick_inner(now, Some(random))
    }
}

} // verus!
