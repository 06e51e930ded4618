//! The machine: its memory, registers, stack, timers, keys and screen.

use crate::graphics::GraphicsMemory;
use crate::instructions::InstructionParser;
use crate::keyboard::{resolve, Keyboard};
use crate::memory::{initial_memory, load_image, Memory, FONTS, MEMORY_SIZE, PROGRAM_OFFSET};
use crate::state::{last_pressed, State, KEY_SIZE, REGISTER_COUNT, STACK_SIZE, TIMER_PERIOD};
use vstd::prelude::*;

verus! {

/// The machine. Time is counted in milliseconds on a clock of the host's
/// choice that starts at zero when the machine is made.
pub struct Machine<T: InstructionParser> {
    pub name: String,
    pub headless: bool,
    pub keymap: Option<Keyboard>,
    pub counter: u16,
    pub stack_ptr: u8,
    pub mem: Memory,
    pub graphics: GraphicsMemory,
    pub stack: [u16; STACK_SIZE],
    pub keyboard: [bool; KEY_SIZE],
    pub v: [u8; REGISTER_COUNT],
    pub i: u16,
    pub delay_register: u8,
    pub sound_register: u8,
    pub instruction_parser: T,
    pub skip_increment: bool,
    pub delay_last: u64,
    pub sound_last: u64,
    pub beep: bool,
}

impl<T: InstructionParser> Machine<T> {
    /// The machine as a mathematical value.
    pub open spec fn view(&self) -> State<T> {
        State {
            parser: self.instruction_parser,
            name: self.name@,
            headless: self.headless,
            keymap: match self.keymap {
                Some(keyboard) => Some(keyboard@),
                None => None,
            },
            counter: self.counter,
            stack_ptr: self.stack_ptr,
            mem: self.mem@,
            graphics: self.graphics@,
            stack: self.stack@,
            keyboard: self.keyboard@,
            v: self.v@,
            i: self.i,
            delay_register: self.delay_register,
            sound_register: self.sound_register,
            skip_increment: self.skip_increment,
            delay_last: self.delay_last,
            sound_last: self.sound_last,
            beep: self.beep,
        }
    }

    /// The view of a machine is well formed.
    pub proof fn lemma_view_wf(&self)
        ensures
            self@.wf(),
    {
    }

    /// A machine with the fonts in memory and the program counter at 512.
    /// A machine that is not headless gets the key map.
    pub fn new(name: &str, ins_parser: T, headless: bool) -> (machine: Self)
        ensures
            machine@ == State::initial(ins_parser, name@, headless),
    {
        let machine = Self {
            name: name.to_owned(),
            headless,
            keymap: if headless {
                None
            } else {
                Some(Keyboard::new())
            },
            counter: 512,
            stack_ptr: 0,
            mem: Self::init_memory(),
            graphics: GraphicsMemory::new(),
            keyboard: [false; KEY_SIZE],
            stack: [0; STACK_SIZE],
            v: [0; REGISTER_COUNT],
            i: 0,
            delay_register: 0,
            sound_register: 0,
            sound_last: 0,
            delay_last: 0,
            instruction_parser: ins_parser,
            skip_increment: false,
            beep: false,
        };
        assert(machine@ =~= State::initial(ins_parser, name@, headless));
        machine
    }

    /// Zeroed memory with the fonts in their place.
    pub fn init_memory() -> (memory: Memory)
        ensures
            memory@ == initial_memory(),
    {
        let mut memory = [0u8; MEMORY_SIZE];
        let fonts = Self::get_fonts();
        let mut n: usize = 0;
        while n < 80
            invariant
                n <= 80,
                fonts == FONTS,
                forall|a: int| 0 <= a < n ==> memory@[a] == FONTS@[a],
                forall|a: int| n <= a < 4096 ==> memory@[a] == 0,
            decreases 80 - n,
        {
            memory[n] = fonts[n];
            n += 1;
        }
        let memory = Memory { mem: memory };
        assert(memory@ =~= initial_memory());
        memory
    }

    /// The font table: an 8 by 5 glyph for each hexadecimal digit.
    pub fn get_fonts() -> (fonts: [u8; 80])
        ensures
            fonts == FONTS,
    {
        FONTS
    }

    /// Copies a program into memory from address 512 on. What does not fit
    /// is left out.
    pub fn _copy_into_mem(&mut self, rom: &[u8])
        ensures
            final(self)@ == (State { mem: load_image(old(self)@.mem, rom@), ..old(self)@ }),
    {
        let room = MEMORY_SIZE - PROGRAM_OFFSET;
        let len = if rom.len() < room {
            rom.len()
        } else {
            room
        };
        let mut n: usize = 0;
        while n < len
            invariant
                n <= len,
                len <= 4096 - 512,
                len <= rom@.len(),
                forall|a: int| 512 <= a < 512 + n ==> self.mem@[a] == rom@[a - 512],
                forall|a: int|
                    0 <= a < 4096 && !(512 <= a < 512 + n) ==> self.mem@[a] == old(self).mem@[a],
                self@ == (State { mem: self.mem@, ..old(self)@ }),
            decreases len - n,
        {
            self.mem.mem[PROGRAM_OFFSET + n] = rom[n];
            n += 1;
        }
        assert(self.mem@ =~= load_image(old(self)@.mem, rom@));
    }

    /// Puts the machine back: program counter at 512, memory, stack,
    /// registers and timers at zero.
    pub fn reset(&mut self) -> (res: Result<(), String>)
        ensures
            res is Ok,
            final(self)@ == old(self)@.reset(),
    {
        self.counter = 512;
        self.stack_ptr = 0;
        self.mem.mem = [0; MEMORY_SIZE];
        self.stack = [0; STACK_SIZE];
        self.v = [0; REGISTER_COUNT];
        self.i = 0;
        self.delay_register = 0;
        self.sound_register = 0;
        assert(self@ =~= old(self)@.reset());
        Ok(())
    }

    /// Releases every key.
    pub fn reset_keyboard(&mut self)
        ensures
            final(self)@ == old(self)@.release_keys(),
    {
        self.keyboard = [false; KEY_SIZE];
        assert(self@ =~= old(self)@.release_keys());
    }

    /// Marks the machine keys as down that the host keys `keys` stand for.
    pub fn handle_keys(&mut self, keys: &[i32])
        ensures
            final(self)@ == old(self)@.press_keys(keys@),
    {
        let mut n: usize = 0;
        while n < keys.len()
            invariant
                n <= keys@.len(),
                self@ == (State { keyboard: self.keyboard@, ..old(self)@ }),
                forall|k: int|
                    0 <= k < 16 ==> self.keyboard@[k] == (old(self).keyboard@[k] || old(
                        self,
                    )@.pressed(keys@.take(n as int), k)),
            decreases keys@.len() - n,
        {
            let code = keys[n];
            let found = match &self.keymap {
                Some(keyboard) => keyboard.key(code),
                None => None,
            };
            if let Some(key) = found {
                self.keyboard[key] = true;
            }
            proof {
                let shorter = keys@.take(n as int);
                let longer = keys@.take(n + 1);
                assert(longer =~= shorter.push(code));
                assert forall|k: int| 0 <= k < 16 implies self.keyboard@[k] == (old(
                    self,
                ).keyboard@[k] || old(self)@.pressed(longer, k)) by {
                    if let Some(keymap) = old(self)@.keymap {
                        if old(self)@.pressed(shorter, k) {
                            let j = choose|j: int|
                                0 <= j < shorter.len() && #[trigger] resolve(keymap, shorter[j])
                                    == Some(k as usize);
                            assert(resolve(keymap, longer[j]) == Some(k as usize));
                        }
                        if found == Some(k as usize) {
                            assert(resolve(keymap, longer[n as int]) == Some(k as usize));
                        }
                        if old(self)@.pressed(longer, k) {
                            let j = choose|j: int|
                                0 <= j < longer.len() && #[trigger] resolve(keymap, longer[j])
                                    == Some(k as usize);
                            if j < n {
                                assert(resolve(keymap, shorter[j]) == Some(k as usize));
                            }
                        }
                    }
                }
            }
            n += 1;
        }
        assert(keys@.take(keys@.len() as int) =~= keys@);
        assert(self@ =~= old(self)@.press_keys(keys@));
    }

    /// The highest key that is down.
    pub fn last_key(&self) -> (key: Option<u8>)
        ensures
            key == last_pressed(self@.keyboard),
    {
        let mut found: Option<u8> = None;
        let mut k: usize = 0;
        while k < KEY_SIZE
            invariant
                k <= 16,
                found == last_pressed(self.keyboard@.take(k as int)),
            decreases 16 - k,
        {
            proof {
                let longer = self.keyboard@.take(k + 1);
                assert(longer.drop_last() =~= self.keyboard@.take(k as int));
                assert(longer.last() == self.keyboard@[k as int]);
            }
            if self.keyboard[k] {
                found = Some(k as u8);
            }
            k += 1;
        }
        assert(self.keyboard@.take(16) =~= self.keyboard@);
        found
    }

    /// Looks at both timers at time `now`, and sets the tone by the sound
    /// timer as it is after that.
    pub fn handle_timers(&mut self, now: u64)
        ensures
            final(self)@ == old(self)@.run_timers(now),
    {
        if self.sound_register > 0 && now >= self.sound_last && now - self.sound_last
            >= TIMER_PERIOD {
            self.sound_register -= 1;
            self.sound_last = now;
        }
        self.beep = self.sound_register > 0;
        if self.delay_register > 0 && now >= self.delay_last && now - self.delay_last
            >= TIMER_PERIOD {
            self.delay_register -= 1;
            self.delay_last = now;
        }
    }
}

} // verus!
