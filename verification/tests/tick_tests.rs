use chip8::instructions::{Instruction, InstructionParser};
use chip8::machine::Machine;
use chip8::opcodes::OpcodeMaskParser;
use chip8::opcodesv2::OpcodeTable;
use chip8::state::Outcome;

fn machine_with(program: &[u8]) -> Machine<OpcodeMaskParser> {
    let mut vm = Machine::new("TestVM", OpcodeMaskParser {}, true);
    vm._copy_into_mem(program);
    vm
}

/// A decoder that takes every opcode for a jump with base to the opcode.
struct WildParser {}

impl InstructionParser for WildParser {
    fn decode(&self, opcode: u16) -> Option<Instruction> {
        Some(Instruction::JumpBase(opcode))
    }

    fn try_from(&self, opcode: u16) -> Result<Instruction, String> {
        Ok(Instruction::JumpBase(opcode))
    }
}

#[test]
fn first_tick_runs_the_first_word_of_the_program() {
    let mut vm = machine_with(&[0x61, 0x01, 0x62, 0x02]);
    assert_eq!(
        vm.tick(0),
        Ok(Outcome::Executed(Instruction::LoadByte(1, 1)))
    );
    assert_eq!(vm.v[1], 1);
    assert_eq!(vm.v[2], 0);
    assert_eq!(vm.counter, 514);
    assert_eq!(
        vm.tick(0),
        Ok(Outcome::Executed(Instruction::LoadByte(2, 2)))
    );
    assert_eq!(vm.v[2], 2);
    assert_eq!(vm.counter, 516);
}

#[test]
fn tick_fetches_decodes_and_executes() {
    let mut vm = machine_with(&[0x61, 0x07, 0x71, 0x03]);
    assert_eq!(
        vm.tick(0),
        Ok(Outcome::Executed(Instruction::LoadByte(1, 7)))
    );
    assert_eq!(vm.counter, 514);
    assert_eq!(vm.v[1], 7);
    assert_eq!(
        vm.tick(2),
        Ok(Outcome::Executed(Instruction::AddByte(1, 3)))
    );
    assert_eq!(vm.counter, 516);
    assert_eq!(vm.v[1], 10);
}

#[test]
fn fetch_reads_big_endian_at_the_counter() {
    let mut vm = machine_with(&[0xAB, 0xCD]);
    vm.skip_increment = true;
    assert_eq!(vm.instruction_fetch(), Ok(0xABCD));
    assert_eq!(vm.counter, 512);
    assert!(!vm.skip_increment);
    assert_eq!(
        vm.instruction_decode(0xABCD),
        Some(Instruction::LoadImmediate(0xBCD))
    );
    assert_eq!(vm.instruction_decode(0xF0FF), None);
}

#[test]
fn jump_suppresses_the_increment_of_its_tick() {
    // 512: JP 0x300; 0x300: LD V2, 9; 0x302: LD V3, 8
    let mut vm = machine_with(&[0x13, 0x00]);
    vm.mem.mem[0x300] = 0x62;
    vm.mem.mem[0x301] = 0x09;
    vm.mem.mem[0x302] = 0x63;
    vm.mem.mem[0x303] = 0x08;
    assert_eq!(vm.tick(0), Ok(Outcome::Executed(Instruction::Jump(0x300))));
    assert_eq!(vm.counter, 0x300);
    assert!(!vm.skip_increment);
    assert_eq!(
        vm.tick(0),
        Ok(Outcome::Executed(Instruction::LoadByte(2, 9)))
    );
    assert_eq!(vm.counter, 0x302);
    assert_eq!(
        vm.tick(0),
        Ok(Outcome::Executed(Instruction::LoadByte(3, 8)))
    );
    assert_eq!(vm.counter, 0x304);
}

#[test]
fn tick_after_a_jump_by_hand_reads_at_the_target() {
    let mut vm = machine_with(&[]);
    vm.mem.mem[0x300] = 0x62;
    vm.mem.mem[0x301] = 0x09;
    vm.execute(&Instruction::Jump(0x300));
    assert!(vm.skip_increment);
    assert_eq!(
        vm.tick(0),
        Ok(Outcome::Executed(Instruction::LoadByte(2, 9)))
    );
    assert_eq!(vm.counter, 0x302);
    assert!(!vm.skip_increment);
}

#[test]
fn call_and_return_through_ticks() {
    // 512: CALL 0x300; 514: LD V1, 1; 0x300: RET
    let mut vm = machine_with(&[0x23, 0x00, 0x61, 0x01]);
    vm.mem.mem[0x300] = 0x00;
    vm.mem.mem[0x301] = 0xEE;
    assert_eq!(vm.tick(0), Ok(Outcome::Executed(Instruction::Call(0x300))));
    assert_eq!(vm.stack_ptr, 1);
    assert_eq!(vm.stack[0], 514);
    assert_eq!(vm.counter, 0x300);
    assert_eq!(vm.tick(0), Ok(Outcome::Executed(Instruction::Return)));
    assert_eq!(vm.counter, 514);
    assert_eq!(vm.stack_ptr, 0);
    assert_eq!(
        vm.tick(0),
        Ok(Outcome::Executed(Instruction::LoadByte(1, 1)))
    );
    assert_eq!(vm.counter, 516);
}

#[test]
fn skip_passes_over_one_instruction() {
    // 512: SE V0, 0; 514: LD V1, 1; 516: LD V2, 2
    let mut vm = machine_with(&[0x30, 0x00, 0x61, 0x01, 0x62, 0x02]);
    assert_eq!(
        vm.tick(0),
        Ok(Outcome::Executed(Instruction::SkipEqualsByte(0, 0)))
    );
    assert_eq!(vm.counter, 516);
    assert_eq!(
        vm.tick(0),
        Ok(Outcome::Executed(Instruction::LoadByte(2, 2)))
    );
    assert_eq!(vm.v[1], 0);
    assert_eq!(vm.v[2], 2);
}

#[test]
fn skip_that_does_not_match_moves_on_by_one() {
    // 512: SE V0, 1; 514: LD V1, 1
    let mut vm = machine_with(&[0x30, 0x01, 0x61, 0x01]);
    assert_eq!(
        vm.tick(0),
        Ok(Outcome::Executed(Instruction::SkipEqualsByte(0, 1)))
    );
    assert_eq!(vm.counter, 514);
    assert_eq!(
        vm.tick(0),
        Ok(Outcome::Executed(Instruction::LoadByte(1, 1)))
    );
}

#[test]
fn bad_opcode_executes_nothing_and_moves_on_by_one() {
    let mut vm = machine_with(&[0xF0, 0xFF, 0x61, 0x01, 0x62, 0x02]);
    vm.v[5] = 9;
    vm.i = 0x123;
    vm.stack_ptr = 2;
    let memory = vm.mem.mem;
    assert_eq!(vm.tick(0), Ok(Outcome::BadOpcode(0xF0FF)));
    assert_eq!(vm.counter, 514);
    assert!(!vm.skip_increment);
    assert_eq!(vm.v[5], 9);
    assert_eq!(vm.i, 0x123);
    assert_eq!(vm.stack_ptr, 2);
    assert_eq!(vm.mem.mem, memory);
    // the word right behind the bad one is the next to run
    assert_eq!(
        vm.tick(0),
        Ok(Outcome::Executed(Instruction::LoadByte(1, 1)))
    );
    assert_eq!(vm.v[1], 1);
    assert_eq!(
        vm.tick(0),
        Ok(Outcome::Executed(Instruction::LoadByte(2, 2)))
    );
}

#[test]
fn bad_opcode_releases_the_keys_and_runs_the_timers() {
    let mut vm = machine_with(&[0xF0, 0xFF]);
    vm.keyboard[3] = true;
    vm.keyboard[15] = true;
    vm.sound_register = 5;
    vm.delay_register = 1;
    assert_eq!(vm.tick(1000), Ok(Outcome::BadOpcode(0xF0FF)));
    assert_eq!(vm.keyboard, [false; 16]);
    assert_eq!(vm.sound_register, 4);
    assert_eq!(vm.sound_last, 1000);
    assert_eq!(vm.delay_register, 0);
    assert!(vm.beep);
}

#[test]
fn table_takes_opcode_zero_for_bad() {
    let mut vm = Machine::new("TestVM", OpcodeTable {}, true);
    assert_eq!(vm.tick(0), Ok(Outcome::BadOpcode(0)));
    assert_eq!(vm.counter, 514);
    assert_eq!(vm.tick(0), Ok(Outcome::BadOpcode(0)));
    assert_eq!(vm.counter, 516);
}

#[test]
fn tick_releases_the_keys_and_runs_the_timers() {
    let mut vm = machine_with(&[0x61, 0x07]);
    vm.keyboard[3] = true;
    vm.delay_register = 2;
    vm.sound_register = 1;
    assert_eq!(
        vm.tick(16),
        Ok(Outcome::Executed(Instruction::LoadByte(1, 7)))
    );
    assert_eq!(vm.keyboard, [false; 16]);
    assert_eq!(vm.delay_register, 1);
    assert_eq!(vm.delay_last, 16);
    assert_eq!(vm.sound_register, 0);
    assert_eq!(vm.sound_last, 16);
    // the sound timer is at zero now: no tone
    assert!(!vm.beep);
}

#[test]
fn key_wait_repeats_until_a_key_is_down() {
    // 512: LD V4, K; 514: LD V1, 1
    let mut vm = machine_with(&[0xF4, 0x0A, 0x61, 0x01]);
    for _ in 0..3 {
        assert_eq!(
            vm.tick(0),
            Ok(Outcome::Executed(Instruction::LoadKeyPress(4)))
        );
        assert_eq!(vm.counter, 512);
        assert!(!vm.skip_increment);
    }
    vm.keyboard[0xC] = true;
    assert_eq!(
        vm.tick(0),
        Ok(Outcome::Executed(Instruction::LoadKeyPress(4)))
    );
    assert_eq!(vm.v[4], 0xC);
    assert_eq!(vm.counter, 514);
    assert_eq!(
        vm.tick(0),
        Ok(Outcome::Executed(Instruction::LoadByte(1, 1)))
    );
}

#[test]
fn jump_with_base_lands_on_its_target() {
    // 512: JP V0, 0x300; 0x310: LD V1, 1
    let mut vm = machine_with(&[0xB3, 0x00]);
    vm.v[0] = 0x10;
    vm.mem.mem[0x310] = 0x61;
    vm.mem.mem[0x311] = 0x01;
    assert_eq!(
        vm.tick(0),
        Ok(Outcome::Executed(Instruction::JumpBase(0x300)))
    );
    assert_eq!(vm.counter, 0x310);
    assert!(!vm.skip_increment);
    assert_eq!(
        vm.tick(0),
        Ok(Outcome::Executed(Instruction::LoadByte(1, 1)))
    );
    assert_eq!(vm.counter, 0x312);
}

#[test]
fn counter_beyond_the_last_opcode_is_an_error() {
    let mut vm = machine_with(&[]);
    vm.counter = 4095;
    assert_eq!(vm.tick(0), Err(String::from("PC out of bounds")));
    assert_eq!(vm.counter, 4095);
    assert_eq!(vm.instruction_fetch(), Err(String::from("PC out of bounds")));
    vm.skip_increment = true;
    assert_eq!(vm.tick(0), Err(String::from("PC out of bounds")));
    assert_eq!(vm.counter, 4095);
    assert!(vm.skip_increment);
    vm.counter = 65535;
    vm.skip_increment = false;
    assert_eq!(vm.tick(0), Err(String::from("PC out of bounds")));
    // the last address that holds an opcode
    vm.counter = 4094;
    vm.mem.mem[4094] = 0x61;
    vm.mem.mem[4095] = 0x05;
    assert_eq!(
        vm.tick(0),
        Ok(Outcome::Executed(Instruction::LoadByte(1, 5)))
    );
    assert_eq!(vm.counter, 4096);
    assert_eq!(vm.tick(0), Err(String::from("PC out of bounds")));
    assert_eq!(vm.counter, 4096);
}

#[test]
fn jump_beyond_memory_fails_at_the_next_fetch() {
    let mut vm = Machine::new("TestVM", WildParser {}, true);
    vm._copy_into_mem(&[0xFF, 0xFE]);
    assert_eq!(
        vm.tick(0),
        Ok(Outcome::Executed(Instruction::JumpBase(0xFFFE)))
    );
    assert_eq!(vm.counter, 0xFFFE);
    assert_eq!(vm.tick(0), Err(String::from("PC out of bounds")));
    assert_eq!(vm.counter, 0xFFFE);
    // a sum that wraps around is small again, with the carry in the flag
    let mut vm = Machine::new("TestVM", WildParser {}, true);
    vm._copy_into_mem(&[0xFF, 0xFF]);
    vm.v[0] = 3;
    assert_eq!(
        vm.tick(0),
        Ok(Outcome::Executed(Instruction::JumpBase(0xFFFF)))
    );
    assert_eq!(vm.counter, 2);
    assert_eq!(vm.v[15], 1);
}

#[test]
fn return_on_an_empty_stack_is_an_error() {
    let mut vm = machine_with(&[0x00, 0xEE]);
    vm.keyboard[1] = true;
    vm.skip_increment = true;
    assert_eq!(vm.tick(0), Err(String::from("Stack underflow")));
    assert_eq!(vm.counter, 512);
    assert_eq!(vm.stack_ptr, 0);
    assert!(vm.skip_increment);
    assert!(vm.keyboard[1]);
}

#[test]
fn call_on_a_full_stack_is_an_error() {
    let mut vm = machine_with(&[0x23, 0x00]);
    vm.stack_ptr = 16;
    assert_eq!(vm.tick(0), Err(String::from("Stack overflow")));
    assert_eq!(vm.counter, 512);
    assert_eq!(vm.stack_ptr, 16);
}

#[test]
fn access_beyond_memory_is_an_error() {
    let mut vm = machine_with(&[0xF2, 0x33]);
    vm.i = 4094;
    assert_eq!(vm.tick(0), Err(String::from("Memory access out of bounds")));
    assert_eq!(vm.counter, 512);
    let mut vm = machine_with(&[0xD0, 0x05]);
    vm.i = 4092;
    assert_eq!(vm.tick(0), Err(String::from("Memory access out of bounds")));
    let mut vm = machine_with(&[0xF3, 0x65]);
    vm.i = 4093;
    assert_eq!(vm.tick(0), Err(String::from("Memory access out of bounds")));
}

#[test]
fn key_test_on_no_key_is_an_error() {
    let mut vm = machine_with(&[0xE1, 0x9E]);
    vm.v[1] = 16;
    assert_eq!(vm.tick(0), Err(String::from("Key out of bounds")));
    assert_eq!(vm.counter, 512);
}

#[test]
fn tick_with_takes_the_given_byte() {
    let mut vm = machine_with(&[0xC3, 0x3C]);
    assert_eq!(
        vm.tick_with(0, 0xFF),
        Ok(Outcome::Executed(Instruction::Random(3, 0x3C)))
    );
    assert_eq!(vm.v[3], 0x3C);
    let mut vm = machine_with(&[0xC3, 0x3C]);
    assert_eq!(
        vm.tick(0),
        Ok(Outcome::Executed(Instruction::Random(3, 0x3C)))
    );
    assert_eq!(vm.v[3] & !0x3C, 0);
}
