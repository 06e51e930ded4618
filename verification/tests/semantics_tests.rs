use chip8::instructions::Instruction;
use chip8::keyboard::Keyboard;
use chip8::machine::Machine;
use chip8::opcodes::OpcodeMaskParser;
use chip8::state::Fault;

fn machine() -> Machine<OpcodeMaskParser> {
    Machine::new("TestVM", OpcodeMaskParser {}, true)
}

#[test]
fn add_stores_sum_and_carry_for_all_pairs() {
    let mut vm = machine();
    for a in 0..=255u16 {
        for b in 0..=255u16 {
            let sum = vm.add(a as u8, b as u8);
            assert_eq!(sum as u16, (a + b) % 256);
            assert_eq!(vm.v[15], if a + b > 255 { 1 } else { 0 });
        }
    }
}

#[test]
fn add_16_stores_sum_and_carry() {
    let mut vm = machine();
    assert_eq!(vm.add_16(0xFFFF, 1), 0);
    assert_eq!(vm.v[15], 1);
    assert_eq!(vm.add_16(0xFFF0, 0x000F), 0xFFFF);
    assert_eq!(vm.v[15], 0);
    assert_eq!(vm.add_16(0x8000, 0x8001), 1);
    assert_eq!(vm.v[15], 1);
}

#[test]
fn add_register_sets_flag() {
    let mut vm = machine();
    vm.v[3] = 200;
    vm.v[4] = 100;
    vm.execute(&Instruction::AddRegister(3, 4));
    assert_eq!(vm.v[3], 44);
    assert_eq!(vm.v[15], 1);
    vm.execute(&Instruction::AddByte(3, 1));
    assert_eq!(vm.v[3], 45);
    assert_eq!(vm.v[15], 0);
}

#[test]
fn add_into_flag_register_keeps_the_sum() {
    let mut vm = machine();
    vm.v[15] = 250;
    vm.execute(&Instruction::AddByte(15, 10));
    assert_eq!(vm.v[15], 4);
}

#[test]
fn sub_sets_flag_where_no_borrow() {
    let mut vm = machine();
    vm.v[1] = 10;
    vm.v[2] = 3;
    vm.execute(&Instruction::SubRegister(1, 2));
    assert_eq!(vm.v[1], 7);
    assert_eq!(vm.v[15], 1);
    vm.v[1] = 3;
    vm.v[2] = 10;
    vm.execute(&Instruction::SubRegister(1, 2));
    assert_eq!(vm.v[1], 249);
    assert_eq!(vm.v[15], 0);
    vm.v[1] = 5;
    vm.v[2] = 5;
    vm.execute(&Instruction::SubRegister(1, 2));
    assert_eq!(vm.v[1], 0);
    assert_eq!(vm.v[15], 1);
}

#[test]
fn subn_sets_flag_where_no_borrow() {
    let mut vm = machine();
    vm.v[1] = 3;
    vm.v[2] = 10;
    vm.execute(&Instruction::SubNRegister(1, 2));
    assert_eq!(vm.v[1], 7);
    assert_eq!(vm.v[15], 1);
    vm.v[1] = 10;
    vm.v[2] = 3;
    vm.execute(&Instruction::SubNRegister(1, 2));
    assert_eq!(vm.v[1], 249);
    assert_eq!(vm.v[15], 0);
}

#[test]
fn shift_right_for_all_values() {
    for a in 0..=255u8 {
        let mut vm = machine();
        vm.v[4] = a;
        vm.execute(&Instruction::ShiftRight(4));
        assert_eq!(vm.v[4], a >> 1);
        assert_eq!(vm.v[15], a & 1);
    }
}

#[test]
fn shift_left_for_all_values() {
    for a in 0..=255u8 {
        let mut vm = machine();
        vm.v[4] = a;
        vm.execute(&Instruction::ShiftLeft(4));
        assert_eq!(vm.v[4] as u16, ((a as u16) << 1) % 256);
        assert_eq!(vm.v[15], (a & 0x80) >> 7);
    }
}

#[test]
fn logic_instructions() {
    let mut vm = machine();
    vm.v[1] = 0b1100;
    vm.v[2] = 0b1010;
    vm.execute(&Instruction::Or(1, 2));
    assert_eq!(vm.v[1], 0b1110);
    vm.v[1] = 0b1100;
    vm.execute(&Instruction::And(1, 2));
    assert_eq!(vm.v[1], 0b1000);
    vm.v[1] = 0b1100;
    vm.execute(&Instruction::Xor(1, 2));
    assert_eq!(vm.v[1], 0b0110);
    vm.execute(&Instruction::LoadRegister(5, 2));
    assert_eq!(vm.v[5], 0b1010);
    vm.execute(&Instruction::LoadByte(6, 0x42));
    assert_eq!(vm.v[6], 0x42);
}

#[test]
fn store_then_load_restores_registers_inclusive() {
    let mut vm = machine();
    for n in 0..16 {
        vm.v[n] = 0x10 + n as u8;
    }
    vm.i = 0x300;
    vm.execute(&Instruction::StoreRegisters(5));
    for n in 0..=5 {
        assert_eq!(vm.mem.mem[0x300 + n], 0x10 + n as u8);
    }
    // the byte behind the last register is not written
    assert_eq!(vm.mem.mem[0x306], 0);
    assert_eq!(vm.i, 0x300);

    let stored = vm.v;
    vm.v = [0xEE; 16];
    vm.execute(&Instruction::LoadRegisters(5));
    for n in 0..=5 {
        assert_eq!(vm.v[n], stored[n]);
    }
    // the register behind the last one is not loaded
    assert_eq!(vm.v[6], 0xEE);

    // loading again changes nothing
    let loaded = vm.v;
    vm.execute(&Instruction::LoadRegisters(5));
    assert_eq!(vm.v, loaded);
}

#[test]
fn store_all_registers_at_the_end_of_memory() {
    let mut vm = machine();
    for n in 0..16 {
        vm.v[n] = n as u8 + 1;
    }
    vm.i = 4096 - 16;
    assert_eq!(vm.fault(&Instruction::StoreRegisters(15)), None);
    vm.execute(&Instruction::StoreRegisters(15));
    assert_eq!(vm.mem.mem[4095], 16);
    vm.i = 4096 - 15;
    assert_eq!(
        vm.fault(&Instruction::StoreRegisters(15)),
        Some(Fault::MemoryBounds)
    );
}

#[test]
fn call_then_return_restores_counter_and_stack() {
    let mut vm = machine();
    vm.counter = 0x240;
    vm.stack_ptr = 3;
    vm.execute(&Instruction::Call(0x0ABC));
    assert_eq!(vm.counter, 0x0ABC);
    assert_eq!(vm.stack_ptr, 4);
    assert_eq!(vm.stack[3], 0x242);
    vm.execute(&Instruction::Return);
    assert_eq!(vm.counter, 0x242);
    assert_eq!(vm.stack_ptr, 3);
    assert!(vm.skip_increment);
}

#[test]
fn bcd_of_register_value() {
    let mut vm = machine();
    vm.v[7] = 254;
    vm.i = 0x400;
    vm.execute(&Instruction::LoadIBCD(7));
    assert_eq!(vm.mem.mem[0x400], 2);
    assert_eq!(vm.mem.mem[0x401], 5);
    assert_eq!(vm.mem.mem[0x402], 4);
    vm.v[7] = 7;
    vm.execute(&Instruction::LoadIBCD(7));
    assert_eq!(&vm.mem.mem[0x400..0x403], &[0, 0, 7]);
}

#[test]
fn index_register_instructions() {
    let mut vm = machine();
    vm.execute(&Instruction::LoadImmediate(0x123));
    assert_eq!(vm.i, 0x123);
    vm.v[2] = 0x10;
    vm.execute(&Instruction::AddI(2));
    assert_eq!(vm.i, 0x133);
    assert_eq!(vm.v[15], 0);
    vm.i = 0xFFFF;
    vm.execute(&Instruction::AddI(2));
    assert_eq!(vm.i, 0x000F);
    assert_eq!(vm.v[15], 1);
    vm.v[3] = 0xA;
    vm.execute(&Instruction::LoadFontSprite(3));
    assert_eq!(vm.i, 50);
    vm.v[3] = 255;
    vm.execute(&Instruction::LoadFontSprite(3));
    assert_eq!(vm.i, 1275);
}

#[test]
fn jump_base_adds_register_zero() {
    let mut vm = machine();
    vm.v[0] = 0x10;
    vm.v[15] = 9;
    vm.execute(&Instruction::JumpBase(0x300));
    assert_eq!(vm.counter, 0x310);
    assert_eq!(vm.v[15], 0);
    assert!(vm.skip_increment);
}

#[test]
fn timer_registers_are_set_not_added() {
    let mut vm = machine();
    vm.delay_register = 9;
    vm.v[1] = 30;
    vm.execute(&Instruction::LoadDelay(1));
    assert_eq!(vm.delay_register, 30);
    vm.sound_register = 9;
    vm.execute(&Instruction::LoadSound(1));
    assert_eq!(vm.sound_register, 30);
    vm.delay_register = 12;
    vm.execute(&Instruction::LoadFromDelay(4));
    assert_eq!(vm.v[4], 12);
}

#[test]
fn random_is_masked() {
    let mut vm = machine();
    vm.execute_with(&Instruction::Random(2, 0x0F), 0xAB);
    assert_eq!(vm.v[2], 0x0B);
    vm.execute_with(&Instruction::Random(2, 0xFF), 0xFF);
    assert_eq!(vm.v[2], 0xFF);
    for _ in 0..200 {
        vm.execute(&Instruction::Random(3, 0x0F));
        assert!(vm.v[3] <= 0x0F);
        vm.execute(&Instruction::Random(3, 0x00));
        assert_eq!(vm.v[3], 0);
    }
}

#[test]
fn key_tests_read_the_latch() {
    let mut vm = machine();
    vm.v[1] = 0xA;
    vm.counter = 0x200;
    vm.execute(&Instruction::SkipKeyPress(1));
    assert_eq!(vm.counter, 0x200);
    vm.execute(&Instruction::SkipNotKeyPress(1));
    assert_eq!(vm.counter, 0x202);
    vm.keyboard[0xA] = true;
    vm.execute(&Instruction::SkipKeyPress(1));
    assert_eq!(vm.counter, 0x204);
    vm.execute(&Instruction::SkipNotKeyPress(1));
    assert_eq!(vm.counter, 0x204);
}

#[test]
fn key_wait_takes_the_last_key_down() {
    let mut vm = machine();
    vm.keyboard[3] = true;
    vm.keyboard[9] = true;
    vm.v[5] = 0xEE;
    vm.execute(&Instruction::LoadKeyPress(5));
    assert_eq!(vm.v[5], 9);
    assert!(!vm.skip_increment);
    assert_eq!(vm.last_key(), Some(9));
}

#[test]
fn key_wait_holds_the_counter_while_no_key_is_down() {
    let mut vm = machine();
    vm.v[5] = 0xEE;
    vm.counter = 0x300;
    vm.execute(&Instruction::LoadKeyPress(5));
    assert_eq!(vm.v[5], 0xEE);
    assert_eq!(vm.counter, 0x300);
    assert!(vm.skip_increment);
    assert_eq!(vm.last_key(), None);
}

#[test]
fn skip_not_equal_register() {
    let mut vm = machine();
    vm.v[1] = 1;
    vm.v[2] = 2;
    vm.counter = 0x200;
    vm.execute(&Instruction::SkipNotEqualRegister(1, 2));
    assert_eq!(vm.counter, 0x202);
    vm.v[2] = 1;
    vm.execute(&Instruction::SkipNotEqualRegister(1, 2));
    assert_eq!(vm.counter, 0x202);
}

#[test]
fn keys_are_pressed_and_released() {
    let mut vm = Machine::new("TestVM", OpcodeMaskParser {}, false);
    vm.keyboard[2] = true;
    // the keys 1 and f, and two keys that stand for nothing
    vm.handle_keys(&[49, 102, 103, 13]);
    for k in 0..16 {
        assert_eq!(vm.keyboard[k], k == 1 || k == 2 || k == 15);
    }
    vm.handle_keys(&[]);
    assert!(vm.keyboard[1]);
    vm.reset_keyboard();
    assert_eq!(vm.keyboard, [false; 16]);
}

#[test]
fn every_key_has_its_symbol() {
    let mut vm = Machine::new("TestVM", OpcodeMaskParser {}, false);
    let symbols = "0123456789abcdef";
    for (k, symbol) in symbols.chars().enumerate() {
        vm.reset_keyboard();
        vm.handle_keys(&[symbol as i32]);
        for other in 0..16 {
            assert_eq!(vm.keyboard[other], other == k);
        }
    }
    let keyboard = Keyboard::new();
    assert_eq!(keyboard.keymap.len(), 16);
    assert_eq!(keyboard.key(48), Some(0));
    assert_eq!(keyboard.key(57), Some(9));
    assert_eq!(keyboard.key(97), Some(10));
    assert_eq!(keyboard.key(102), Some(15));
    assert_eq!(keyboard.key(65), None);
    assert_eq!(keyboard.key(-1), None);
}

#[test]
fn headless_machine_has_no_key_map() {
    let mut vm = machine();
    assert!(vm.keymap.is_none());
    vm.handle_keys(&[49, 50]);
    assert_eq!(vm.keyboard, [false; 16]);
}

#[test]
fn key_beyond_the_keyboard_is_passed_over() {
    let mut vm = Machine::new("TestVM", OpcodeMaskParser {}, false);
    vm.keymap.as_mut().unwrap().keymap.insert(120, 16);
    vm.handle_keys(&[120]);
    assert_eq!(vm.keyboard, [false; 16]);
}

#[test]
fn reset_clears_memory_and_registers() {
    let mut vm = machine();
    vm.counter = 0x333;
    vm.stack_ptr = 2;
    vm.stack[0] = 7;
    vm.v[3] = 9;
    vm.i = 0x444;
    vm.delay_register = 5;
    vm.sound_register = 6;
    vm.graphics.mem[1][1] = 1;
    vm.keyboard[4] = true;
    assert_eq!(vm.reset(), Ok(()));
    assert_eq!(vm.counter, 512);
    assert_eq!(vm.stack_ptr, 0);
    assert!(vm.mem.mem.iter().all(|b| *b == 0));
    assert_eq!(vm.stack, [0; 16]);
    assert_eq!(vm.v, [0; 16]);
    assert_eq!(vm.i, 0);
    assert_eq!(vm.delay_register, 0);
    assert_eq!(vm.sound_register, 0);
    assert_eq!(vm.graphics.mem[1][1], 1);
    assert!(vm.keyboard[4]);
}

#[test]
fn inc_pc_adds_two() {
    let mut vm = machine();
    vm.inc_pc();
    assert_eq!(vm.counter, 514);
}

#[test]
fn faults_of_instructions() {
    let mut vm = machine();
    assert_eq!(vm.fault(&Instruction::Return), Some(Fault::StackUnderflow));
    vm.stack_ptr = 17;
    assert_eq!(vm.fault(&Instruction::Return), Some(Fault::StackOverflow));
    vm.stack_ptr = 16;
    assert_eq!(vm.fault(&Instruction::Return), None);
    assert_eq!(vm.fault(&Instruction::Call(0x200)), Some(Fault::StackOverflow));
    vm.stack_ptr = 15;
    assert_eq!(vm.fault(&Instruction::Call(0x200)), None);
    vm.counter = 0xFFFE;
    assert_eq!(vm.fault(&Instruction::Call(0x200)), Some(Fault::ProgramCounter));
    assert_eq!(
        vm.fault(&Instruction::SkipEqualsByte(1, 0)),
        Some(Fault::ProgramCounter)
    );
    assert_eq!(vm.fault(&Instruction::SkipEqualsByte(1, 1)), None);
    assert_eq!(
        vm.fault(&Instruction::LoadByte(16, 0)),
        Some(Fault::InvalidRegister)
    );
    assert_eq!(
        vm.fault(&Instruction::Xor(1, 16)),
        Some(Fault::InvalidRegister)
    );
    assert_eq!(
        vm.fault(&Instruction::DisplaySprite(0, 0, 16)),
        Some(Fault::SpriteHeight)
    );
    assert_eq!(vm.fault(&Instruction::DisplaySprite(0, 0, 15)), None);
    assert_eq!(vm.fault(&Instruction::DisplaySprite(0, 0, 0)), None);
    vm.i = 4090;
    assert_eq!(
        vm.fault(&Instruction::DisplaySprite(0, 0, 7)),
        Some(Fault::MemoryBounds)
    );
    assert_eq!(vm.fault(&Instruction::DisplaySprite(0, 0, 6)), None);
    vm.i = 4094;
    assert_eq!(vm.fault(&Instruction::LoadIBCD(0)), Some(Fault::MemoryBounds));
    vm.i = 4093;
    assert_eq!(vm.fault(&Instruction::LoadIBCD(0)), None);
    vm.v[2] = 16;
    assert_eq!(vm.fault(&Instruction::SkipKeyPress(2)), Some(Fault::InvalidKey));
    assert_eq!(
        vm.fault(&Instruction::SkipNotKeyPress(2)),
        Some(Fault::InvalidKey)
    );
}

#[test]
fn fault_messages() {
    assert_eq!(Fault::ProgramCounter.message(), "PC out of bounds");
    assert_eq!(Fault::InvalidRegister.message(), "Register out of bounds");
    assert_eq!(Fault::StackOverflow.message(), "Stack overflow");
    assert_eq!(Fault::StackUnderflow.message(), "Stack underflow");
    assert_eq!(Fault::MemoryBounds.message(), "Memory access out of bounds");
    assert_eq!(
        Fault::SpriteHeight.message(),
        "Sprite Height exceeded maximum limit!"
    );
    assert_eq!(Fault::InvalidKey.message(), "Key out of bounds");
}
