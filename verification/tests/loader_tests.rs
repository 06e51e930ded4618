use chip8::machine::Machine;
use chip8::opcodes::OpcodeMaskParser;

fn machine() -> Machine<OpcodeMaskParser> {
    Machine::new("TestVM", OpcodeMaskParser {}, true)
}

#[test]
fn short_rom_leaves_the_rest_at_zero() {
    let mut vm = machine();
    let fresh = vm.mem.mem;
    vm._copy_into_mem(&[1, 2, 3]);
    assert_eq!(&vm.mem.mem[512..515], &[1, 2, 3]);
    assert!(vm.mem.mem[515..].iter().all(|b| *b == 0));
    assert_eq!(&vm.mem.mem[..512], &fresh[..512]);
    assert_eq!(vm.counter, 512);
}

#[test]
fn rom_of_full_capacity_is_copied_whole() {
    let mut vm = machine();
    let rom: Vec<u8> = (0..3584).map(|n| (n % 251) as u8 + 1).collect();
    vm._copy_into_mem(&rom);
    assert_eq!(&vm.mem.mem[512..], &rom[..]);
    assert_eq!(vm.mem.mem[4095], rom[3583]);
    assert_eq!(vm.mem.mem[0], 0xF0);
    assert_eq!(vm.mem.mem[511], 0);
}

#[test]
fn longer_rom_is_cut_off() {
    let mut vm = machine();
    let rom: Vec<u8> = (0..5000).map(|n| (n % 251) as u8 + 1).collect();
    vm._copy_into_mem(&rom);
    assert_eq!(&vm.mem.mem[512..], &rom[..3584]);
    assert_eq!(vm.mem.mem[0], 0xF0);
}

#[test]
fn second_load_keeps_what_it_does_not_cover() {
    let mut vm = machine();
    vm._copy_into_mem(&[9, 9, 9, 9]);
    vm._copy_into_mem(&[1, 2]);
    assert_eq!(&vm.mem.mem[512..516], &[1, 2, 9, 9]);
}

#[test]
fn font_table_has_eighty_bytes() {
    let fonts = Machine::<OpcodeMaskParser>::get_fonts();
    assert_eq!(fonts.len(), 80);
    assert_eq!(&fonts[..5], &[0xF0, 0x90, 0x90, 0x90, 0xF0]);
    assert_eq!(&fonts[75..], &[0xF0, 0x80, 0xF0, 0x80, 0x80]);
    let memory = Machine::<OpcodeMaskParser>::init_memory();
    assert_eq!(&memory.mem[..80], &fonts[..]);
    assert!(memory.mem[80..].iter().all(|b| *b == 0));
}

#[test]
fn new_machine_is_zeroed() {
    let vm = machine();
    assert_eq!(vm.name, "TestVM");
    assert!(vm.headless);
    assert!(vm.keymap.is_none());
    assert_eq!(vm.counter, 512);
    assert_eq!(vm.stack_ptr, 0);
    assert_eq!(vm.stack, [0; 16]);
    assert_eq!(vm.v, [0; 16]);
    assert_eq!(vm.keyboard, [false; 16]);
    assert_eq!(vm.i, 0);
    assert_eq!(vm.delay_register, 0);
    assert_eq!(vm.sound_register, 0);
    assert!(!vm.skip_increment);
    assert!(!vm.beep);
    assert_eq!(vm.delay_last, 0);
    assert_eq!(vm.sound_last, 0);
    assert!(vm.graphics.mem.iter().all(|row| row.iter().all(|c| *c == 0)));
}
