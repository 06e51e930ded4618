//! Main memory: 4096 bytes, the font table at the bottom and the program
//! from address 512 up.

use vstd::prelude::*;

verus! {

pub const MEMORY_SIZE: usize = 4096;

pub const PROGRAM_OFFSET: usize = 512;

/// The glyphs of the sixteen hexadecimal digits, five bytes each.
pub const FONTS: [u8; 80] = [
    0xF0, 0x90, 0x90, 0x90, 0xF0,
    0x20, 0x60, 0x20, 0x20, 0x70,
    0xF0, 0x10, 0xF0, 0x80, 0xF0,
    0xF0, 0x10, 0xF0, 0x10, 0xF0,
    0x90, 0x90, 0xF0, 0x10, 0x10,
    0xF0, 0x80, 0xF0, 0x10, 0xF0,
    0xF0, 0x80, 0xF0, 0x90, 0xF0,
    0xF0, 0x10, 0x20, 0x40, 0x40,
    0xF0, 0x90, 0xF0, 0x90, 0xF0,
    0xF0, 0x90, 0xF0, 0x10, 0xF0,
    0xF0, 0x90, 0xF0, 0x90, 0x90,
    0xE0, 0x90, 0xE0, 0x90, 0xE0,
    0xF0, 0x80, 0x80, 0x80, 0xF0,
    0xE0, 0x90, 0x90, 0x90, 0xE0,
    0xF0, 0x80, 0xF0, 0x80, 0xF0,
    0xF0, 0x80, 0xF0, 0x80, 0x80,
];

/// Memory as it is before a program is loaded: the font table in the first
/// 80 bytes, zero everywhere else.
pub open spec fn initial_memory() -> Seq<u8> {
    Seq::new(4096, |a: int| if a < 80 { FONTS@[a] } else { 0u8 })
}

/// How many bytes of a program of `len` bytes fit into memory.
pub open spec fn loaded_len(len: int) -> int {
    if len < 4096 - 512 {
        len
    } else {
        4096 - 512
    }
}

/// Memory after `rom` is loaded: the bytes that fit stand from address 512
/// on, every other byte is as it was.
pub open spec fn load_image(mem: Seq<u8>, rom: Seq<u8>) -> Seq<u8> {
    Seq::new(
        4096,
        |a: int| if 512 <= a < 512 + loaded_len(rom.len() as int) { rom[a - 512] } else { mem[a] },
    )
}

/// The 4096 bytes of main memory.
pub struct Memory {
    pub mem: [u8; MEMORY_SIZE],
}

impl Memory {
    /// The bytes, by address.
    pub open spec fn view(&self) -> Seq<u8> {
        self.mem@
    }
}

} // verus!
