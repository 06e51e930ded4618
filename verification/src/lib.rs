//! A CHIP-8 interpreter core: opcode decoding, the execution engine with its
//! memory and register model, the 60 Hz timers and the sprite compositor.
//!
//! The crate holds no window, sound device or clock. A host feeds it the
//! program bytes, the pressed keys and the current time, and reads back the
//! framebuffer and the sound flag.

pub mod bitmasks;
pub mod execute;
pub mod graphics;
pub mod hexfmt;
pub mod instructions;
pub mod keyboard;
pub mod laws;
pub mod machine;
pub mod memory;
pub mod opcodes;
pub mod opcodesv2;
pub mod ophandlers;
pub mod state;
pub mod tick;
