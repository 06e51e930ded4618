//! Which key of the host's keyboard stands for which key of the machine.
//!
//! A key of the host is named by the code of the character on it: the digits
//! and the letters `a` to `f` stand for the sixteen keys 0 to F.

use std::collections::HashMap;
use vstd::prelude::*;

verus! {

/// The key map: from the character code of a host key to the number of the
/// machine's key.
pub open spec fn key_table() -> Map<i32, usize> {
    map![
        48i32 => 0x0usize,
        49i32 => 0x1usize,
        50i32 => 0x2usize,
        51i32 => 0x3usize,
        52i32 => 0x4usize,
        53i32 => 0x5usize,
        54i32 => 0x6usize,
        55i32 => 0x7usize,
        56i32 => 0x8usize,
        57i32 => 0x9usize,
        97i32 => 0xAusize,
        98i32 => 0xBusize,
        99i32 => 0xCusize,
        100i32 => 0xDusize,
        101i32 => 0xEusize,
        102i32 => 0xFusize,
    ]
}

/// The machine key that the key map `keymap` gives for a host key, where it
/// gives one that the machine has.
pub open spec fn resolve(keymap: Map<i32, usize>, code: i32) -> Option<usize> {
    if keymap.contains_key(code) && keymap[code] < 16 {
        Some(keymap[code])
    } else {
        None
    }
}

/// The key map of a machine.
pub struct Keyboard {
    pub keymap: HashMap<i32, usize>,
}

impl Keyboard {
    /// The map from host keys to machine keys.
    pub open spec fn view(&self) -> Map<i32, usize> {
        self.keymap@
    }

    /// The key map of the digits and the letters `a` to `f`.
    pub fn new() -> (keyboard: Self)
        ensures
            keyboard@ == key_table(),
    {
        broadcast use vstd::std_specs::hash::group_hash_axioms;

        let mut keys: HashMap<i32, usize> = HashMap::new();
        keys.insert(48, 0x0);
        keys.insert(49, 0x1);
        keys.insert(50, 0x2);
        keys.insert(51, 0x3);
        keys.insert(52, 0x4);
        keys.insert(53, 0x5);
        keys.insert(54, 0x6);
        keys.insert(55, 0x7);
        keys.insert(56, 0x8);
        keys.insert(57, 0x9);
        keys.insert(97, 0xA);
        keys.insert(98, 0xB);
        keys.insert(99, 0xC);
        keys.insert(100, 0xD);
        keys.insert(101, 0xE);
        keys.insert(102, 0xF);
        assert(keys@ =~= key_table());
        Keyboard { keymap: keys }
    }

    /// The machine key for a host key.
    pub fn key(&self, code: i32) -> (key: Option<usize>)
        ensures
            key == resolve(self@, code),
    {
        broadcast use vstd::std_specs::hash::group_hash_axioms;

        if self.keymap.contains_key(&code) {
            let key = *self.keymap.get(&code).unwrap();
            if key < 16 {
                Some(key)
            } else {
                None
            }
        } else {
            None
        }
    }
}

} // verus!
