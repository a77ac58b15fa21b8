//! The table from the scancodes of a physical keyboard to the key codes of
//! the machine.

use std::collections::HashMap;
use vstd::prelude::*;

verus! {

broadcast use vstd::std_specs::hash::group_hash_axioms;

/// The keyboard: its register and the scancode table.
pub struct Keyboard {
    /// The keyboard register.
    pub reg: u16,
    /// The key code of the machine for each known scancode.
    pub key_map: HashMap<u32, u16>,
}

/// The scancode table of a default keyboard: the printable keys map to
/// their ASCII codes, Enter to 128, Backspace to 129, the arrows left, up,
/// right and down to 130 to 133, and Escape to 140.
pub open spec fn default_key_map() -> Map<u32, u16> {
    map![
        1u32 => 140u16,
        2u32 => 49u16,
        3u32 => 50u16,
        4u32 => 51u16,
        5u32 => 52u16,
        6u32 => 53u16,
        7u32 => 54u16,
        8u32 => 55u16,
        9u32 => 56u16,
        10u32 => 57u16,
        11u32 => 48u16,
        12u32 => 45u16,
        13u32 => 61u16,
        14u32 => 129u16,
        16u32 => 113u16,
        17u32 => 119u16,
        18u32 => 101u16,
        19u32 => 114u16,
        20u32 => 116u16,
        21u32 => 121u16,
        22u32 => 117u16,
        23u32 => 105u16,
        24u32 => 111u16,
        25u32 => 112u16,
        26u32 => 91u16,
        27u32 => 93u16,
        28u32 => 128u16,
        30u32 => 97u16,
        31u32 => 115u16,
        32u32 => 100u16,
        33u32 => 102u16,
        34u32 => 103u16,
        35u32 => 104u16,
        36u32 => 106u16,
        37u32 => 107u16,
        38u32 => 108u16,
        39u32 => 59u16,
        40u32 => 39u16,
        41u32 => 96u16,
        43u32 => 92u16,
        44u32 => 122u16,
        45u32 => 120u16,
        46u32 => 99u16,
        47u32 => 118u16,
        48u32 => 98u16,
        49u32 => 110u16,
        50u32 => 109u16,
        51u32 => 44u16,
        52u32 => 46u16,
        53u32 => 47u16,
        57416u32 => 131u16,
        57419u32 => 130u16,
        57421u32 => 132u16,
        57424u32 => 133u16,
    ]
}

impl Keyboard {
    /// The key code of the machine for the scancode `code`; 0 for a
    /// scancode that the table does not hold.
    pub fn keycode_from_winit(&self, code: u32) -> (r: u16)
        ensures
            r == if self.key_map@.contains_key(code) {
                self.key_map@[code]
            } else {
                0u16
            },
    {
        match self.key_map.get(&code) {
            Some(key) => *key,
            None => 0,
        }
    }
}

impl Default for Keyboard {
    /// A keyboard with a cleared register and the default scancode table.
    fn default() -> (r: Self)
        ensures
            r.reg == 0,
            r.key_map@ == default_key_map(),
    {
        let mut key_map = HashMap::new();

        key_map.insert(1, 140);
        key_map.insert(2, '1' as u16);
        key_map.insert(3, '2' as u16);
        key_map.insert(4, '3' as u16);
        key_map.insert(5, '4' as u16);
        key_map.insert(6, '5' as u16);
        key_map.insert(7, '6' as u16);
        key_map.insert(8, '7' as u16);
        key_map.insert(9, '8' as u16);
        key_map.insert(10, '9' as u16);
        key_map.insert(11, '0' as u16);
        key_map.insert(12, '-' as u16);
        key_map.insert(13, '=' as u16);
        key_map.insert(14, 129);
        key_map.insert(16, 'q' as u16);
        key_map.insert(17, 'w' as u16);
        key_map.insert(18, 'e' as u16);
        key_map.insert(19, 'r' as u16);
        key_map.insert(20, 't' as u16);
        key_map.insert(21, 'y' as u16);
        key_map.insert(22, 'u' as u16);
        key_map.insert(23, 'i' as u16);
        key_map.insert(24, 'o' as u16);
        key_map.insert(25, 'p' as u16);
        key_map.insert(26, '[' as u16);
        key_map.insert(27, ']' as u16);
        key_map.insert(28, 128);
        key_map.insert(30, 'a' as u16);
        key_map.insert(31, 's' as u16);
        key_map.insert(32, 'd' as u16);
        key_map.insert(33, 'f' as u16);
        key_map.insert(34, 'g' as u16);
        key_map.insert(35, 'h' as u16);
        key_map.insert(36, 'j' as u16);
        key_map.insert(37, 'k' as u16);
        key_map.insert(38, 'l' as u16);
        key_map.insert(39, ';' as u16);
        key_map.insert(40, '\'' as u16);
        key_map.insert(41, '`' as u16);
        key_map.insert(43, '\\' as u16);
        key_map.insert(44, 'z' as u16);
        key_map.insert(45, 'x' as u16);
        key_map.insert(46, 'c' as u16);
        key_map.insert(47, 'v' as u16);
        key_map.insert(48, 'b' as u16);
        key_map.insert(49, 'n' as u16);
        key_map.insert(50, 'm' as u16);
        key_map.insert(51, ',' as u16);
        key_map.insert(52, '.' as u16);
        key_map.insert(53, '/' as u16);
        key_map.insert(57416, 131);
        key_map.insert(57419, 130);
        key_map.insert(57421, 132);
        key_map.insert(57424, 133);

        Self { reg: 0, key_map }
    }
}

} // verus!
