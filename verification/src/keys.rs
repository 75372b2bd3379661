//! Key codes and the router from function keys to virtual terminals.

use vstd::prelude::*;
use std::collections::HashMap;

verus! {

broadcast use vstd::std_specs::hash::group_hash_axioms;

/// Key code of the escape key, the designated exit key.
pub const KEY_ESC: u32 = 1;

/// Key code of the left control key.
pub const KEY_LEFTCTRL: u32 = 29;

/// Key code of the left alt key.
pub const KEY_LEFTALT: u32 = 56;

/// Key code of the first function key; `KEY_F1` through `KEY_F9` are
/// consecutive.
pub const KEY_F1: u32 = 59;

/// Key code of the second function key.
pub const KEY_F2: u32 = 60;

/// Key code of the third function key.
pub const KEY_F3: u32 = 61;

/// Key code of the fourth function key.
pub const KEY_F4: u32 = 62;

/// Key code of the fifth function key.
pub const KEY_F5: u32 = 63;

/// Key code of the sixth function key.
pub const KEY_F6: u32 = 64;

/// Key code of the seventh function key.
pub const KEY_F7: u32 = 65;

/// Key code of the eighth function key.
pub const KEY_F8: u32 = 66;

/// Key code of the ninth function key.
pub const KEY_F9: u32 = 67;

/// Key code of the right control key.
pub const KEY_RIGHTCTRL: u32 = 97;

/// Key code of the right alt key.
pub const KEY_RIGHTALT: u32 = 100;

/// Whether a key transition reported by the input source is a press or a
/// release.
#[derive(Clone, Copy, Debug, PartialEq, Eq, Structural)]
pub enum KeyState {
    Pressed,
    Released,
}

/// The fixed routing table: function keys `F1` through `F9` map to virtual
/// terminals 1 through 9; every other key maps to nothing.
pub open spec fn vt_for_key(key: u32) -> Option<u32> {
    if key == KEY_F1 {
        Some(1u32)
    } else if key == KEY_F2 {
        Some(2u32)
    } else if key == KEY_F3 {
        Some(3u32)
    } else if key == KEY_F4 {
        Some(4u32)
    } else if key == KEY_F5 {
        Some(5u32)
    } else if key == KEY_F6 {
        Some(6u32)
    } else if key == KEY_F7 {
        Some(7u32)
    } else if key == KEY_F8 {
        Some(8u32)
    } else if key == KEY_F9 {
        Some(9u32)
    } else {
        None
    }
}

/// Maps function keys to virtual-terminal numbers.
pub struct KeyMap {
    mappings: HashMap<u32, u32>,
}

impl KeyMap {
    /// The table holds exactly the routing that `vt_for_key` describes.
    pub closed spec fn wf(&self) -> bool {
        forall|k: u32|
            (#[trigger] self.mappings@.contains_key(k) <==> vt_for_key(k) is Some)
            && (self.mappings@.contains_key(k) ==> Some(self.mappings@[k]) == vt_for_key(k))
    }

    /// Builds the routing table.
    pub fn new() -> (r: Self)
        ensures
            r.wf(),
    {
        let mut mappings: HashMap<u32, u32> = HashMap::new();
        mappings.insert(KEY_F1, 1);
        mappings.insert(KEY_F2, 2);
        mappings.insert(KEY_F3, 3);
        mappings.insert(KEY_F4, 4);
        mappings.insert(KEY_F5, 5);
        mappings.insert(KEY_F6, 6);
        mappings.insert(KEY_F7, 7);
        mappings.insert(KEY_F8, 8);
        mappings.insert(KEY_F9, 9);
        KeyMap { mappings }
    }

    /// Looks up the virtual terminal a key routes to, if any.
    pub fn get_vt(&self, key: u32) -> (r: Option<u32>)
        requires
            self.wf(),
        ensures
            r == vt_for_key(key),
    {
        match self.mappings.get(&key) {
            Some(v) => Some(*v),
            None => None,
        }
    }
}

} // verus!
