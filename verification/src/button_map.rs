//! The fixed table from gamepad buttons to keyboard keys, and the arrow keys
//! that the d-pad drives.

use std::collections::HashMap;
use vstd::prelude::*;
use vstd::std_specs::hash::spec_hash_map_iter;
use vstd::std_specs::iter::IteratorSpec;

verus! {

broadcast use vstd::std_specs::hash::group_hash_axioms;

/// Gamepad face button at the bottom (A).
pub const BTN_SOUTH: u16 = 304;

/// Gamepad face button on the right (B).
pub const BTN_EAST: u16 = 305;

/// Gamepad face button at the top (X).
pub const BTN_NORTH: u16 = 307;

/// Gamepad face button on the left (Y).
pub const BTN_WEST: u16 = 308;

/// Left shoulder button.
pub const BTN_TL: u16 = 310;

/// Right shoulder button.
pub const BTN_TR: u16 = 311;

/// Select button.
pub const BTN_SELECT: u16 = 314;

/// Start button.
pub const BTN_START: u16 = 315;

/// Backspace key.
pub const KEY_BACKSPACE: u16 = 14;

/// Letter key R.
pub const KEY_R: u16 = 19;

/// Letter key Y.
pub const KEY_Y: u16 = 21;

/// Enter key.
pub const KEY_ENTER: u16 = 28;

/// Letter key A.
pub const KEY_A: u16 = 30;

/// Letter key L.
pub const KEY_L: u16 = 38;

/// Letter key X.
pub const KEY_X: u16 = 45;

/// Letter key B.
pub const KEY_B: u16 = 48;

/// Up arrow key.
pub const KEY_UP: u16 = 103;

/// Left arrow key.
pub const KEY_LEFT: u16 = 105;

/// Right arrow key.
pub const KEY_RIGHT: u16 = 106;

/// Down arrow key.
pub const KEY_DOWN: u16 = 108;

/// Key that the d-pad's left direction holds.
pub const DPAD_MAP_LEFT: u16 = KEY_LEFT;

/// Key that the d-pad's right direction holds.
pub const DPAD_MAP_RIGHT: u16 = KEY_RIGHT;

/// Key that the d-pad's up direction holds.
pub const DPAD_MAP_UP: u16 = KEY_UP;

/// Key that the d-pad's down direction holds.
pub const DPAD_MAP_DOWN: u16 = KEY_DOWN;

/// The button table as a mathematical map from button code to key code.
pub open spec fn button_map() -> Map<u16, u16> {
    map![
        BTN_SOUTH => KEY_A,
        BTN_EAST => KEY_B,
        BTN_WEST => KEY_Y,
        BTN_NORTH => KEY_X,
        BTN_START => KEY_ENTER,
        BTN_SELECT => KEY_BACKSPACE,
        BTN_TL => KEY_L,
        BTN_TR => KEY_R,
    ]
}

/// The arrow keys that the d-pad drives.
pub open spec fn dpad_keys() -> Seq<u16> {
    seq![DPAD_MAP_LEFT, DPAD_MAP_RIGHT, DPAD_MAP_UP, DPAD_MAP_DOWN]
}

/// Whether `key` can appear in the output when buttons are mapped by `table`:
/// it is an arrow key, or some button is mapped to it.
pub open spec fn is_output_key(key: u16, table: Map<u16, u16>) -> bool {
    dpad_keys().contains(key) || table.values().contains(key)
}

/// The key that `table` maps a button to.
pub open spec fn key_under(table: Map<u16, u16>) -> spec_fn(u16) -> u16 {
    |button: u16| table[button]
}

/// Whether `keys` holds the key of each button that `table` maps, once for
/// each button, in some order.
pub open spec fn lists_values(keys: Seq<u16>, table: Map<u16, u16>) -> bool {
    exists|buttons: Seq<u16>|
        {
            &&& #[trigger] buttons.no_duplicates()
            &&& buttons.to_set() == table.dom()
            &&& keys == buttons.map_values(key_under(table))
        }
}

/// A list of a finite table's values has one entry for each mapped button
/// and holds exactly the keys that the table maps to.
proof fn lemma_listed_values(keys: Seq<u16>, table: Map<u16, u16>)
    requires
        table.dom().finite(),
        lists_values(keys, table),
    ensures
        keys.len() == table.len(),
        keys.to_set() == table.values(),
{
    let buttons = choose|buttons: Seq<u16>|
        {
            &&& #[trigger] buttons.no_duplicates()
            &&& buttons.to_set() == table.dom()
            &&& keys == buttons.map_values(key_under(table))
        };
    buttons.unique_seq_to_set();
    assert(keys.to_set() =~= table.values()) by {
        assert forall|key: u16| keys.to_set().contains(key) implies table.values().contains(
            key,
        ) by {
            let i = choose|i: int| 0 <= i < keys.len() && keys[i] == key;
            assert(buttons.to_set().contains(buttons[i]));
            assert(table.contains_key(buttons[i]) && table[buttons[i]] == key);
        }
        assert forall|key: u16| table.values().contains(key) implies keys.to_set().contains(
            key,
        ) by {
            let button = choose|button: u16| table.contains_key(button) && table[button] == key;
            assert(buttons.to_set().contains(button));
            let i = choose|i: int| 0 <= i < buttons.len() && buttons[i] == button;
            assert(keys[i] == key);
        }
    }
}

/// A read-only mapping from button code to key code.
pub struct RemapTable {
    map: HashMap<u16, u16>,
}

impl View for RemapTable {
    type V = Map<u16, u16>;

    closed spec fn view(&self) -> Map<u16, u16> {
        self.map@
    }
}

impl RemapTable {
    /// Builds the button table.
    pub fn new() -> (table: RemapTable)
        ensures
            table@ == button_map(),
    {
        let mut map: HashMap<u16, u16> = HashMap::new();
        map.insert(BTN_SOUTH, KEY_A);
        map.insert(BTN_EAST, KEY_B);
        map.insert(BTN_WEST, KEY_Y);
        map.insert(BTN_NORTH, KEY_X);
        map.insert(BTN_START, KEY_ENTER);
        map.insert(BTN_SELECT, KEY_BACKSPACE);
        map.insert(BTN_TL, KEY_L);
        map.insert(BTN_TR, KEY_R);
        assert(map@ =~= button_map());
        RemapTable { map }
    }

    /// The key that `button` is mapped to, if it is mapped.
    pub fn get(&self, button: u16) -> (key: Option<u16>)
        ensures
            key == if self@.contains_key(button) {
                Some(self@[button])
            } else {
                None::<u16>
            },
    {
        match self.map.get(&button) {
            Some(key) => Some(*key),
            None => None,
        }
    }

    /// The keys that the table maps to, one entry for each mapped button, in
    /// no particular order.
    pub fn values(&self) -> (keys: Vec<u16>)
        ensures
            lists_values(keys@, self@),
            keys@.len() == self@.len(),
            keys@.to_set() == self@.values(),
    {
        let mut keys: Vec<u16> = Vec::new();
        let ghost stored = spec_hash_map_iter(&self.map).remaining();
        for entry in it: self.map.iter()
            invariant
                it.seq() == stored,
                stored.no_duplicates(),
                keys@.len() == it.index(),
                forall|j: int| 0 <= j < keys@.len() ==> keys@[j] == *stored[j].1,
        {
            keys.push(*entry.1);
        }
        proof {
            let buttons = Seq::new(stored.len(), |i: int| *stored[i].0);
            assert forall|i: int, j: int|
                0 <= i < buttons.len() && 0 <= j < buttons.len() && i != j implies buttons[i]
                != buttons[j] by {
                assert(self@[*stored[i].0] == *stored[i].1);
                assert(self@[*stored[j].0] == *stored[j].1);
                assert(stored[i] != stored[j]);
            }
            assert(buttons.to_set() =~= self@.dom()) by {
                assert forall|button: u16| self@.dom().contains(button) implies buttons.to_set()
                    .contains(button) by {
                    assert(self@.contains_key(button));
                    let i = choose|i: int|
                        0 <= i < stored.len() && stored[i] == (&button, &self@[button]);
                    assert(buttons[i] == button);
                }
                assert forall|button: u16| buttons.to_set().contains(button) implies self@.dom()
                    .contains(button) by {
                    let i = choose|i: int| 0 <= i < buttons.len() && buttons[i] == button;
                    assert(self@.contains_key(*stored[i].0));
                }
            }
            assert(keys@ =~= buttons.map_values(key_under(self@))) by {
                assert forall|i: int| 0 <= i < keys@.len() implies keys@[i] == self@[buttons[i]] by {
                    assert(self@[*stored[i].0] == *stored[i].1);
                }
            }
            assert(buttons.no_duplicates());
            assert(lists_values(keys@, self@));
            lemma_listed_values(keys@, self@);
        }
        keys
    }
}

/// Lists the keys that the output device must have enabled: the four arrow
/// keys, then the keys that `table` maps to, one entry for each mapped
/// button, in no particular order.
pub fn output_keys(table: &RemapTable) -> (keys: Vec<u16>)
    ensures
        keys@.take(4) == dpad_keys(),
        lists_values(keys@.skip(4), table@),
        keys@.len() == 4 + table@.len(),
        forall|key: u16| keys@.contains(key) <==> is_output_key(key, table@),
{
    let mut keys: Vec<u16> = Vec::new();
    keys.push(DPAD_MAP_LEFT);
    keys.push(DPAD_MAP_RIGHT);
    keys.push(DPAD_MAP_UP);
    keys.push(DPAD_MAP_DOWN);
    let mut mapped: Vec<u16> = table.values();
    let ghost tail = mapped@;
    keys.append(&mut mapped);
    proof {
        assert(keys@.take(4) =~= dpad_keys());
        assert(keys@.skip(4) =~= tail);
        assert forall|key: u16| keys@.contains(key) <==> is_output_key(key, table@) by {
            if keys@.contains(key) {
                let i = choose|i: int| 0 <= i < keys@.len() && keys@[i] == key;
                if i < 4 {
                    assert(dpad_keys()[i] == key);
                } else {
                    assert(tail[i - 4] == key);
                    assert(tail.to_set().contains(key));
                }
            }
            if dpad_keys().contains(key) {
                let i = choose|i: int| 0 <= i < 4 && dpad_keys()[i] == key;
                assert(keys@[i] == key);
            }
            if table@.values().contains(key) {
                assert(tail.to_set().contains(key));
                let i = choose|i: int| 0 <= i < tail.len() && tail[i] == key;
                assert(keys@[i + 4] == key);
            }
        }
    }
    keys
}

} // verus!
