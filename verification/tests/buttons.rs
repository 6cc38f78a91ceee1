//! Button events: looked up in the table, passed through or dropped.

use gamepad_remap::button_map::{
    output_keys, RemapTable, BTN_EAST, BTN_NORTH, BTN_SELECT, BTN_SOUTH, BTN_START, BTN_TL,
    BTN_TR, BTN_WEST, KEY_A, KEY_B, KEY_BACKSPACE, KEY_DOWN, KEY_ENTER, KEY_L, KEY_LEFT, KEY_R,
    KEY_RIGHT, KEY_UP, KEY_X, KEY_Y,
};
use gamepad_remap::event::{OutputKeyEvent, RawInputEvent, TimeVal, EV_KEY, EV_SYN, SYN_REPORT};
use gamepad_remap::mode::DPadMode;
use gamepad_remap::remap::remap_event;

const PAIRS: [(u16, u16); 8] = [
    (BTN_SOUTH, KEY_A),
    (BTN_EAST, KEY_B),
    (BTN_WEST, KEY_Y),
    (BTN_NORTH, KEY_X),
    (BTN_START, KEY_ENTER),
    (BTN_SELECT, KEY_BACKSPACE),
    (BTN_TL, KEY_L),
    (BTN_TR, KEY_R),
];

fn button(time: TimeVal, code: u16, value: i32) -> RawInputEvent {
    RawInputEvent { time, kind: EV_KEY, code, value }
}

#[test]
fn table_holds_the_eight_pairs() {
    let table = RemapTable::new();
    for (from, to) in PAIRS {
        assert_eq!(table.get(from), Some(to));
    }
}

#[test]
fn table_codes_are_the_kernel_numbers() {
    let table = RemapTable::new();
    assert_eq!(table.get(304), Some(30));
    assert_eq!(table.get(305), Some(48));
    assert_eq!(table.get(308), Some(21));
    assert_eq!(table.get(307), Some(45));
    assert_eq!(table.get(315), Some(28));
    assert_eq!(table.get(314), Some(14));
    assert_eq!(table.get(310), Some(38));
    assert_eq!(table.get(311), Some(19));
}

#[test]
fn table_maps_nothing_else() {
    let table = RemapTable::new();
    let mapped: Vec<u16> = PAIRS.iter().map(|pair| pair.0).collect();
    for code in 0..=u16::MAX {
        if !mapped.contains(&code) {
            assert_eq!(table.get(code), None);
        }
    }
}

#[test]
fn table_values_are_the_mapped_keys() {
    let table = RemapTable::new();
    let mut values = table.values();
    values.sort();
    let mut expected: Vec<u16> = PAIRS.iter().map(|pair| pair.1).collect();
    expected.sort();
    assert_eq!(values, expected);
}

#[test]
fn output_keys_start_with_the_arrows() {
    let table = RemapTable::new();
    let keys = output_keys(&table);
    assert_eq!(keys.len(), 12);
    assert_eq!(keys[..4], [KEY_LEFT, KEY_RIGHT, KEY_UP, KEY_DOWN]);
    assert_eq!(keys[..4], [105, 106, 103, 108]);
    let mut rest = keys[4..].to_vec();
    rest.sort();
    let mut expected: Vec<u16> = PAIRS.iter().map(|pair| pair.1).collect();
    expected.sort();
    assert_eq!(rest, expected);
}

#[test]
fn mapped_button_passes_through() {
    let table = RemapTable::new();
    let time = TimeVal { tv_sec: 1_700_000_000, tv_usec: 250_000 };
    for (from, to) in PAIRS {
        for value in [0, 1] {
            for start in [DPadMode::Default, DPadMode::Left] {
                let mut mode = start;
                let out = remap_event(&button(time, from, value), &mut mode, &table);
                assert_eq!(out, vec![OutputKeyEvent { time, key: to, value }]);
                assert_eq!(mode, start);
            }
        }
    }
}

#[test]
fn south_press_becomes_a_press() {
    let table = RemapTable::new();
    let time = TimeVal { tv_sec: 12, tv_usec: 34 };
    let mut mode = DPadMode::Default;
    let out = remap_event(&button(time, BTN_SOUTH, 1), &mut mode, &table);
    assert_eq!(out.len(), 1);
    assert_eq!(out[0].key, KEY_A);
    assert_eq!(out[0].value, 1);
    assert_eq!(out[0].time, time);
}

#[test]
fn start_release_becomes_enter_release() {
    let table = RemapTable::new();
    let time = TimeVal { tv_sec: 99, tv_usec: 999_999 };
    let mut mode = DPadMode::Left;
    let out = remap_event(&button(time, BTN_START, 0), &mut mode, &table);
    assert_eq!(out, vec![OutputKeyEvent { time, key: KEY_ENTER, value: 0 }]);
    assert_eq!(mode, DPadMode::Left);
}

#[test]
fn button_value_is_kept_as_it_came() {
    let table = RemapTable::new();
    let time = TimeVal { tv_sec: 3, tv_usec: 4 };
    let mut mode = DPadMode::Default;
    let out = remap_event(&button(time, BTN_TL, 2), &mut mode, &table);
    assert_eq!(out, vec![OutputKeyEvent { time, key: KEY_L, value: 2 }]);
}

#[test]
fn unmapped_button_is_silent() {
    let table = RemapTable::new();
    let time = TimeVal { tv_sec: 5, tv_usec: 6 };
    // BTN_C, BTN_Z, BTN_MODE, BTN_THUMBL, and keyboard keys arriving as input.
    for code in [306, 309, 316, 317, KEY_A, KEY_LEFT, 0, u16::MAX] {
        for value in [0, 1] {
            let mut mode = DPadMode::Default;
            let out = remap_event(&button(time, code, value), &mut mode, &table);
            assert!(out.is_empty());
            assert_eq!(mode, DPadMode::Default);
        }
    }
}

#[test]
fn unmapped_button_leaves_left_mode() {
    let table = RemapTable::new();
    let time = TimeVal { tv_sec: 5, tv_usec: 6 };
    let mut mode = DPadMode::Left;
    let out = remap_event(&button(time, 306, 1), &mut mode, &table);
    assert!(out.is_empty());
    assert_eq!(mode, DPadMode::Left);
}

#[test]
fn report_is_the_key_event_then_a_sync() {
    let time = TimeVal { tv_sec: 8, tv_usec: 9 };
    let records = OutputKeyEvent { time, key: KEY_A, value: 1 }.report();
    assert_eq!(
        records,
        vec![
            RawInputEvent { time, kind: 1, code: 30, value: 1 },
            RawInputEvent { time, kind: 0, code: 0, value: 0 },
        ]
    );
    let records = OutputKeyEvent { time, key: KEY_LEFT, value: 0 }.report();
    assert_eq!(records[0], RawInputEvent { time, kind: EV_KEY, code: KEY_LEFT, value: 0 });
    assert_eq!(records[1], RawInputEvent { time, kind: EV_SYN, code: SYN_REPORT, value: 0 });
    assert_eq!(records.len(), 2);
}

#[test]
fn values_keep_one_entry_for_each_button() {
    let table = RemapTable::new();
    let values = table.values();
    assert_eq!(values.len(), 8);
    for (_, to) in PAIRS {
        assert_eq!(values.iter().filter(|key| **key == to).count(), 1);
    }
}
