use lib::binds::{bindChar, bindKeycode, bindMode, BindTable, KeyBind};
use lib::bindings::{
    dvorak, load, upcase, DOWN, KEY_BACKSPACE, KEY_ENTER, KEY_ESC, KEY_TAB, LAYOUT_LEN, LEFT, OVER,
    RIGHT, UNDER, UP,
};
use lib::state::{I, M, P, R, T};

#[test]
fn dvorak_moves_letters_and_punctuation() {
    assert_eq!(dvorak('A'), 'a');
    assert_eq!(dvorak('B'), 'n');
    assert_eq!(dvorak('S'), ';');
    assert_eq!(dvorak('V'), '.');
    assert_eq!(dvorak('W'), ',');
    assert_eq!(dvorak('Z'), '/');
    assert_eq!(dvorak(','), 'w');
    assert_eq!(dvorak('.'), 'e');
    assert_eq!(dvorak('?'), '{');
}

#[test]
fn dvorak_keeps_other_characters() {
    assert_eq!(dvorak('a'), 'a');
    assert_eq!(dvorak(' '), ' ');
    assert_eq!(dvorak('1'), '1');
    assert_eq!(dvorak('!'), '!');
}

#[test]
fn upcase_shifts_letters_and_punctuation() {
    assert_eq!(upcase('a'), 'A');
    assert_eq!(upcase('z'), 'Z');
    assert_eq!(upcase(';'), ':');
    assert_eq!(upcase(','), '<');
    assert_eq!(upcase('.'), '>');
    assert_eq!(upcase('/'), '?');
}

#[test]
fn upcase_special_cases() {
    assert_eq!(upcase('e'), 'w');
    assert_eq!(upcase('w'), 'w');
    assert_eq!(upcase(' '), ' ');
    assert_eq!(upcase('A'), 'A');
    assert_eq!(upcase('1'), '1');
}

#[test]
fn keycodes_have_flag_and_usage() {
    assert_eq!(KEY_ENTER, 0x4000 | 40);
    assert_eq!(KEY_ESC, 0x4000 | 41);
    assert_eq!(KEY_BACKSPACE, 0x4000 | 42);
    assert_eq!(KEY_TAB, 0x4000 | 43);
    assert_eq!(lib::bindings::KEY_A, 0x4000 | 4);
}

#[test]
fn bind_functions_append_entries() {
    let mut t = BindTable::new();
    bindChar(&mut t, 2, 3, 'x', 1);
    bindKeycode(&mut t, 1, 4, 0x4028, 0);
    bindMode(&mut t, 4, 0, 0, 1);
    assert_eq!(t.len(), 3);
    assert_eq!(
        t.get(0),
        KeyBind { rotation: 2, switch: 3, symbol: b'x', code: 0, mode: 1, set_mode: -1 }
    );
    assert_eq!(
        t.get(1),
        KeyBind { rotation: 1, switch: 4, symbol: 0, code: 0x4028, mode: 0, set_mode: -1 }
    );
    assert_eq!(
        t.get(2),
        KeyBind { rotation: 4, switch: 0, symbol: 0, code: 0, mode: 0, set_mode: 1 }
    );
}

fn ch(r: i8, s: usize, c: char, m: u8) -> KeyBind {
    KeyBind { rotation: r, switch: s as u8, symbol: dvorak(c) as u8, code: 0, mode: m, set_mode: -1 }
}

#[test]
fn load_binds_default_layout() {
    let mut t = BindTable::new();
    load(&mut t);
    assert_eq!(t.len(), LAYOUT_LEN);
    assert_eq!(t.len(), 46);
    assert_eq!(t.get(0), ch(UNDER, T, 'A', 0));
    assert_eq!(t.get(4), ch(UNDER, P, 'U', 0));
    assert_eq!(t.get(5), ch(LEFT, T, 'R', 0));
    assert_eq!(t.get(10), ch(RIGHT, T, 'B', 0));
    assert_eq!(t.get(14), ch(RIGHT, P, ' ', 0));
    assert_eq!(
        t.get(15),
        KeyBind { rotation: OVER, switch: T as u8, symbol: 0, code: 0, mode: 0, set_mode: 1 }
    );
    assert_eq!(t.get(16), ch(OVER, I, 'D', 0));
    assert_eq!(t.get(20), ch(UP, T, 'P', 0));
    assert_eq!(t.get(25), ch(DOWN, T, ' ', 0));
    assert_eq!(t.get(30), ch(OVER, I, '.', 1));
    assert_eq!(t.get(34), ch(LEFT, I, 'J', 1));
    assert_eq!(t.get(38), ch(UP, I, '1', 1));
    assert_eq!(
        t.get(42),
        KeyBind { rotation: UNDER, switch: I as u8, symbol: 0, code: KEY_TAB, mode: 1, set_mode: -1 }
    );
    assert_eq!(
        t.get(45),
        KeyBind { rotation: UNDER, switch: P as u8, symbol: 0, code: KEY_ESC, mode: 1, set_mode: -1 }
    );
    assert_eq!(t.get(1).symbol, b'd');
    assert_eq!(t.get(43).code, KEY_ENTER);
    assert_eq!(t.get(44).code, KEY_BACKSPACE);
    assert_eq!(t.get(33).switch, P as u8);
    assert_eq!(t.get(3).switch, R as u8);
    assert_eq!(t.get(2).switch, M as u8);
}

#[test]
fn load_appends_after_existing_entries() {
    let mut t = BindTable::new();
    bindChar(&mut t, 0, 0, 'q', 3);
    load(&mut t);
    assert_eq!(t.len(), 47);
    assert_eq!(t.get(0).symbol, b'q');
    assert_eq!(t.get(1), ch(UNDER, T, 'A', 0));
}

#[test]
fn layout_has_no_competing_bindings() {
    let mut t = BindTable::new();
    load(&mut t);
    for i in 0..t.len() {
        assert!((t.get(i).switch as usize) < 5);
        for j in (i + 1)..t.len() {
            let (a, b) = (t.get(i), t.get(j));
            assert!(!(a.mode == b.mode && a.rotation == b.rotation && a.switch == b.switch));
        }
    }
}
