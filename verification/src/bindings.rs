use vstd::prelude::*;
use crate::binds::{
    bindChar, bindKeycode, bindMode, char_bind, keycode_bind, mode_bind, BindTable, KeyBind,
    BIND_CAPACITY,
};
use crate::state::{T, I, M, R, P};

verus! {

/// Where each character of the keyboard's native (QWERTY) layout sits on a
/// Dvorak layout: upper-case letters and three punctuation marks are moved,
/// every other character stays as it is.
pub open spec fn spec_dvorak(c: char) -> char {
    match c {
        'A' => 'a',
        'B' => 'n',
        'C' => 'i',
        'D' => 'h',
        'E' => 'd',
        'F' => 'y',
        'G' => 'u',
        'H' => 'j',
        'I' => 'g',
        'J' => 'c',
        'K' => 'v',
        'L' => 'p',
        'M' => 'm',
        'N' => 'l',
        'O' => 's',
        'P' => 'r',
        'Q' => 'x',
        'R' => 'o',
        'S' => ';',
        'T' => 'k',
        'U' => 'f',
        'V' => '.',
        'W' => ',',
        'X' => 'b',
        'Y' => 't',
        'Z' => '/',
        ',' => 'w',
        '.' => 'e',
        '?' => '{',
        _ => c,
    }
}

/// Maps a character to the key that types it on a Dvorak host layout.
pub fn dvorak(c: char) -> (r: char)
    ensures
        r == spec_dvorak(c),
{
    match c {
        'A' => 'a',
        'B' => 'n',
        'C' => 'i',
        'D' => 'h',
        'E' => 'd',
        'F' => 'y',
        'G' => 'u',
        'H' => 'j',
        'I' => 'g',
        'J' => 'c',
        'K' => 'v',
        'L' => 'p',
        'M' => 'm',
        'N' => 'l',
        'O' => 's',
        'P' => 'r',
        'Q' => 'x',
        'R' => 'o',
        'S' => ';',
        'T' => 'k',
        'U' => 'f',
        'V' => '.',
        'W' => ',',
        'X' => 'b',
        'Y' => 't',
        'Z' => '/',
        ',' => 'w',
        '.' => 'e',
        '?' => '{',
        _ => c,
    }
}


/// The shifted form of a character on the host layout, as the keyboard
/// types it when the hand is swung hard: letters other than `e` and `w` go to
/// upper case, `;` `,` `.` `/` to `:` `<` `>` `?`, `e` to `w`, and every other
/// character stays as it is.
pub open spec fn spec_upcase(c: char) -> char {
    match c {
        'a' => 'A',
        'b' => 'B',
        'c' => 'C',
        'd' => 'D',
        'f' => 'F',
        'g' => 'G',
        'h' => 'H',
        'i' => 'I',
        'j' => 'J',
        'k' => 'K',
        'l' => 'L',
        'm' => 'M',
        'n' => 'N',
        'o' => 'O',
        'p' => 'P',
        'q' => 'Q',
        'r' => 'R',
        's' => 'S',
        't' => 'T',
        'u' => 'U',
        'v' => 'V',
        'x' => 'X',
        'y' => 'Y',
        'z' => 'Z',
        ';' => ':',
        ',' => '<',
        '.' => '>',
        '/' => '?',
        'e' => 'w',
        _ => c,
    }
}

/// Shifts a character as described by [`spec_upcase`].
pub fn upcase(c: char) -> (r: char)
    ensures
        r == spec_upcase(c),
{
    match c {
        'a' => 'A',
        'b' => 'B',
        'c' => 'C',
        'd' => 'D',
        'f' => 'F',
        'g' => 'G',
        'h' => 'H',
        'i' => 'I',
        'j' => 'J',
        'k' => 'K',
        'l' => 'L',
        'm' => 'M',
        'n' => 'N',
        'o' => 'O',
        'p' => 'P',
        'q' => 'Q',
        'r' => 'R',
        's' => 'S',
        't' => 'T',
        'u' => 'U',
        'v' => 'V',
        'x' => 'X',
        'y' => 'Y',
        'z' => 'Z',
        ';' => ':',
        ',' => '<',
        '.' => '>',
        '/' => '?',
        'e' => 'w',
        _ => c,
    }
}


/// Rotation of the hand: turned left.
pub const LEFT: i8 = 0;
/// Rotation of the hand: turned right.
pub const RIGHT: i8 = 1;
/// Rotation of the hand: tilted up.
pub const UP: i8 = 2;
/// Rotation of the hand: tilted down.
pub const DOWN: i8 = 3;
/// Rotation of the hand: palm over.
pub const OVER: i8 = 4;
/// Rotation of the hand: palm under.
pub const UNDER: i8 = 5;

/// HID usage of the Enter key, flagged as a keycode.
pub const KEY_ENTER: u16 = 0x4028;
/// HID usage of the Escape key, flagged as a keycode.
pub const KEY_ESC: u16 = 0x4029;
/// HID usage of the Backspace key, flagged as a keycode.
pub const KEY_BACKSPACE: u16 = 0x402a;
/// HID usage of the Tab key, flagged as a keycode.
pub const KEY_TAB: u16 = 0x402b;
/// HID usage of the A key, flagged as a keycode.
pub const KEY_A: u16 = 0x4004;

/// The entry that [`bindDv`] appends: a character binding typed through the
/// Dvorak mapping.
pub open spec fn dv_bind(r: i8, s: usize, c: char, m: u8) -> KeyBind {
    char_bind(r, s, spec_dvorak(c), m)
}

/// Number of entries of the default layout.
pub const LAYOUT_LEN: usize = 46;

/// Characters bound to the five keys `T I M R P` at one rotation.
pub open spec fn dv_row5(r: i8, cs: (char, char, char, char, char), m: u8) -> Seq<KeyBind> {
    seq![
        dv_bind(r, T, cs.0, m),
        dv_bind(r, I, cs.1, m),
        dv_bind(r, M, cs.2, m),
        dv_bind(r, R, cs.3, m),
        dv_bind(r, P, cs.4, m),
    ]
}

/// Characters bound to the four finger keys `I M R P` at one rotation.
pub open spec fn dv_row4(r: i8, cs: (char, char, char, char), m: u8) -> Seq<KeyBind> {
    seq![dv_bind(r, I, cs.0, m), dv_bind(r, M, cs.1, m), dv_bind(r, R, cs.2, m), dv_bind(r, P, cs.3, m)]
}

/// Keycodes bound to the four finger keys `I M R P` at one rotation.
pub open spec fn kc_row4(r: i8, cs: (u16, u16, u16, u16), m: u8) -> Seq<KeyBind> {
    seq![
        keycode_bind(r, I, cs.0, m),
        keycode_bind(r, M, cs.1, m),
        keycode_bind(r, R, cs.2, m),
        keycode_bind(r, P, cs.3, m),
    ]
}

/// The bindings of mode 0: the letters, and the thumb at palm-over switching
/// to mode 1.
pub open spec fn layout_mode0() -> Seq<KeyBind> {
    dv_row5(UNDER, ('A', 'E', 'I', 'O', 'U'), 0) + dv_row5(LEFT, ('R', 'S', 'T', 'H', 'C'), 0)
        + dv_row5(RIGHT, ('B', 'F', 'G', 'Y', ' '), 0) + seq![mode_bind(OVER, T, 0, 1)]
        + dv_row4(OVER, ('D', 'M', 'N', 'L'), 0) + dv_row5(UP, ('P', 'V', 'W', 'K', ' '), 0)
        + dv_row5(DOWN, (' ', ' ', ' ', ' ', ' '), 0)
}

/// The bindings of mode 1: punctuation, a few digits and the editing keys.
pub open spec fn layout_mode1() -> Seq<KeyBind> {
    dv_row4(OVER, ('.', ',', '!', '?'), 1) + dv_row4(LEFT, ('J', 'Q', 'X', 'Z'), 1)
        + dv_row4(UP, ('1', '2', '4', '8'), 1)
        + kc_row4(UNDER, (KEY_TAB, KEY_ENTER, KEY_BACKSPACE, KEY_ESC), 1)
}

/// The default layout, in binding order.
pub open spec fn default_layout() -> Seq<KeyBind> {
    layout_mode0() + layout_mode1()
}

/// Binds a keycode in the given mode.
#[allow(non_snake_case)]
fn bindKc(table: &mut BindTable, mode: u8, r: i8, s: usize, c: u16)
    requires
        old(table).wf(),
        old(table)@.len() < BIND_CAPACITY,
    ensures
        final(table).wf(),
        final(table)@ == old(table)@.push(keycode_bind(r, s, c, mode)),
{
    bindKeycode(table, r, s, c, mode);
}

/// Binds a character, as placed on a Dvorak host layout, in the given mode.
#[allow(non_snake_case)]
fn bindDv(table: &mut BindTable, mode: u8, r: i8, s: usize, c: char)
    requires
        old(table).wf(),
        old(table)@.len() < BIND_CAPACITY,
    ensures
        final(table).wf(),
        final(table)@ == old(table)@.push(dv_bind(r, s, c, mode)),
{
    bindChar(table, r, s, dvorak(c), mode);
}

fn bind_row5(table: &mut BindTable, mode: u8, r: i8, cs: (char, char, char, char, char))
    requires
        old(table).wf(),
        old(table)@.len() + 5 <= BIND_CAPACITY,
    ensures
        final(table).wf(),
        final(table)@ == old(table)@ + dv_row5(r, cs, mode),
{
    bindDv(table, mode, r, T, cs.0);
    bindDv(table, mode, r, I, cs.1);
    bindDv(table, mode, r, M, cs.2);
    bindDv(table, mode, r, R, cs.3);
    bindDv(table, mode, r, P, cs.4);
    assert(table@ =~= old(table)@ + dv_row5(r, cs, mode));
}

fn bind_row4(table: &mut BindTable, mode: u8, r: i8, cs: (char, char, char, char))
    requires
        old(table).wf(),
        old(table)@.len() + 4 <= BIND_CAPACITY,
    ensures
        final(table).wf(),
        final(table)@ == old(table)@ + dv_row4(r, cs, mode),
{
    bindDv(table, mode, r, I, cs.0);
    bindDv(table, mode, r, M, cs.1);
    bindDv(table, mode, r, R, cs.2);
    bindDv(table, mode, r, P, cs.3);
    assert(table@ =~= old(table)@ + dv_row4(r, cs, mode));
}

fn bind_keycodes4(table: &mut BindTable, mode: u8, r: i8, cs: (u16, u16, u16, u16))
    requires
        old(table).wf(),
        old(table)@.len() + 4 <= BIND_CAPACITY,
    ensures
        final(table).wf(),
        final(table)@ == old(table)@ + kc_row4(r, cs, mode),
{
    bindKc(table, mode, r, I, cs.0);
    bindKc(table, mode, r, M, cs.1);
    bindKc(table, mode, r, R, cs.2);
    bindKc(table, mode, r, P, cs.3);
    assert(table@ =~= old(table)@ + kc_row4(r, cs, mode));
}

/// Appends the default layout to the table.
pub fn load(table: &mut BindTable)
    requires
        old(table).wf(),
        old(table)@.len() + LAYOUT_LEN <= BIND_CAPACITY,
    ensures
        final(table).wf(),
        final(table)@ == old(table)@ + default_layout(),
{
    let ghost t0 = table@;
    let mut mode: u8 = 0;
    bind_row5(table, mode, UNDER, ('A', 'E', 'I', 'O', 'U'));
    bind_row5(table, mode, LEFT, ('R', 'S', 'T', 'H', 'C'));
    bind_row5(table, mode, RIGHT, ('B', 'F', 'G', 'Y', ' '));
    bindMode(table, OVER, T, mode, 1);
    bind_row4(table, mode, OVER, ('D', 'M', 'N', 'L'));
    bind_row5(table, mode, UP, ('P', 'V', 'W', 'K', ' '));
    bind_row5(table, mode, DOWN, (' ', ' ', ' ', ' ', ' '));
    assert(table@ =~= t0 + layout_mode0());
    let ghost t1 = table@;

    mode = 1;

    bind_row4(table, mode, OVER, ('.', ',', '!', '?'));
    bind_row4(table, mode, LEFT, ('J', 'Q', 'X', 'Z'));
    bind_row4(table, mode, UP, ('1', '2', '4', '8'));
    bind_keycodes4(table, mode, UNDER, (KEY_TAB, KEY_ENTER, KEY_BACKSPACE, KEY_ESC));
    assert(table@ =~= t1 + layout_mode1());
    assert(table@ =~= t0 + default_layout());
}

} // verus!
