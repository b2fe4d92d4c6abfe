use vstd::prelude::*;

verus! {

/// Number of bindings the table can hold.
pub const BIND_CAPACITY: usize = 64;

/// Number of keys on the keyboard.
pub const NUM_KEYS: usize = 5;

/// One entry of the key map: in `mode`, while the hand is turned to
/// `rotation`, pressing key `switch` types `symbol` (when `code` is 0 and
/// `symbol` is not), taps the keycode `code` (when it is not 0), and, when
/// `set_mode` is not negative, switches the keyboard to mode `set_mode`.
#[derive(Clone, Copy, Debug, PartialEq, Eq, Structural)]
pub struct KeyBind {
    pub rotation: i8,
    pub switch: u8,
    pub symbol: u8,
    pub code: u16,
    pub mode: u8,
    pub set_mode: i8,
}

/// The key map, in the order in which its entries were bound.
pub struct BindTable {
    pub binds: Vec<KeyBind>,
}

impl View for BindTable {
    type V = Seq<KeyBind>;

    open spec fn view(&self) -> Seq<KeyBind> {
        self.binds@
    }
}

/// The binding names one of the keys.
pub open spec fn bind_wf(b: KeyBind) -> bool {
    b.switch < NUM_KEYS
}

impl BindTable {
    /// The table holds at most [`BIND_CAPACITY`] entries.
    pub open spec fn wf(&self) -> bool {
        self@.len() <= BIND_CAPACITY
    }

    /// An empty table.
    pub fn new() -> (t: BindTable)
        ensures
            t.wf(),
            t@ == Seq::<KeyBind>::empty(),
    {
        BindTable { binds: Vec::new() }
    }

    /// Number of entries bound so far.
    pub fn len(&self) -> (n: usize)
        ensures
            n == self@.len(),
    {
        self.binds.len()
    }

    /// The entry at position `i`.
    pub fn get(&self, i: usize) -> (b: KeyBind)
        requires
            i < self@.len(),
        ensures
            b == self@[i as int],
    {
        self.binds[i]
    }

    fn push(&mut self, b: KeyBind)
        requires
            old(self).wf(),
            old(self)@.len() < BIND_CAPACITY,
        ensures
            final(self).wf(),
            final(self)@ == old(self)@.push(b),
    {
        self.binds.push(b);
    }
}

/// The entry that [`bindChar`] appends.
pub open spec fn char_bind(r: i8, s: usize, c: char, m: u8) -> KeyBind {
    KeyBind { rotation: r, switch: s as u8, code: 0, symbol: c as u8, mode: m, set_mode: -1i8 }
}

/// The entry that [`bindKeycode`] appends.
pub open spec fn keycode_bind(r: i8, s: usize, c: u16, m: u8) -> KeyBind {
    KeyBind { rotation: r, switch: s as u8, code: c, symbol: 0, mode: m, set_mode: -1i8 }
}

/// The entry that [`bindMode`] appends.
pub open spec fn mode_bind(r: i8, s: usize, m: u8, sm: i8) -> KeyBind {
    KeyBind { rotation: r, switch: s as u8, code: 0, symbol: 0, mode: m, set_mode: sm }
}

/// Binds key `s`, at rotation `r` in mode `m`, to typing the low byte of `c`.
#[allow(non_snake_case)]
pub fn bindChar(table: &mut BindTable, r: i8, s: usize, c: char, m: u8)
    requires
        old(table).wf(),
        old(table)@.len() < BIND_CAPACITY,
    ensures
        final(table).wf(),
        final(table)@ == old(table)@.push(char_bind(r, s, c, m)),
{
    table.push(KeyBind { rotation: r, switch: s as u8, code: 0, symbol: c as u8, mode: m, set_mode: -1 });
}

/// Binds key `s`, at rotation `r` in mode `m`, to tapping keycode `c`.
#[allow(non_snake_case)]
pub fn bindKeycode(table: &mut BindTable, r: i8, s: usize, c: u16, m: u8)
    requires
        old(table).wf(),
        old(table)@.len() < BIND_CAPACITY,
    ensures
        final(table).wf(),
        final(table)@ == old(table)@.push(keycode_bind(r, s, c, m)),
{
    table.push(KeyBind { rotation: r, switch: s as u8, code: c, symbol: 0, mode: m, set_mode: -1 });
}

/// Binds key `s`, at rotation `r` in mode `m`, to switching to mode `sm`.
#[allow(non_snake_case)]
pub fn bindMode(table: &mut BindTable, r: i8, s: usize, m: u8, sm: i8)
    requires
        old(table).wf(),
        old(table)@.len() < BIND_CAPACITY,
    ensures
        final(table).wf(),
        final(table)@ == old(table)@.push(mode_bind(r, s, m, sm)),
{
    table.push(KeyBind { rotation: r, switch: s as u8, code: 0, symbol: 0, mode: m, set_mode: sm });
}

} // verus!
