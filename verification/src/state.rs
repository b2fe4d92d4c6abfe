use vstd::prelude::*;
use crate::binds::{BindTable, KeyBind, NUM_KEYS};
use crate::bindings::{default_layout, dvorak, load, spec_dvorak, spec_upcase, upcase};
use vstd::string::StringSliceAdditionalSpecFns;

verus! {

/// Key under the thumb.
pub const T: usize = 0;
/// Key under the index finger.
pub const I: usize = 1;
/// Key under the middle finger.
pub const M: usize = 2;
/// Key under the ring finger.
pub const R: usize = 3;
/// Key under the little finger.
pub const P: usize = 4;

/// Number of calibrated rotations.
pub const NUM_CALIBRATIONS: usize = 6;

/// Length of the heartbeat cycle, in frames.
pub const HEARTBEAT_PERIOD: u32 = 5000;

/// Number of frames of the heartbeat cycle during which the LED is lit.
pub const HEARTBEAT_ON: u32 = 10;

/// Number of consecutive frames with all keys held after which the keyboard
/// starts calibrating again.
pub const CALIBRATION_TRIGGER_FRAMES: u32 = 3000;

/// What the keyboard is doing between frames.
#[derive(Clone, Copy, Debug, PartialEq, Eq, Structural)]
pub enum Phase {
    /// Typing: each newly pressed key fires the bindings that match.
    Idle,
    /// About to calibrate the next rotation, or to store the calibrations.
    Calibrate,
    /// Averaging gyroscope readings while the thumb key is held.
    Collect,
    /// Waiting for the user to accept (`M`) or redo (`P`) the calibration.
    Confirm,
}

/// A message printed on the debug console.
#[derive(Clone, Copy, Debug, PartialEq, Eq, Structural)]
pub enum Notice {
    /// "Calibrating an axis. Hold T and rotate."
    CalibrateAxis,
    /// "All calibrated! Storing values..."
    AllCalibrated,
    /// "Confirm calibration. M to confirm, P to cancel"
    ConfirmPrompt,
    /// "Calibration accepted!"
    Accepted,
    /// "Recalibrating..."
    Recalibrating,
}

impl Notice {
    /// The text printed for this message.
    pub open spec fn spec_text(self) -> Seq<char> {
        match self {
            Notice::CalibrateAxis => "Calibrating an axis. Hold T and rotate.\n"@,
            Notice::AllCalibrated => "All calibrated! Storing values...\n"@,
            Notice::ConfirmPrompt => "Confirm calibration.\nM to confirm, P to cancel\n"@,
            Notice::Accepted => "Calibration accepted!\n"@,
            Notice::Recalibrating => "Recalibrating...\n"@,
        }
    }

    /// The text printed for this message, as [`Notice::spec_text`] gives it.
    pub fn text(&self) -> (s: &'static str)
        ensures
            s@ == self.spec_text(),
    {
        match self {
            Notice::CalibrateAxis => "Calibrating an axis. Hold T and rotate.\n",
            Notice::AllCalibrated => "All calibrated! Storing values...\n",
            Notice::ConfirmPrompt => "Confirm calibration.\nM to confirm, P to cancel\n",
            Notice::Accepted => "Calibration accepted!\n",
            Notice::Recalibrating => "Recalibrating...\n",
        }
    }
}

/// What the keyboard asks its surroundings to do, in order.
#[derive(Clone, Copy, Debug, PartialEq, Eq, Structural)]
pub enum Output {
    /// Type a character on the USB keyboard.
    Type(char),
    /// Press a USB keycode.
    Press(u16),
    /// Release a USB keycode.
    Release(u16),
    /// Print a message on the debug console.
    Notice(Notice),
    /// Start a new calibration: clear the running average of the gyroscope.
    ResetAverage,
    /// Fold the normalized gyroscope reading into the running average, which
    /// already holds this many readings.
    Accumulate(u32),
    /// Take the running average as the candidate calibration.
    FreezeAverage,
    /// Send the report of a reading close to the candidate on the serial port.
    ReportHit,
    /// Store the candidate as the calibration with this index.
    StoreCalibration(usize),
    /// Write all calibrations to persistent memory.
    SaveCalibrations,
    /// Drive the LED.
    Led(bool),
}

/// The keyboard's state between two frames.
pub struct Keyboard {
    pub binds: BindTable,
    pub mode: u8,
    /// Keys pressed since the keyboard last switched mode.
    pub mode_mask: [bool; 5],
    /// Keys held in this frame.
    pub keys: [bool; 5],
    /// Keys held in the previous frame.
    pub key_cache: [bool; 5],
    pub led: bool,
    pub heartbeat: u32,
    /// Number of rotations calibrated so far.
    pub calibrated: usize,
    /// Number of readings in the running calibration average.
    pub cal_samples: u32,
    /// Whether the hand is turning fast enough to select a rotation.
    pub rotating: bool,
    /// The selected rotation: index of the nearest calibration, or
    /// `usize::MAX` when none is near.
    pub rotation: usize,
    /// Number of consecutive frames with all keys held.
    pub trigger_frames: u32,
    pub phase: Phase,
}

/// The mathematical view of a [`Keyboard`].
#[verifier::ext_equal]
pub struct KeyboardModel {
    pub binds: Seq<KeyBind>,
    pub mode: u8,
    pub mode_mask: Seq<bool>,
    pub keys: Seq<bool>,
    pub key_cache: Seq<bool>,
    pub led: bool,
    pub heartbeat: u32,
    pub calibrated: usize,
    pub cal_samples: u32,
    pub rotating: bool,
    pub rotation: usize,
    pub trigger_frames: u32,
    pub phase: Phase,
}

impl View for Keyboard {
    type V = KeyboardModel;

    open spec fn view(&self) -> KeyboardModel {
        KeyboardModel {
            binds: self.binds@,
            mode: self.mode,
            mode_mask: self.mode_mask@,
            keys: self.keys@,
            key_cache: self.key_cache@,
            led: self.led,
            heartbeat: self.heartbeat,
            calibrated: self.calibrated,
            cal_samples: self.cal_samples,
            rotating: self.rotating,
            rotation: self.rotation,
            trigger_frames: self.trigger_frames,
            phase: self.phase,
        }
    }
}

impl KeyboardModel {
    /// The key map fits its table and every binding names one of the keys,
    /// there is one flag per key, the heartbeat stays within its cycle, no
    /// more rotations are calibrated than there are, and a calibration in
    /// progress has a slot to go to.
    pub open spec fn wf(self) -> bool {
        &&& self.binds.len() <= crate::binds::BIND_CAPACITY
        &&& forall|i: int| 0 <= i < self.binds.len() ==> crate::binds::bind_wf(#[trigger] self.binds[i])
        &&& self.mode_mask.len() == NUM_KEYS
        &&& self.keys.len() == NUM_KEYS
        &&& self.key_cache.len() == NUM_KEYS
        &&& self.heartbeat < HEARTBEAT_PERIOD
        &&& self.calibrated <= NUM_CALIBRATIONS
        &&& (self.phase == Phase::Collect || self.phase == Phase::Confirm) ==> self.calibrated
            < NUM_CALIBRATIONS
    }

    /// Key `k` went down since the previous frame.
    pub open spec fn key_down(self, k: int) -> bool {
        self.keys[k] && !self.key_cache[k]
    }

    /// Key `k` went up since the previous frame.
    pub open spec fn key_up(self, k: int) -> bool {
        !self.keys[k] && self.key_cache[k]
    }
}

impl Keyboard {
    /// Whether key `key` went down since the previous frame.
    #[allow(non_snake_case)]
    pub fn keyDown(&self, key: usize) -> (b: bool)
        requires
            key < NUM_KEYS,
        ensures
            b == self@.key_down(key as int),
    {
        self.keys[key] && !self.key_cache[key]
    }

    /// Whether key `key` went up since the previous frame.
    #[allow(non_snake_case)]
    pub fn keyUp(&self, key: usize) -> (b: bool)
        requires
            key < NUM_KEYS,
        ensures
            b == self@.key_up(key as int),
    {
        !self.keys[key] && self.key_cache[key]
    }
}

/// Whether every key after the thumb's is clear in `mask`.
pub open spec fn fingers_clear(mask: Seq<bool>) -> bool {
    !mask[I as int] && !mask[M as int] && !mask[R as int] && !mask[P as int]
}

/// End of a frame. When the thumb is released, mode 1 falls back to mode 0,
/// typing a space if no finger key was pressed while in it; the keys of this
/// frame become the previous frame's, are added to the mode mask, and the LED
/// is driven.
pub open spec fn spec_post(m: KeyboardModel) -> (KeyboardModel, Seq<Output>) {
    let thumb_up = m.key_up(T as int);
    let space = thumb_up && m.mode == 1 && fingers_clear(m.mode_mask);
    let out = if space { seq![Output::Type(' ')] } else { Seq::empty() };
    (
        KeyboardModel {
            mode: if thumb_up { 0 } else { m.mode },
            key_cache: m.keys,
            mode_mask: Seq::new(NUM_KEYS as nat, |k: int| m.mode_mask[k] || m.keys[k]),
            ..m
        },
        out.push(Output::Led(m.led)),
    )
}

/// End of a frame, as [`spec_post`] describes.
pub fn post(kb: &mut Keyboard) -> (out: Vec<Output>)
    requires
        old(kb)@.wf(),
    ensures
        final(kb)@.wf(),
        final(kb)@ == spec_post(old(kb)@).0,
        out@ == spec_post(old(kb)@).1,
{
    let mut out: Vec<Output> = Vec::new();
    if kb.keyUp(T) {
        if kb.mode == 1 {
            if !kb.mode_mask[I] && !kb.mode_mask[M] && !kb.mode_mask[R] && !kb.mode_mask[P] {
                out.push(Output::Type(' '));
            }
        }
        kb.mode = 0;
    }
    let keys = kb.keys;
    let mut mask = kb.mode_mask;
    let mut k: usize = 0;
    while k < NUM_KEYS
        invariant
            k <= NUM_KEYS,
            forall|j: int| 0 <= j < k ==> mask@[j] == (old(kb)@.mode_mask[j] || keys@[j]),
            forall|j: int| k <= j < NUM_KEYS ==> mask@[j] == old(kb)@.mode_mask[j],
            keys@ == old(kb)@.keys,
        decreases NUM_KEYS - k,
    {
        let ghost before = mask@;
        let b = mask[k] || keys[k];
        mask[k] = b;
        assert(mask@ == before.update(k as int, b));
        k += 1;
    }
    kb.key_cache = keys;
    kb.mode_mask = mask;
    out.push(Output::Led(kb.led));
    assert(kb@ =~= spec_post(old(kb)@).0);
    out
}

/// One sensor reading, as the keyboard's logic sees it.
pub struct Frame {
    /// Keys held in this frame.
    pub keys: [bool; 5],
    /// Whether the gyroscope reads a turn fast enough to select a rotation.
    pub spinning: bool,
    /// For each calibration, an order-preserving key of the squared distance
    /// between it and the normalized gyroscope reading: a smaller key is a
    /// nearer calibration.
    pub distances: [u32; 6],
}

/// The key of the largest finite distance: a calibration at this key or
/// beyond is never selected.
pub const DISTANCE_LIMIT: u32 = 0x7f7f_ffff;

/// Best key and index among the first `n` distances, scanning from the
/// first and keeping the earlier of equal keys.
pub open spec fn nearest_prefix(d: Seq<u32>, n: nat) -> (u32, usize)
    decreases n,
{
    if n == 0 {
        (DISTANCE_LIMIT, usize::MAX)
    } else {
        let (best, idx) = nearest_prefix(d, (n - 1) as nat);
        if d[n - 1] < best {
            (d[n - 1], (n - 1) as usize)
        } else {
            (best, idx)
        }
    }
}

/// Index of the nearest calibration, or `usize::MAX` when none is nearer
/// than [`DISTANCE_LIMIT`].
pub open spec fn nearest(d: Seq<u32>) -> usize {
    nearest_prefix(d, d.len()).1
}

/// Index of the nearest calibration, as [`nearest`] describes.
pub fn nearest_calibration(distances: &[u32; 6]) -> (r: usize)
    ensures
        r == nearest(distances@),
{
    let mut best: u32 = DISTANCE_LIMIT;
    let mut idx: usize = usize::MAX;
    let mut i: usize = 0;
    while i < NUM_CALIBRATIONS
        invariant
            i <= NUM_CALIBRATIONS,
            distances@.len() == NUM_CALIBRATIONS,
            (best, idx) == nearest_prefix(distances@, i as nat),
        decreases NUM_CALIBRATIONS - i,
    {
        if distances[i] < best {
            best = distances[i];
            idx = i;
        }
        i += 1;
    }
    idx
}

/// The outputs that typing the bytes `bs` produces: each byte, taken as a
/// character, through the Dvorak mapping.
pub open spec fn typed_bytes(bs: Seq<u8>) -> Seq<Output> {
    bs.map_values(|b: u8| Output::Type(spec_dvorak(b as char)))
}

/// Types each byte of `s`, through the Dvorak mapping.
#[allow(non_snake_case)]
pub fn keyboard_write(s: &str) -> (out: Vec<Output>)
    ensures
        out@ == typed_bytes(s.spec_bytes()),
{
    let bytes = s.as_bytes();
    let mut out: Vec<Output> = Vec::new();
    let mut i: usize = 0;
    while i < bytes.len()
        invariant
            i <= bytes@.len(),
            bytes@ == s.spec_bytes(),
            out@ == typed_bytes(bytes@.take(i as int)),
        decreases bytes@.len() - i,
    {
        let c = dvorak(bytes[i] as char);
        out.push(Output::Type(c));
        assert(bytes@.take(i + 1) == bytes@.take(i as int).push(bytes@[i as int]));
        i += 1;
    }
    assert(bytes@.take(bytes@.len() as int) == bytes@);
    out
}

/// The word typed when a recalibration starts, as bytes: `cal`.
pub open spec fn recalibrate_word() -> Seq<u8> {
    seq![99u8, 97u8, 108u8]
}

/// Whether all five keys are held.
pub open spec fn all_held(keys: Seq<bool>) -> bool {
    keys[T as int] && keys[I as int] && keys[M as int] && keys[R as int] && keys[P as int]
}

/// Whether the frame counter of [`read`] would pass `u32::MAX`.
pub open spec fn read_overflows(m: KeyboardModel, f: Frame) -> bool {
    all_held(f.keys@) && m.trigger_frames == u32::MAX
}

/// Start of a frame. The keys are taken in; the LED is lit during the first
/// frames of each heartbeat cycle; while the hand spins the nearest
/// calibration is selected as the rotation; a frame with all keys held adds
/// one to the run of such frames, any other ends it; and once the run is
/// longer than [`CALIBRATION_TRIGGER_FRAMES`] the keyboard types `cal` and
/// starts calibrating from the first rotation.
pub open spec fn spec_read(m: KeyboardModel, f: Frame) -> (KeyboardModel, Seq<Output>) {
    let frames: u32 = if all_held(f.keys@) { (m.trigger_frames + 1) as u32 } else { 0 };
    let fire = frames > CALIBRATION_TRIGGER_FRAMES;
    (
        KeyboardModel {
            keys: f.keys@,
            led: m.heartbeat < HEARTBEAT_ON,
            heartbeat: ((m.heartbeat + 1) % (HEARTBEAT_PERIOD as int)) as u32,
            rotating: f.spinning,
            rotation: if f.spinning { nearest(f.distances@) } else { 0 },
            trigger_frames: frames,
            calibrated: if fire { 0 } else { m.calibrated },
            phase: if fire { Phase::Calibrate } else { m.phase },
            ..m
        },
        if fire { typed_bytes(recalibrate_word()) } else { Seq::empty() },
    )
}

/// Start of a frame, as [`spec_read`] describes.
pub fn read(kb: &mut Keyboard, frame: &Frame) -> (out: Vec<Output>)
    requires
        old(kb)@.wf(),
        !read_overflows(old(kb)@, *frame),
    ensures
        final(kb)@.wf(),
        final(kb)@ == spec_read(old(kb)@, *frame).0,
        out@ == spec_read(old(kb)@, *frame).1,
{
    kb.keys = frame.keys;
    kb.led = kb.heartbeat < HEARTBEAT_ON;
    kb.heartbeat = (kb.heartbeat + 1) % HEARTBEAT_PERIOD;
    let mindex = nearest_calibration(&frame.distances);
    if frame.spinning {
        kb.rotating = true;
        kb.rotation = mindex;
    } else {
        kb.rotating = false;
        kb.rotation = 0;
    }
    if kb.keys[T] && kb.keys[I] && kb.keys[M] && kb.keys[R] && kb.keys[P] {
        kb.trigger_frames = kb.trigger_frames + 1;
    } else {
        kb.trigger_frames = 0;
    }
    let mut out: Vec<Output> = Vec::new();
    if kb.trigger_frames > CALIBRATION_TRIGGER_FRAMES {
        out = keyboard_write("cal");
        proof {
            reveal_strlit("cal");
            vstd::string::is_ascii_spec_bytes("cal");
            assert("cal".spec_bytes() =~= recalibrate_word());
        }
        kb.calibrated = 0;
        kb.phase = Phase::Calibrate;
    }
    assert(kb@ =~= spec_read(old(kb)@, *frame).0);
    out
}

/// What the motion sensors say, beyond the keys, for the keyboard's logic.
pub struct Motion {
    /// The gyroscope reads a turn strong enough to be averaged into a
    /// calibration.
    pub strong: bool,
    /// The hand is swung hard (gyroscope and accelerometer both high): typed
    /// characters are shifted.
    pub caps: bool,
    /// The normalized gyroscope reading is close to the candidate
    /// calibration.
    pub near: bool,
}

/// Mode, mode mask and outputs while the bindings are scanned.
pub struct ScanState {
    pub mode: u8,
    pub mask: Seq<bool>,
    pub out: Seq<Output>,
}

/// Binding `b` fires when the keyboard is in its mode, its key went down in
/// this frame, and the hand is at its rotation.
pub open spec fn bind_fires(b: KeyBind, mode: u8, m: KeyboardModel) -> bool {
    &&& mode == b.mode
    &&& m.key_down(b.switch as int)
    &&& m.rotation == b.rotation as usize
}

/// The mask of a freshly entered mode: no key pressed yet.
pub open spec fn clear_mask() -> Seq<bool> {
    seq![false, false, false, false, false]
}

/// The character binding `b` types, shifted when `caps`.
pub open spec fn bind_char(b: KeyBind, caps: bool) -> char {
    if caps {
        spec_upcase(b.symbol as char)
    } else {
        b.symbol as char
    }
}

/// A firing binding switches mode (clearing the mode mask) when its
/// `set_mode` is not negative, then types its symbol when it has one and no
/// keycode, or taps its keycode when it has one.
pub open spec fn bind_effect(b: KeyBind, caps: bool, st: ScanState) -> ScanState {
    let switch = b.set_mode > -1;
    let out = if b.code == 0 && b.symbol > 0 {
        st.out.push(Output::Type(bind_char(b, caps)))
    } else if b.code > 0 {
        st.out.push(Output::Press(b.code)).push(Output::Release(b.code))
    } else {
        st.out
    };
    ScanState {
        mode: if switch { b.set_mode as u8 } else { st.mode },
        mask: if switch { clear_mask() } else { st.mask },
        out,
    }
}

/// The bindings scanned in order up to position `n`: each one that fires,
/// judged with the mode left by those before it, takes effect.
pub open spec fn scan(m: KeyboardModel, caps: bool, n: nat) -> ScanState
    decreases n,
{
    if n == 0 {
        ScanState { mode: m.mode, mask: m.mode_mask, out: Seq::empty() }
    } else {
        let st = scan(m, caps, (n - 1) as nat);
        let b = m.binds[n - 1];
        if bind_fires(b, st.mode, m) {
            bind_effect(b, caps, st)
        } else {
            st
        }
    }
}

/// Whether the sample counter of [`exec`] would pass `u32::MAX`.
pub open spec fn exec_overflows(m: KeyboardModel, mo: Motion) -> bool {
    m.phase == Phase::Collect && m.keys[T as int] && mo.strong && m.cal_samples == u32::MAX
}

/// One step of the current phase.
///
/// - `Idle`: until all rotations are calibrated, go calibrate; otherwise,
///   while the hand is turning, light the LED and fire the matching
///   bindings ([`scan`]).
/// - `Calibrate`: if a rotation is left, announce it, clear the running
///   average and collect; otherwise announce, save the calibrations and idle.
/// - `Collect`: while the thumb is held light the LED and, when the turn is
///   strong, average the reading in; when the thumb is released, prompt and
///   take the average as the candidate, then confirm.
/// - `Confirm`: report a reading close to the candidate (and light the LED);
///   `M` stores the candidate as the next calibration, `P` drops it; either
///   goes back to calibrate.
pub open spec fn spec_exec(m: KeyboardModel, mo: Motion) -> (KeyboardModel, Seq<Output>) {
    match m.phase {
        Phase::Idle => {
            if m.calibrated < NUM_CALIBRATIONS {
                (KeyboardModel { phase: Phase::Calibrate, ..m }, Seq::empty())
            } else if m.rotating {
                let st = scan(m, mo.caps, m.binds.len());
                (KeyboardModel { led: true, mode: st.mode, mode_mask: st.mask, ..m }, st.out)
            } else {
                (m, Seq::empty())
            }
        },
        Phase::Calibrate => {
            if m.calibrated < NUM_CALIBRATIONS {
                (
                    KeyboardModel { cal_samples: 0, phase: Phase::Collect, ..m },
                    seq![Output::Notice(Notice::CalibrateAxis), Output::ResetAverage],
                )
            } else {
                (
                    KeyboardModel { phase: Phase::Idle, ..m },
                    seq![Output::Notice(Notice::AllCalibrated), Output::SaveCalibrations],
                )
            }
        },
        Phase::Collect => {
            let held = m.keys[T as int];
            let take = held && mo.strong;
            let sampled: Seq<Output> = if take {
                seq![Output::Accumulate(m.cal_samples)]
            } else {
                Seq::empty()
            };
            let up = m.key_up(T as int);
            (
                KeyboardModel {
                    led: if held { true } else { m.led },
                    cal_samples: if take { (m.cal_samples + 1) as u32 } else { m.cal_samples },
                    phase: if up { Phase::Confirm } else { Phase::Collect },
                    ..m
                },
                if up {
                    sampled + seq![Output::Notice(Notice::ConfirmPrompt), Output::FreezeAverage]
                } else {
                    sampled
                },
            )
        },
        Phase::Confirm => {
            let reported: Seq<Output> = if mo.near { seq![Output::ReportHit] } else { Seq::empty() };
            let led = if mo.near { true } else { m.led };
            if m.key_down(M as int) {
                (
                    KeyboardModel {
                        led,
                        calibrated: (m.calibrated + 1) as usize,
                        phase: Phase::Calibrate,
                        ..m
                    },
                    reported + seq![
                        Output::Notice(Notice::Accepted),
                        Output::StoreCalibration(m.calibrated),
                    ],
                )
            } else if m.key_down(P as int) {
                (
                    KeyboardModel { led, phase: Phase::Calibrate, ..m },
                    reported + seq![Output::Notice(Notice::Recalibrating)],
                )
            } else {
                (KeyboardModel { led, ..m }, reported)
            }
        },
    }
}

/// Fires the bindings that match, as [`scan`] describes, on a keyboard that
/// is idle, calibrated and turning.
fn fire_binds(kb: &mut Keyboard, caps: bool) -> (out: Vec<Output>)
    requires
        old(kb)@.wf(),
    ensures
        final(kb)@ == (KeyboardModel {
            mode: scan(old(kb)@, caps, old(kb)@.binds.len()).mode,
            mode_mask: scan(old(kb)@, caps, old(kb)@.binds.len()).mask,
            ..old(kb)@
        }),
        out@ == scan(old(kb)@, caps, old(kb)@.binds.len()).out,
{
    let ghost m = kb@;
    let mut mode = kb.mode;
    let mut mask = kb.mode_mask;
    let mut out: Vec<Output> = Vec::new();
    let n = kb.binds.len();
    let mut i: usize = 0;
    while i < n
        invariant
            i <= n,
            n == m.binds.len(),
            kb@ == m,
            m.wf(),
            mode == scan(m, caps, i as nat).mode,
            mask@ == scan(m, caps, i as nat).mask,
            out@ == scan(m, caps, i as nat).out,
        decreases n - i,
    {
        let bind = kb.binds.get(i);
        assert(crate::binds::bind_wf(m.binds[i as int]));
        if mode == bind.mode && kb.keyDown(bind.switch as usize) && kb.rotation == bind.rotation as usize {
            if bind.set_mode > -1 {
                mode = bind.set_mode as u8;
                mask = [false; 5];
                assert(mask@ =~= clear_mask());
            }
            if bind.code == 0 && bind.symbol > 0 {
                let c = if caps {
                    upcase(bind.symbol as char)
                } else {
                    bind.symbol as char
                };
                out.push(Output::Type(c));
            } else if bind.code > 0 {
                out.push(Output::Press(bind.code));
                out.push(Output::Release(bind.code));
            }
        }
        i += 1;
    }
    kb.mode = mode;
    kb.mode_mask = mask;
    assert(kb@ =~= (KeyboardModel {
        mode: scan(m, caps, m.binds.len()).mode,
        mode_mask: scan(m, caps, m.binds.len()).mask,
        ..m
    }));
    out
}

/// The idle step: go calibrate until every rotation is, otherwise fire the
/// matching bindings while the hand turns (the `Idle` arm of [`spec_exec`]).
fn idle(kb: &mut Keyboard, motion: &Motion) -> (out: Vec<Output>)
    requires
        old(kb)@.wf(),
        old(kb)@.phase == Phase::Idle,
    ensures
        final(kb)@ == spec_exec(old(kb)@, *motion).0,
        out@ == spec_exec(old(kb)@, *motion).1,
{
    let ghost m = kb@;
    let mut out: Vec<Output> = Vec::new();
    if kb.calibrated < NUM_CALIBRATIONS {
        kb.phase = Phase::Calibrate;
    } else if kb.rotating {
        out = fire_binds(kb, motion.caps);
        kb.led = true;
    }
    assert(kb@ =~= spec_exec(m, *motion).0);
    assert(out@ =~= spec_exec(m, *motion).1);
    out
}

/// The calibrate step: start the next rotation, or save and go idle (the
/// `Calibrate` arm of [`spec_exec`]).
fn calibrate(kb: &mut Keyboard, motion: &Motion) -> (out: Vec<Output>)
    requires
        old(kb)@.wf(),
        old(kb)@.phase == Phase::Calibrate,
    ensures
        final(kb)@ == spec_exec(old(kb)@, *motion).0,
        out@ == spec_exec(old(kb)@, *motion).1,
{
    let ghost m = kb@;
    let mut out: Vec<Output> = Vec::new();
    if kb.calibrated < NUM_CALIBRATIONS {
        out.push(Output::Notice(Notice::CalibrateAxis));
        out.push(Output::ResetAverage);
        kb.cal_samples = 0;
        kb.phase = Phase::Collect;
    } else {
        out.push(Output::Notice(Notice::AllCalibrated));
        out.push(Output::SaveCalibrations);
        kb.phase = Phase::Idle;
    }
    assert(kb@ =~= spec_exec(m, *motion).0);
    assert(out@ =~= spec_exec(m, *motion).1);
    out
}

/// The collect step: average strong readings while the thumb is held,
/// confirm once it is released (the `Collect` arm of [`spec_exec`]).
fn calibrate_collect(kb: &mut Keyboard, motion: &Motion) -> (out: Vec<Output>)
    requires
        old(kb)@.wf(),
        old(kb)@.phase == Phase::Collect,
        !exec_overflows(old(kb)@, *motion),
    ensures
        final(kb)@ == spec_exec(old(kb)@, *motion).0,
        out@ == spec_exec(old(kb)@, *motion).1,
{
    let ghost m = kb@;
    let mut out: Vec<Output> = Vec::new();
    if kb.keys[T] {
        kb.led = true;
        if motion.strong {
            out.push(Output::Accumulate(kb.cal_samples));
            kb.cal_samples = kb.cal_samples + 1;
        }
    }
    if kb.keyUp(T) {
        out.push(Output::Notice(Notice::ConfirmPrompt));
        out.push(Output::FreezeAverage);
        kb.phase = Phase::Confirm;
    }
    assert(kb@ =~= spec_exec(m, *motion).0);
    assert(out@ =~= spec_exec(m, *motion).1);
    out
}

/// The confirm step: report a near reading, then store the candidate on `M`
/// or drop it on `P` (the `Confirm` arm of [`spec_exec`]).
fn calibrate_confirm(kb: &mut Keyboard, motion: &Motion) -> (out: Vec<Output>)
    requires
        old(kb)@.wf(),
        old(kb)@.phase == Phase::Confirm,
    ensures
        final(kb)@ == spec_exec(old(kb)@, *motion).0,
        out@ == spec_exec(old(kb)@, *motion).1,
{
    let ghost m = kb@;
    let mut out: Vec<Output> = Vec::new();
    if motion.near {
        out.push(Output::ReportHit);
        kb.led = true;
    }
    if kb.keyDown(M) {
        out.push(Output::Notice(Notice::Accepted));
        out.push(Output::StoreCalibration(kb.calibrated));
        kb.calibrated = kb.calibrated + 1;
        kb.phase = Phase::Calibrate;
    } else if kb.keyDown(P) {
        out.push(Output::Notice(Notice::Recalibrating));
        kb.phase = Phase::Calibrate;
    }
    assert(kb@ =~= spec_exec(m, *motion).0);
    assert(out@ =~= spec_exec(m, *motion).1);
    out
}

/// One step of the current phase, as [`spec_exec`] describes.
pub fn exec(kb: &mut Keyboard, motion: &Motion) -> (out: Vec<Output>)
    requires
        old(kb)@.wf(),
        !exec_overflows(old(kb)@, *motion),
    ensures
        final(kb)@.wf(),
        final(kb)@ == spec_exec(old(kb)@, *motion).0,
        out@ == spec_exec(old(kb)@, *motion).1,
{
    proof {
        lemma_exec_keeps_wf(kb@, *motion);
    }
    match kb.phase {
        Phase::Idle => idle(kb, motion),
        Phase::Calibrate => calibrate(kb, motion),
        Phase::Collect => calibrate_collect(kb, motion),
        Phase::Confirm => calibrate_confirm(kb, motion),
    }
}

/// Scanning the bindings keeps the mode mask one flag per key.
pub proof fn lemma_scan_mask_len(m: KeyboardModel, caps: bool, n: nat)
    requires
        m.wf(),
        n <= m.binds.len(),
    ensures
        scan(m, caps, n).mask.len() == NUM_KEYS,
    decreases n,
{
    if n > 0 {
        lemma_scan_mask_len(m, caps, (n - 1) as nat);
    }
}

/// The step of a phase keeps the keyboard well formed.
pub proof fn lemma_exec_keeps_wf(m: KeyboardModel, mo: Motion)
    requires
        m.wf(),
    ensures
        spec_exec(m, mo).0.wf(),
{
    lemma_scan_mask_len(m, mo.caps, m.binds.len());
}

/// Number of `true` entries of `s`.
pub open spec fn count_true(s: Seq<bool>) -> nat
    decreases s.len(),
{
    if s.len() == 0 {
        0
    } else {
        count_true(s.drop_last()) + if s.last() { 1nat } else { 0nat }
    }
}

/// The keyboard after start-up, given which stored calibrations are present:
/// the default layout bound, mode 0, no key held or remembered, the LED off,
/// one calibrated rotation per stored calibration, idle.
pub open spec fn spec_init(present: Seq<bool>) -> KeyboardModel {
    KeyboardModel {
        binds: default_layout(),
        mode: 0,
        mode_mask: seq![false, false, false, false, false],
        keys: seq![false, false, false, false, false],
        key_cache: seq![false, false, false, false, false],
        led: false,
        heartbeat: 0,
        calibrated: count_true(present) as usize,
        cal_samples: 0,
        rotating: false,
        rotation: 0,
        trigger_frames: 0,
        phase: Phase::Idle,
    }
}

/// Starts the keyboard, as [`spec_init`] describes; `present[i]` tells
/// whether calibration `i` was found in persistent memory.
pub fn init(present: &[bool; 6]) -> (kb: Keyboard)
    ensures
        kb@.wf(),
        kb@ == spec_init(present@),
{
    let mut calibrated: usize = 0;
    let mut i: usize = 0;
    while i < NUM_CALIBRATIONS
        invariant
            i <= NUM_CALIBRATIONS,
            present@.len() == NUM_CALIBRATIONS,
            calibrated == count_true(present@.take(i as int)),
            calibrated <= i,
        decreases NUM_CALIBRATIONS - i,
    {
        assert(present@.take(i + 1).drop_last() =~= present@.take(i as int));
        if present[i] {
            calibrated += 1;
        }
        i += 1;
    }
    assert(present@.take(NUM_CALIBRATIONS as int) =~= present@);
    let mut binds = BindTable::new();
    load(&mut binds);
    assert(binds@ =~= default_layout());
    let kb = Keyboard {
        binds,
        mode: 0,
        mode_mask: [false; 5],
        keys: [false; 5],
        key_cache: [false; 5],
        led: false,
        heartbeat: 0,
        calibrated,
        cal_samples: 0,
        rotating: false,
        rotation: 0,
        trigger_frames: 0,
        phase: Phase::Idle,
    };
    assert(kb@ =~= spec_init(present@));
    kb
}

} // verus!
