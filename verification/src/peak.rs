use vstd::prelude::*;
use crate::binds::NUM_KEYS;
use crate::state::{Phase, HEARTBEAT_ON, HEARTBEAT_PERIOD, M, NUM_CALIBRATIONS, P, T};
use crate::text::{hit_report, spec_hit_report, writable};

verus! {

/// A gyroscope reading, or a calibration, in raw sensor units.
#[derive(Clone, Copy, Debug, PartialEq, Eq, Structural)]
pub struct Vi32 {
    pub x: i32,
    pub y: i32,
    pub z: i32,
}

/// Distance, in raw sensor units, under which a reading counts as a hit on
/// the candidate calibration.
pub const HIT_DISTANCE: i32 = 1000;

/// A message printed on the debug console by the peak calibrator.
#[derive(Clone, Copy, Debug, PartialEq, Eq, Structural)]
pub enum PeakNotice {
    /// "Calibrating an axis. Hold T and rotate."
    CalibrateAxis,
    /// "All calibrated!"
    AllCalibrated,
    /// "Confirm calibration. M to confirm, P to cancel"
    ConfirmPrompt,
    /// "Calibration accepted!"
    Accepted,
    /// "Recalibrating..."
    Recalibrating,
}

impl PeakNotice {
    /// The text printed for this message.
    pub open spec fn spec_text(self) -> Seq<char> {
        match self {
            PeakNotice::CalibrateAxis => "Calibrating an axis. Hold T and rotate.\n"@,
            PeakNotice::AllCalibrated => "All calibrated!\n"@,
            PeakNotice::ConfirmPrompt => "Confirm calibration.\nM to confirm, P to cancel\n"@,
            PeakNotice::Accepted => "Calibration accepted!\n"@,
            PeakNotice::Recalibrating => "Recalibrating...\n"@,
        }
    }

    /// The text printed for this message, as [`PeakNotice::spec_text`] gives it.
    pub fn text(&self) -> (s: &'static str)
        ensures
            s@ == self.spec_text(),
    {
        match self {
            PeakNotice::CalibrateAxis => "Calibrating an axis. Hold T and rotate.\n",
            PeakNotice::AllCalibrated => "All calibrated!\n",
            PeakNotice::ConfirmPrompt => "Confirm calibration.\nM to confirm, P to cancel\n",
            PeakNotice::Accepted => "Calibration accepted!\n",
            PeakNotice::Recalibrating => "Recalibrating...\n",
        }
    }
}

/// What the peak calibrator asks its surroundings to do, in order.
#[derive(Clone, Copy, Debug, PartialEq, Eq)]
pub enum PeakOutput {
    /// Print a message on the debug console.
    Notice(PeakNotice),
    /// Send this line on the serial port.
    Serial([u8; 64]),
    /// Drive the LED.
    Led(bool),
}

/// One frame as the peak calibrator sees it.
pub struct PeakFrame {
    /// Keys held in this frame.
    pub keys: [bool; 5],
    /// The gyroscope reading.
    pub gyro: [i16; 3],
    /// Magnitude of the gyroscope reading.
    pub gyro_mag: i32,
    /// Magnitude of the gyroscope reading minus the candidate calibration.
    pub delta_mag: i32,
}

/// A keyboard that calibrates each rotation as the strongest gyroscope
/// reading taken while the thumb is held.
pub struct PeakKeyboard {
    pub keys: [bool; 5],
    pub key_cache: [bool; 5],
    pub led: bool,
    pub heartbeat: u32,
    pub calibrated: usize,
    pub calibrations: [Vi32; 6],
    /// The candidate calibration: the strongest reading so far.
    pub max_cal: Vi32,
    /// Magnitude of the candidate calibration.
    pub max_mag: i32,
    pub phase: Phase,
}

/// The mathematical view of a [`PeakKeyboard`].
#[verifier::ext_equal]
pub struct PeakModel {
    pub keys: Seq<bool>,
    pub key_cache: Seq<bool>,
    pub led: bool,
    pub heartbeat: u32,
    pub calibrated: usize,
    pub calibrations: Seq<Vi32>,
    pub max_cal: Vi32,
    pub max_mag: i32,
    pub phase: Phase,
}

impl View for PeakKeyboard {
    type V = PeakModel;

    open spec fn view(&self) -> PeakModel {
        PeakModel {
            keys: self.keys@,
            key_cache: self.key_cache@,
            led: self.led,
            heartbeat: self.heartbeat,
            calibrated: self.calibrated,
            calibrations: self.calibrations@,
            max_cal: self.max_cal,
            max_mag: self.max_mag,
            phase: self.phase,
        }
    }
}

impl PeakModel {
    /// The heartbeat stays within its cycle, no more rotations are
    /// calibrated than there are, and a calibration in progress has a slot
    /// to go to.
    pub open spec fn wf(self) -> bool {
        &&& self.keys.len() == NUM_KEYS
        &&& self.key_cache.len() == NUM_KEYS
        &&& self.calibrations.len() == NUM_CALIBRATIONS
        &&& self.heartbeat < HEARTBEAT_PERIOD
        &&& self.calibrated <= NUM_CALIBRATIONS
        &&& (self.phase == Phase::Collect || self.phase == Phase::Confirm) ==> self.calibrated
            < NUM_CALIBRATIONS
    }

    /// Key `k` went down since the previous frame.
    pub open spec fn key_down(self, k: int) -> bool {
        self.keys[k] && !self.key_cache[k]
    }

    /// Key `k` went up since the previous frame.
    pub open spec fn key_up(self, k: int) -> bool {
        !self.keys[k] && self.key_cache[k]
    }
}

/// The gyroscope reading widened to a vector.
pub open spec fn gyro_vec(g: Seq<i16>) -> Vi32 {
    Vi32 { x: g[0] as i32, y: g[1] as i32, z: g[2] as i32 }
}

/// The seven numbers of a hit report: the reading, the candidate and their
/// distance.
pub open spec fn report_values(g: Seq<i16>, c: Vi32, delta: i32) -> Seq<i32> {
    seq![g[0] as i32, g[1] as i32, g[2] as i32, c.x, c.y, c.z, delta]
}

/// Whether a frame would send a hit report that cannot be written (see
/// [`writable`]).
pub open spec fn report_unwritable(m: PeakModel, f: PeakFrame) -> bool {
    &&& m.phase == Phase::Confirm
    &&& f.delta_mag < HIT_DISTANCE
    &&& exists|k: int| 0 <= k < 7 && !writable(#[trigger] report_values(f.gyro@, m.max_cal, f.delta_mag)[k])
}

/// The phase's step on a model whose keys and gyroscope are this frame's.
///
/// - `Idle`: until all rotations are calibrated, go calibrate.
/// - `Calibrate`: announce the next rotation and collect, or announce that
///   all are calibrated and idle.
/// - `Collect`: while the thumb is held light the LED and keep the
///   strongest reading as the candidate; when the thumb is released, prompt
///   and confirm.
/// - `Confirm`: report a reading within [`HIT_DISTANCE`] of the candidate
///   (and light the LED); `M` stores the candidate as the next calibration
///   and goes on, `P` forgets the strongest magnitude and collects again.
pub open spec fn spec_peak_phase(m: PeakModel, f: PeakFrame) -> (PeakModel, Seq<PeakOutput>) {
    match m.phase {
        Phase::Idle => {
            if m.calibrated < NUM_CALIBRATIONS {
                (PeakModel { phase: Phase::Calibrate, ..m }, Seq::empty())
            } else {
                (m, Seq::empty())
            }
        },
        Phase::Calibrate => {
            if m.calibrated < NUM_CALIBRATIONS {
                (
                    PeakModel { phase: Phase::Collect, ..m },
                    seq![PeakOutput::Notice(PeakNotice::CalibrateAxis)],
                )
            } else {
                (
                    PeakModel { phase: Phase::Idle, ..m },
                    seq![PeakOutput::Notice(PeakNotice::AllCalibrated)],
                )
            }
        },
        Phase::Collect => {
            let held = m.keys[T as int];
            let stronger = held && f.gyro_mag > m.max_mag;
            let up = m.key_up(T as int);
            (
                PeakModel {
                    led: if held { true } else { m.led },
                    max_cal: if stronger { gyro_vec(f.gyro@) } else { m.max_cal },
                    max_mag: if stronger { f.gyro_mag } else { m.max_mag },
                    phase: if up { Phase::Confirm } else { Phase::Collect },
                    ..m
                },
                if up { seq![PeakOutput::Notice(PeakNotice::ConfirmPrompt)] } else { Seq::empty() },
            )
        },
        Phase::Confirm => {
            let hit = f.delta_mag < HIT_DISTANCE;
            let line = spec_hit_report(report_values(f.gyro@, m.max_cal, f.delta_mag));
            let reported: Seq<PeakOutput> = if hit {
                seq![PeakOutput::Serial(line_array(line))]
            } else {
                Seq::empty()
            };
            let led = if hit { true } else { m.led };
            if m.key_down(M as int) {
                (
                    PeakModel {
                        led,
                        calibrations: m.calibrations.update(m.calibrated as int, m.max_cal),
                        calibrated: (m.calibrated + 1) as usize,
                        phase: Phase::Calibrate,
                        ..m
                    },
                    reported + seq![PeakOutput::Notice(PeakNotice::Accepted)],
                )
            } else if m.key_down(P as int) {
                (
                    PeakModel { led, max_mag: 0, phase: Phase::Collect, ..m },
                    reported + seq![PeakOutput::Notice(PeakNotice::Recalibrating)],
                )
            } else {
                (PeakModel { led, ..m }, reported)
            }
        },
    }
}

/// The 64-byte line whose bytes are `line`.
pub open spec fn line_array(line: Seq<u8>) -> [u8; 64] {
    choose|a: [u8; 64]| a@ == line
}

/// One pass of the main loop: the keys and gyroscope of the frame are taken
/// in, the LED is lit during the first frames of each heartbeat cycle, the
/// phase steps ([`spec_peak_phase`]), the keys become the previous frame's,
/// and the LED is driven.
pub open spec fn spec_peak_frame(m: PeakModel, f: PeakFrame) -> (PeakModel, Seq<PeakOutput>) {
    let read = PeakModel {
        keys: f.keys@,
        led: m.heartbeat < HEARTBEAT_ON,
        heartbeat: ((m.heartbeat + 1) % (HEARTBEAT_PERIOD as int)) as u32,
        ..m
    };
    let (stepped, out) = spec_peak_phase(read, f);
    (PeakModel { key_cache: stepped.keys, ..stepped }, out.push(PeakOutput::Led(stepped.led)))
}

impl PeakKeyboard {
    /// The keyboard at start-up: nothing calibrated, all zero, idle.
    pub fn new() -> (kb: PeakKeyboard)
        ensures
            kb@.wf(),
            kb@.phase == Phase::Idle,
            kb@.calibrated == 0,
            kb@.heartbeat == 0,
            !kb@.led,
            kb@.max_mag == 0,
            kb@.max_cal == (Vi32 { x: 0, y: 0, z: 0 }),
            forall|k: int| 0 <= k < NUM_KEYS ==> !kb@.keys[k] && !kb@.key_cache[k],
            forall|i: int| 0 <= i < NUM_CALIBRATIONS ==> kb@.calibrations[i] == (Vi32 { x: 0, y: 0, z: 0 }),
    {
        let zero = Vi32 { x: 0, y: 0, z: 0 };
        PeakKeyboard {
            keys: [false; 5],
            key_cache: [false; 5],
            led: false,
            heartbeat: 0,
            calibrated: 0,
            calibrations: [zero; 6],
            max_cal: zero,
            max_mag: 0,
            phase: Phase::Idle,
        }
    }

    /// Whether key `key` went down since the previous frame.
    #[allow(non_snake_case)]
    pub fn keyDown(&self, key: usize) -> (b: bool)
        requires
            key < NUM_KEYS,
        ensures
            b == self@.key_down(key as int),
    {
        self.keys[key] && !self.key_cache[key]
    }

    /// Whether key `key` went up since the previous frame.
    #[allow(non_snake_case)]
    pub fn keyUp(&self, key: usize) -> (b: bool)
        requires
            key < NUM_KEYS,
        ensures
            b == self@.key_up(key as int),
    {
        !self.keys[key] && self.key_cache[key]
    }

    fn idle_step(&mut self) -> (out: Vec<PeakOutput>)
        requires
            old(self)@.wf(),
            old(self)@.phase == Phase::Idle,
        ensures
            final(self)@ == (if old(self)@.calibrated < NUM_CALIBRATIONS {
                PeakModel { phase: Phase::Calibrate, ..old(self)@ }
            } else {
                old(self)@
            }),
            out@ == Seq::<PeakOutput>::empty(),
    {
        if self.calibrated < NUM_CALIBRATIONS {
            self.phase = Phase::Calibrate;
        }
        Vec::new()
    }

    fn calibrate_step(&mut self) -> (out: Vec<PeakOutput>)
        requires
            old(self)@.wf(),
            old(self)@.phase == Phase::Calibrate,
        ensures
            final(self)@ == (if old(self)@.calibrated < NUM_CALIBRATIONS {
                PeakModel { phase: Phase::Collect, ..old(self)@ }
            } else {
                PeakModel { phase: Phase::Idle, ..old(self)@ }
            }),
            out@ == (if old(self)@.calibrated < NUM_CALIBRATIONS {
                seq![PeakOutput::Notice(PeakNotice::CalibrateAxis)]
            } else {
                seq![PeakOutput::Notice(PeakNotice::AllCalibrated)]
            }),
    {
        let mut out: Vec<PeakOutput> = Vec::new();
        if self.calibrated < NUM_CALIBRATIONS {
            out.push(PeakOutput::Notice(PeakNotice::CalibrateAxis));
            self.phase = Phase::Collect;
        } else {
            out.push(PeakOutput::Notice(PeakNotice::AllCalibrated));
            self.phase = Phase::Idle;
        }
        out
    }

    fn collect_step(&mut self, f: &PeakFrame) -> (out: Vec<PeakOutput>)
        requires
            old(self)@.wf(),
            old(self)@.phase == Phase::Collect,
        ensures
            final(self)@ == spec_peak_phase(old(self)@, *f).0,
            out@ == spec_peak_phase(old(self)@, *f).1,
    {
        let mut out: Vec<PeakOutput> = Vec::new();
        if self.keys[T] {
            self.led = true;
            let cal = Vi32 { x: f.gyro[0] as i32, y: f.gyro[1] as i32, z: f.gyro[2] as i32 };
            if f.gyro_mag > self.max_mag {
                self.max_cal = cal;
                self.max_mag = f.gyro_mag;
            }
        }
        if self.keyUp(T) {
            out.push(PeakOutput::Notice(PeakNotice::ConfirmPrompt));
            self.phase = Phase::Confirm;
        }
        assert(self@ =~= spec_peak_phase(old(self)@, *f).0);
        assert(out@ =~= spec_peak_phase(old(self)@, *f).1);
        out
    }

    fn confirm_step(&mut self, f: &PeakFrame) -> (out: Vec<PeakOutput>)
        requires
            old(self)@.wf(),
            old(self)@.phase == Phase::Confirm,
            !report_unwritable(old(self)@, *f),
        ensures
            final(self)@ == spec_peak_phase(old(self)@, *f).0,
            out@ == spec_peak_phase(old(self)@, *f).1,
    {
        let mut out: Vec<PeakOutput> = Vec::new();
        let delta = f.delta_mag;
        if delta < HIT_DISTANCE {
            let values: [i32; 7] = [
                f.gyro[0] as i32,
                f.gyro[1] as i32,
                f.gyro[2] as i32,
                self.max_cal.x,
                self.max_cal.y,
                self.max_cal.z,
                delta,
            ];
            let ghost rv = report_values(f.gyro@, self.max_cal, delta);
            assert(values@ =~= rv);
            assert forall|k: int| 0 <= k < 7 implies writable(#[trigger] values@[k]) by {
                assert(values@[k] == rv[k]);
            }
            let xs = hit_report(&values);
            proof {
                let line = spec_hit_report(rv);
                assert(xs@ == line);
                assert(line_array(line)@ == line);
                assert(line_array(line) =~= xs);
            }
            out.push(PeakOutput::Serial(xs));
            self.led = true;
        }
        if self.keyDown(M) {
            out.push(PeakOutput::Notice(PeakNotice::Accepted));
            let c = self.max_cal;
            self.calibrations[self.calibrated] = c;
            self.calibrated = self.calibrated + 1;
            self.phase = Phase::Calibrate;
        } else if self.keyDown(P) {
            out.push(PeakOutput::Notice(PeakNotice::Recalibrating));
            self.max_mag = 0;
            self.phase = Phase::Collect;
        }
        assert(self@ =~= spec_peak_phase(old(self)@, *f).0);
        assert(out@ =~= spec_peak_phase(old(self)@, *f).1);
        out
    }

    /// One pass of the main loop, as [`spec_peak_frame`] describes.
    pub fn frame(&mut self, f: &PeakFrame) -> (out: Vec<PeakOutput>)
        requires
            old(self)@.wf(),
            !report_unwritable(old(self)@, *f),
        ensures
            final(self)@.wf(),
            final(self)@ == spec_peak_frame(old(self)@, *f).0,
            out@ == spec_peak_frame(old(self)@, *f).1,
    {
        self.keys = f.keys;
        self.led = self.heartbeat < HEARTBEAT_ON;
        self.heartbeat = (self.heartbeat + 1) % HEARTBEAT_PERIOD;
        let ghost read = self@;
        let mut out = match self.phase {
            Phase::Idle => self.idle_step(),
            Phase::Calibrate => self.calibrate_step(),
            Phase::Collect => self.collect_step(f),
            Phase::Confirm => self.confirm_step(f),
        };
        assert(self@ =~= spec_peak_phase(read, *f).0);
        assert(out@ =~= spec_peak_phase(read, *f).1);
        self.key_cache = self.keys;
        out.push(PeakOutput::Led(self.led));
        assert(self@ =~= spec_peak_frame(old(self)@, *f).0);
        out
    }
}

} // verus!
