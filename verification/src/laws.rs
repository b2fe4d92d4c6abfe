use vstd::prelude::*;
use crate::binds::{KeyBind, NUM_KEYS};
use crate::bindings::{default_layout, spec_dvorak, spec_upcase, LAYOUT_LEN};
use crate::peak::{gyro_vec, spec_peak_frame, PeakFrame, PeakModel};
use crate::state::{
    all_held, nearest, nearest_prefix, read_overflows, recalibrate_word, scan, spec_exec,
    spec_post, spec_read, typed_bytes, Frame, KeyboardModel, Motion, Output, Phase,
    CALIBRATION_TRIGGER_FRAMES, DISTANCE_LIMIT, NUM_CALIBRATIONS, T,
};

verus! {

/// The rotation selected from the distances is the nearest calibration, the
/// earliest of equally near ones, and none (`usize::MAX`) only when every
/// calibration is at [`DISTANCE_LIMIT`] or beyond.
pub proof fn lemma_nearest_is_nearest(d: Seq<u32>)
    requires
        d.len() < usize::MAX,
    ensures
        nearest(d) == usize::MAX <==> (forall|j: int| 0 <= j < d.len() ==> d[j] >= DISTANCE_LIMIT),
        nearest(d) != usize::MAX ==> {
            let r = nearest(d) as int;
            &&& 0 <= r < d.len()
            &&& d[r] < DISTANCE_LIMIT
            &&& forall|j: int| 0 <= j < d.len() ==> d[r] <= d[j]
            &&& forall|j: int| 0 <= j < r ==> d[r] < d[j]
        },
{
    lemma_nearest_prefix(d, d.len());
}

proof fn lemma_nearest_prefix(d: Seq<u32>, n: nat)
    requires
        n <= d.len() < usize::MAX,
    ensures
        ({
            let (best, idx) = nearest_prefix(d, n);
            &&& idx == usize::MAX <==> (forall|j: int| 0 <= j < n ==> d[j] >= DISTANCE_LIMIT)
            &&& idx == usize::MAX ==> best == DISTANCE_LIMIT
            &&& idx != usize::MAX ==> {
                &&& 0 <= idx < n
                &&& best == d[idx as int]
                &&& best < DISTANCE_LIMIT
                &&& forall|j: int| 0 <= j < n ==> best <= d[j]
                &&& forall|j: int| 0 <= j < idx ==> best < d[j]
            }
        }),
    decreases n,
{
    if n > 0 {
        lemma_nearest_prefix(d, (n - 1) as nat);
    }
}

/// Once a frame has ended, no key reads as just pressed or just released.
pub proof fn lemma_post_clears_edges(m: KeyboardModel)
    requires
        m.wf(),
    ensures
        forall|k: int| 0 <= k < NUM_KEYS ==> !#[trigger] spec_post(m).0.key_down(k) && !spec_post(
            m,
        ).0.key_up(k),
{
}

/// Across the end of one frame and the start of the next, a key reads as
/// just pressed exactly when it is held in the new frame and was not in the
/// old one, and as just released exactly in the opposite case.
pub proof fn lemma_edges_between_frames(m: KeyboardModel, f: Frame)
    requires
        m.wf(),
        !read_overflows(spec_post(m).0, f),
    ensures
        forall|k: int|
            0 <= k < NUM_KEYS ==> {
                &&& #[trigger] spec_read(spec_post(m).0, f).0.key_down(k) == (f.keys@[k] && !m.keys[k])
                &&& spec_read(spec_post(m).0, f).0.key_up(k) == (!f.keys@[k] && m.keys[k])
            },
{
}

/// Releasing the thumb always returns the keyboard to mode 0.
pub proof fn lemma_thumb_release_resets_mode(m: KeyboardModel)
    requires
        m.wf(),
        m.key_up(T as int),
    ensures
        spec_post(m).0.mode == 0,
{
}

/// An output that a user of the host would see as typing.
pub open spec fn is_keystroke(o: Output) -> bool {
    match o {
        Output::Type(_) | Output::Press(_) | Output::Release(_) => true,
        _ => false,
    }
}

/// Nothing is typed unless the keyboard is idle with every rotation
/// calibrated and the hand turning.
pub proof fn lemma_types_only_when_calibrated(m: KeyboardModel, mo: Motion)
    requires
        m.wf(),
    ensures
        (exists|i: int| 0 <= i < spec_exec(m, mo).1.len() && is_keystroke(#[trigger] spec_exec(m, mo).1[i]))
            ==> m.phase == Phase::Idle && m.calibrated == NUM_CALIBRATIONS && m.rotating,
{
    let out = spec_exec(m, mo).1;
    if !(m.phase == Phase::Idle && m.calibrated == NUM_CALIBRATIONS && m.rotating) {
        assert forall|i: int| 0 <= i < out.len() implies !is_keystroke(#[trigger] out[i]) by {}
    }
}

/// Each step of a frame keeps the keyboard well formed.
pub proof fn lemma_steps_keep_wf(m: KeyboardModel, f: Frame, mo: Motion)
    requires
        m.wf(),
    ensures
        spec_read(m, f).0.wf(),
        spec_exec(m, mo).0.wf(),
        spec_post(m).0.wf(),
{
    crate::state::lemma_exec_keeps_wf(m, mo);
}

/// One pass of the main loop: start of frame, step of the phase, end of
/// frame.
pub open spec fn spec_cycle(m: KeyboardModel, f: Frame, mo: Motion) -> KeyboardModel {
    spec_post(spec_exec(spec_read(m, f).0, mo).0).0
}

/// The keyboard after one pass of the main loop per frame, in order.
pub open spec fn spec_run(m: KeyboardModel, fs: Seq<Frame>, mos: Seq<Motion>) -> KeyboardModel
    decreases fs.len(),
{
    if fs.len() == 0 || mos.len() != fs.len() {
        m
    } else {
        spec_cycle(spec_run(m, fs.drop_last(), mos.drop_last()), fs.last(), mos.last())
    }
}

/// While all keys stay held, each pass of the main loop adds one to the run
/// of such frames, whatever the phase does.
pub proof fn lemma_held_frames_count(m: KeyboardModel, fs: Seq<Frame>, mos: Seq<Motion>)
    requires
        m.wf(),
        fs.len() == mos.len(),
        forall|i: int| 0 <= i < fs.len() ==> all_held(#[trigger] fs[i].keys@),
        m.trigger_frames + fs.len() < u32::MAX,
        m.cal_samples + fs.len() < u32::MAX,
    ensures
        spec_run(m, fs, mos).wf(),
        spec_run(m, fs, mos).trigger_frames == m.trigger_frames + fs.len(),
        spec_run(m, fs, mos).cal_samples <= m.cal_samples + fs.len(),
    decreases fs.len(),
{
    if fs.len() > 0 {
        let fs0 = fs.drop_last();
        let mos0 = mos.drop_last();
        assert forall|i: int| 0 <= i < fs0.len() implies all_held(#[trigger] fs0[i].keys@) by {
            assert(fs0[i] == fs[i]);
        }
        lemma_held_frames_count(m, fs0, mos0);
        let m0 = spec_run(m, fs0, mos0);
        let m1 = spec_read(m0, fs.last());
        assert(all_held(fs[fs.len() - 1].keys@));
        lemma_steps_keep_wf(m0, fs.last(), mos.last());
        lemma_steps_keep_wf(m1.0, fs.last(), mos.last());
        let m2 = spec_exec(m1.0, mos.last());
        lemma_steps_keep_wf(m2.0, fs.last(), mos.last());
    }
}

/// Holding all five keys through more than
/// [`CALIBRATION_TRIGGER_FRAMES`] consecutive frames makes the start of the
/// last of them type `cal` and restart calibration from the first rotation.
pub proof fn lemma_long_hold_recalibrates(m: KeyboardModel, fs: Seq<Frame>, mos: Seq<Motion>)
    requires
        m.wf(),
        m.trigger_frames == 0,
        fs.len() == mos.len(),
        fs.len() == CALIBRATION_TRIGGER_FRAMES + 1,
        forall|i: int| 0 <= i < fs.len() ==> all_held(#[trigger] fs[i].keys@),
        m.cal_samples + fs.len() < u32::MAX,
    ensures
        ({
            let before = spec_run(m, fs.drop_last(), mos.drop_last());
            let (after, out) = spec_read(before, fs.last());
            &&& after.phase == Phase::Calibrate
            &&& after.calibrated == 0
            &&& out == typed_bytes(recalibrate_word())
        }),
{
    let fs0 = fs.drop_last();
    let mos0 = mos.drop_last();
    assert forall|i: int| 0 <= i < fs0.len() implies all_held(#[trigger] fs0[i].keys@) by {
        assert(fs0[i] == fs[i]);
    }
    lemma_held_frames_count(m, fs0, mos0);
    assert(all_held(fs[fs.len() - 1].keys@));
}

/// Two bindings compete for the same key press: same mode, same rotation,
/// same key.
pub open spec fn same_slot(a: KeyBind, b: KeyBind) -> bool {
    a.mode == b.mode && a.rotation == b.rotation && a.switch == b.switch
}

/// The default layout has [`LAYOUT_LEN`] bindings, each naming one of the
/// keys, and no two of them compete for the same key press.
pub proof fn lemma_layout_unambiguous()
    ensures
        default_layout().len() == LAYOUT_LEN,
        forall|i: int| 0 <= i < LAYOUT_LEN ==> crate::binds::bind_wf(#[trigger] default_layout()[i]),
        forall|i: int, j: int|
            0 <= i < j < LAYOUT_LEN ==> !same_slot(#[trigger] default_layout()[i], #[trigger] default_layout()[j]),
{
    let l = default_layout();
    assert(l.len() == LAYOUT_LEN);
    assert forall|i: int, j: int| 0 <= i < j < LAYOUT_LEN implies !same_slot(
        #[trigger] l[i],
        #[trigger] l[j],
    ) by {
    }
}

/// The peak calibrator after one frame each of `fs`, in order.
pub open spec fn spec_peak_run(m: PeakModel, fs: Seq<PeakFrame>) -> PeakModel
    decreases fs.len(),
{
    if fs.len() == 0 {
        m
    } else {
        spec_peak_frame(spec_peak_run(m, fs.drop_last()), fs.last()).0
    }
}

/// While the thumb stays held during collection, the peak calibrator keeps
/// collecting, and its candidate is the strongest of the readings taken and
/// the candidate it started with: no magnitude seen is stronger, and the
/// candidate is either the one it started with or one of the readings, with
/// its magnitude.
pub proof fn lemma_peak_keeps_strongest(m: PeakModel, fs: Seq<PeakFrame>)
    requires
        m.wf(),
        m.phase == Phase::Collect,
        forall|i: int| 0 <= i < fs.len() ==> #[trigger] fs[i].keys@[T as int],
    ensures
        ({
            let r = spec_peak_run(m, fs);
            &&& r.wf()
            &&& r.phase == Phase::Collect
            &&& m.max_mag <= r.max_mag
            &&& forall|i: int| 0 <= i < fs.len() ==> #[trigger] fs[i].gyro_mag <= r.max_mag
            &&& (r.max_cal == m.max_cal && r.max_mag == m.max_mag) || exists|i: int|
                0 <= i < fs.len() && r.max_cal == gyro_vec(#[trigger] fs[i].gyro@) && r.max_mag
                    == fs[i].gyro_mag
        }),
    decreases fs.len(),
{
    if fs.len() > 0 {
        let fs0 = fs.drop_last();
        assert forall|i: int| 0 <= i < fs0.len() implies #[trigger] fs0[i].keys@[T as int] by {
            assert(fs0[i] == fs[i]);
        }
        lemma_peak_keeps_strongest(m, fs0);
        let r0 = spec_peak_run(m, fs0);
        let f = fs.last();
        assert(f.keys@[T as int]);
        let r = spec_peak_run(m, fs);
        assert forall|i: int| 0 <= i < fs.len() implies #[trigger] fs[i].gyro_mag <= r.max_mag by {
            if i < fs0.len() {
                assert(fs0[i] == fs[i]);
            }
        }
        if !(r.max_cal == m.max_cal && r.max_mag == m.max_mag) {
            if r.max_mag == r0.max_mag && r.max_cal == r0.max_cal {
                let i = choose|i: int|
                    0 <= i < fs0.len() && r0.max_cal == gyro_vec(#[trigger] fs0[i].gyro@) && r0.max_mag
                        == fs0[i].gyro_mag;
                assert(fs0[i] == fs[i]);
            } else {
                assert(r.max_cal == gyro_vec(fs[fs.len() - 1].gyro@));
            }
        }
    }
}

/// With no key just pressed, scanning the bindings fires none of them.
proof fn lemma_scan_quiet(m: KeyboardModel, caps: bool, n: nat)
    requires
        m.wf(),
        n <= m.binds.len(),
        forall|k: int| 0 <= k < NUM_KEYS ==> !#[trigger] m.key_down(k),
    ensures
        scan(m, caps, n).out.len() == 0,
        scan(m, caps, n).mode == m.mode,
        scan(m, caps, n).mask == m.mode_mask,
    decreases n,
{
    if n > 0 {
        lemma_scan_quiet(m, caps, (n - 1) as nat);
        assert(crate::binds::bind_wf(m.binds[n - 1]));
    }
}

/// Keys held through two frames in a row type nothing in the second: a
/// binding fires once per press.
pub proof fn lemma_held_keys_do_not_repeat(m: KeyboardModel, f: Frame, mo: Motion)
    requires
        m.wf(),
        f.keys@ == m.keys,
        !read_overflows(spec_post(m).0, f),
    ensures
        forall|i: int|
            0 <= i < spec_exec(spec_read(spec_post(m).0, f).0, mo).1.len() ==> !is_keystroke(
                #[trigger] spec_exec(spec_read(spec_post(m).0, f).0, mo).1[i],
            ),
{
    let m1 = spec_post(m).0;
    lemma_steps_keep_wf(m, f, mo);
    let m2 = spec_read(m1, f).0;
    lemma_steps_keep_wf(m1, f, mo);
    assert forall|k: int| 0 <= k < NUM_KEYS implies !#[trigger] m2.key_down(k) by {}
    lemma_scan_quiet(m2, mo.caps, m2.binds.len());
}

/// The keyboard after the start of one frame each of `fs`, in order, with
/// everything those reads output.
pub open spec fn spec_reads(m: KeyboardModel, fs: Seq<Frame>) -> (KeyboardModel, Seq<Output>)
    decreases fs.len(),
{
    if fs.len() == 0 {
        (m, Seq::empty())
    } else {
        let (m0, out0) = spec_reads(m, fs.drop_last());
        let (m1, out1) = spec_read(m0, fs.last());
        (m1, out0 + out1)
    }
}

/// Reads with all five keys held count up the run of such frames, one per
/// read; while the run has not passed [`CALIBRATION_TRIGGER_FRAMES`] they
/// leave the calibration count and the phase alone and type nothing.
pub proof fn lemma_repeated_reads_count(m: KeyboardModel, fs: Seq<Frame>)
    requires
        m.wf(),
        forall|i: int| 0 <= i < fs.len() ==> all_held(#[trigger] fs[i].keys@),
        m.trigger_frames + fs.len() < u32::MAX,
    ensures
        spec_reads(m, fs).0.wf(),
        spec_reads(m, fs).0.trigger_frames == m.trigger_frames + fs.len(),
        m.trigger_frames + fs.len() <= CALIBRATION_TRIGGER_FRAMES ==> {
            &&& spec_reads(m, fs).0.calibrated == m.calibrated
            &&& spec_reads(m, fs).0.phase == m.phase
            &&& spec_reads(m, fs).1 == Seq::<Output>::empty()
        },
    decreases fs.len(),
{
    if fs.len() > 0 {
        let fs0 = fs.drop_last();
        assert forall|i: int| 0 <= i < fs0.len() implies all_held(#[trigger] fs0[i].keys@) by {
            assert(fs0[i] == fs[i]);
        }
        lemma_repeated_reads_count(m, fs0);
        let m0 = spec_reads(m, fs0).0;
        assert(all_held(fs[fs.len() - 1].keys@));
        lemma_steps_keep_wf(m0, fs.last(), arbitrary_motion());
        if m.trigger_frames + fs.len() <= CALIBRATION_TRIGGER_FRAMES {
            assert(spec_reads(m, fs).1 =~= Seq::<Output>::empty());
        }
    }
}

/// Some motion, for laws that do not depend on it.
pub open spec fn arbitrary_motion() -> Motion {
    Motion { strong: false, caps: false, near: false }
}

/// Starting from a run of zero, reads 1 to 3000 with all five keys held
/// change neither the calibration count nor the phase and type nothing;
/// read 3001 and every further such read types `cal`, sets the calibration
/// count to 0 and starts calibrating.
pub proof fn lemma_repeated_reads_recalibrate(m: KeyboardModel, fs: Seq<Frame>)
    requires
        m.wf(),
        m.trigger_frames == 0,
        forall|i: int| 0 <= i < fs.len() ==> all_held(#[trigger] fs[i].keys@),
        fs.len() < u32::MAX,
    ensures
        fs.len() <= CALIBRATION_TRIGGER_FRAMES ==> {
            &&& spec_reads(m, fs).0.calibrated == m.calibrated
            &&& spec_reads(m, fs).0.phase == m.phase
            &&& spec_reads(m, fs).1 == Seq::<Output>::empty()
        },
        fs.len() > CALIBRATION_TRIGGER_FRAMES ==> ({
            let (after, out) = spec_read(spec_reads(m, fs.drop_last()).0, fs.last());
            &&& after.calibrated == 0
            &&& after.phase == Phase::Calibrate
            &&& out == typed_bytes(recalibrate_word())
        }),
{
    lemma_repeated_reads_count(m, fs);
    if fs.len() > 0 {
        let fs0 = fs.drop_last();
        assert forall|i: int| 0 <= i < fs0.len() implies all_held(#[trigger] fs0[i].keys@) by {
            assert(fs0[i] == fs[i]);
        }
        lemma_repeated_reads_count(m, fs0);
        assert(all_held(fs[fs.len() - 1].keys@));
    }
}

/// A read with any key up ends the run: the count restarts from zero, and
/// the read leaves the calibration count and the phase alone and types
/// nothing.
pub proof fn lemma_key_up_restarts_count(m: KeyboardModel, f: Frame)
    requires
        m.wf(),
        !all_held(f.keys@),
    ensures
        spec_read(m, f).0.trigger_frames == 0,
        spec_read(m, f).0.calibrated == m.calibrated,
        spec_read(m, f).0.phase == m.phase,
        spec_read(m, f).1 == Seq::<Output>::empty(),
{
}

/// One call of the library's frame functions.
pub enum Step {
    Read(Frame),
    Exec(Motion),
    Post,
}

/// The keyboard after the calls `steps`, in order.
pub open spec fn spec_steps(m: KeyboardModel, steps: Seq<Step>) -> KeyboardModel
    decreases steps.len(),
{
    if steps.len() == 0 {
        m
    } else {
        let m0 = spec_steps(m, steps.drop_last());
        match steps.last() {
            Step::Read(f) => spec_read(m0, f).0,
            Step::Exec(mo) => spec_exec(m0, mo).0,
            Step::Post => spec_post(m0).0,
        }
    }
}

/// From start-up, after any calls of `read`, `exec` and `post` in any order,
/// no more rotations are calibrated than there are, and while collecting or
/// confirming there is a slot left for the calibration being made.
pub proof fn lemma_calibration_count_bounded(present: Seq<bool>, steps: Seq<Step>)
    requires
        present.len() == NUM_CALIBRATIONS,
    ensures
        spec_steps(crate::state::spec_init(present), steps).wf(),
        spec_steps(crate::state::spec_init(present), steps).calibrated <= NUM_CALIBRATIONS,
        ({
            let r = spec_steps(crate::state::spec_init(present), steps);
            (r.phase == Phase::Collect || r.phase == Phase::Confirm) ==> r.calibrated < NUM_CALIBRATIONS
        }),
    decreases steps.len(),
{
    if steps.len() == 0 {
        lemma_count_true_bound(present);
        lemma_layout_unambiguous();
    } else {
        lemma_calibration_count_bounded(present, steps.drop_last());
        let m0 = spec_steps(crate::state::spec_init(present), steps.drop_last());
        match steps.last() {
            Step::Read(f) => lemma_steps_keep_wf(m0, f, arbitrary_motion()),
            Step::Exec(mo) => crate::state::lemma_exec_keeps_wf(m0, mo),
            Step::Post => {},
        }
    }
}

proof fn lemma_count_true_bound(s: Seq<bool>)
    ensures
        crate::state::count_true(s) <= s.len(),
    decreases s.len(),
{
    if s.len() > 0 {
        lemma_count_true_bound(s.drop_last());
    }
}

/// While the bindings are scanned, either no binding has switched the mode
/// (mode and mask are as they were) or the mask holds no key.
proof fn lemma_scan_switch_clears(m: KeyboardModel, caps: bool, n: nat)
    requires
        m.wf(),
        n <= m.binds.len(),
    ensures
        ({
            let st = scan(m, caps, n);
            ||| st.mode == m.mode && st.mask == m.mode_mask
            ||| st.mask.len() == NUM_KEYS && forall|k: int| 0 <= k < NUM_KEYS ==> !#[trigger] st.mask[k]
        }),
    decreases n,
{
    if n > 0 {
        lemma_scan_switch_clears(m, caps, (n - 1) as nat);
    }
}

/// When a step changes the mode, the mode mask afterwards holds no key: a
/// newly entered mode starts with no key pressed in it. Only the typing
/// step changes the mode, and only when idle, fully calibrated and turning.
pub proof fn lemma_mode_switch_clears_mask(m: KeyboardModel, mo: Motion)
    requires
        m.wf(),
        spec_exec(m, mo).0.mode != m.mode,
    ensures
        m.phase == Phase::Idle,
        m.calibrated == NUM_CALIBRATIONS,
        m.rotating,
        forall|k: int| 0 <= k < NUM_KEYS ==> !#[trigger] spec_exec(m, mo).0.mode_mask[k],
{
    lemma_scan_switch_clears(m, mo.caps, m.binds.len());
}

/// At the end of a frame in which the thumb was released, the keyboard is
/// back in mode 0, and a space is typed exactly when it leaves mode 1 with
/// none of the finger keys `I`, `M`, `R`, `P` pressed since the mode was
/// entered; the LED is driven last. Without a thumb release the mode stays
/// and only the LED is driven.
pub proof fn lemma_space_on_thumb_release(m: KeyboardModel)
    requires
        m.wf(),
    ensures
        m.key_up(0) ==> spec_post(m).0.mode == 0,
        !m.key_up(0) ==> spec_post(m).0.mode == m.mode,
        spec_post(m).1 == (if m.key_up(0) && m.mode == 1 && !m.mode_mask[1] && !m.mode_mask[2]
            && !m.mode_mask[3] && !m.mode_mask[4] {
            seq![Output::Type(' '), Output::Led(m.led)]
        } else {
            seq![Output::Led(m.led)]
        }),
{
}

/// The thumb-only chord: a step that switches from another mode into mode 1
/// while only the thumb is held, followed by the end of that frame and by a
/// whole frame with no key held, types exactly one space at the end of that
/// second frame, whatever keys were pressed before.
pub proof fn lemma_thumb_chord_types_space(
    m: KeyboardModel,
    mo: Motion,
    f: Frame,
    mo2: Motion,
)
    requires
        m.wf(),
        m.mode != 1,
        spec_exec(m, mo).0.mode == 1,
        m.keys == seq![true, false, false, false, false],
        f.keys@ == seq![false, false, false, false, false],
    ensures
        ({
            let m1 = spec_post(spec_exec(m, mo).0).0;
            let m2 = spec_read(m1, f).0;
            let m3 = spec_exec(m2, mo2).0;
            spec_post(m3).1 == seq![Output::Type(' '), Output::Led(m3.led)]
        }),
{
    lemma_mode_switch_clears_mask(m, mo);
    let m0 = spec_exec(m, mo).0;
    crate::state::lemma_exec_keeps_wf(m, mo);
    let m1 = spec_post(m0).0;
    assert(m1.mode_mask[0]);
    assert(!m1.mode_mask[1] && !m1.mode_mask[2] && !m1.mode_mask[3] && !m1.mode_mask[4]);
    let m2 = spec_read(m1, f).0;
    assert(!all_held(f.keys@));
    assert forall|k: int| 0 <= k < NUM_KEYS implies !#[trigger] m2.key_down(k) by {}
    lemma_scan_quiet(m2, mo2.caps, m2.binds.len());
    let m3 = spec_exec(m2, mo2).0;
    assert(m3.mode == 1);
    assert(m3.mode_mask == m1.mode_mask);
    assert(m3.key_up(0));
}

/// Accepting the candidate with `M` while confirming stores it at the index
/// equal to the number of rotations calibrated so far, counts it, leaves
/// every other stored calibration as it was, and goes on calibrating.
pub proof fn lemma_peak_accept_stores_next(m: PeakModel, f: PeakFrame)
    requires
        m.wf(),
        m.phase == Phase::Confirm,
        f.keys@[2] && !m.key_cache[2],
    ensures
        ({
            let r = spec_peak_frame(m, f).0;
            &&& r.calibrated == m.calibrated + 1
            &&& r.calibrations.len() == m.calibrations.len()
            &&& r.calibrations[m.calibrated as int] == m.max_cal
            &&& forall|i: int|
                0 <= i < m.calibrations.len() && i != m.calibrated ==> #[trigger] r.calibrations[i]
                    == m.calibrations[i]
            &&& r.phase == Phase::Calibrate
        }),
{
}

/// Accepting the candidate with `M` while confirming asks to store it as the
/// calibration with the index equal to the number calibrated so far, right
/// after announcing it, and counts it.
pub proof fn lemma_accept_stores_next(m: KeyboardModel, mo: Motion)
    requires
        m.wf(),
        m.phase == Phase::Confirm,
        m.keys[2] && !m.key_cache[2],
    ensures
        spec_exec(m, mo).0.calibrated == m.calibrated + 1,
        spec_exec(m, mo).0.phase == Phase::Calibrate,
        ({
            let out = spec_exec(m, mo).1;
            &&& out.len() >= 2
            &&& out[out.len() - 2] == Output::Notice(crate::state::Notice::Accepted)
            &&& out[out.len() - 1] == Output::StoreCalibration(m.calibrated)
        }),
{
}

/// The default layout, entry by entry: rotation (0 left, 1 right, 2 up,
/// 3 down, 4 palm over, 5 palm under), key (0 thumb, then the fingers
/// `I M R P`), the byte typed, the keycode tapped, the mode, and the mode
/// switched to.
pub proof fn lemma_layout_table()
    ensures
        default_layout() == seq![
            KeyBind { rotation: 5, switch: 0, symbol: 'a' as u8, code: 0, mode: 0, set_mode: -1i8 },
            KeyBind { rotation: 5, switch: 1, symbol: 'd' as u8, code: 0, mode: 0, set_mode: -1i8 },
            KeyBind { rotation: 5, switch: 2, symbol: 'g' as u8, code: 0, mode: 0, set_mode: -1i8 },
            KeyBind { rotation: 5, switch: 3, symbol: 's' as u8, code: 0, mode: 0, set_mode: -1i8 },
            KeyBind { rotation: 5, switch: 4, symbol: 'f' as u8, code: 0, mode: 0, set_mode: -1i8 },
            KeyBind { rotation: 0, switch: 0, symbol: 'o' as u8, code: 0, mode: 0, set_mode: -1i8 },
            KeyBind { rotation: 0, switch: 1, symbol: ';' as u8, code: 0, mode: 0, set_mode: -1i8 },
            KeyBind { rotation: 0, switch: 2, symbol: 'k' as u8, code: 0, mode: 0, set_mode: -1i8 },
            KeyBind { rotation: 0, switch: 3, symbol: 'j' as u8, code: 0, mode: 0, set_mode: -1i8 },
            KeyBind { rotation: 0, switch: 4, symbol: 'i' as u8, code: 0, mode: 0, set_mode: -1i8 },
            KeyBind { rotation: 1, switch: 0, symbol: 'n' as u8, code: 0, mode: 0, set_mode: -1i8 },
            KeyBind { rotation: 1, switch: 1, symbol: 'y' as u8, code: 0, mode: 0, set_mode: -1i8 },
            KeyBind { rotation: 1, switch: 2, symbol: 'u' as u8, code: 0, mode: 0, set_mode: -1i8 },
            KeyBind { rotation: 1, switch: 3, symbol: 't' as u8, code: 0, mode: 0, set_mode: -1i8 },
            KeyBind { rotation: 1, switch: 4, symbol: ' ' as u8, code: 0, mode: 0, set_mode: -1i8 },
            KeyBind { rotation: 4, switch: 0, symbol: 0, code: 0, mode: 0, set_mode: 1i8 },
            KeyBind { rotation: 4, switch: 1, symbol: 'h' as u8, code: 0, mode: 0, set_mode: -1i8 },
            KeyBind { rotation: 4, switch: 2, symbol: 'm' as u8, code: 0, mode: 0, set_mode: -1i8 },
            KeyBind { rotation: 4, switch: 3, symbol: 'l' as u8, code: 0, mode: 0, set_mode: -1i8 },
            KeyBind { rotation: 4, switch: 4, symbol: 'p' as u8, code: 0, mode: 0, set_mode: -1i8 },
            KeyBind { rotation: 2, switch: 0, symbol: 'r' as u8, code: 0, mode: 0, set_mode: -1i8 },
            KeyBind { rotation: 2, switch: 1, symbol: '.' as u8, code: 0, mode: 0, set_mode: -1i8 },
            KeyBind { rotation: 2, switch: 2, symbol: ',' as u8, code: 0, mode: 0, set_mode: -1i8 },
            KeyBind { rotation: 2, switch: 3, symbol: 'v' as u8, code: 0, mode: 0, set_mode: -1i8 },
            KeyBind { rotation: 2, switch: 4, symbol: ' ' as u8, code: 0, mode: 0, set_mode: -1i8 },
            KeyBind { rotation: 3, switch: 0, symbol: ' ' as u8, code: 0, mode: 0, set_mode: -1i8 },
            KeyBind { rotation: 3, switch: 1, symbol: ' ' as u8, code: 0, mode: 0, set_mode: -1i8 },
            KeyBind { rotation: 3, switch: 2, symbol: ' ' as u8, code: 0, mode: 0, set_mode: -1i8 },
            KeyBind { rotation: 3, switch: 3, symbol: ' ' as u8, code: 0, mode: 0, set_mode: -1i8 },
            KeyBind { rotation: 3, switch: 4, symbol: ' ' as u8, code: 0, mode: 0, set_mode: -1i8 },
            KeyBind { rotation: 4, switch: 1, symbol: 'e' as u8, code: 0, mode: 1, set_mode: -1i8 },
            KeyBind { rotation: 4, switch: 2, symbol: 'w' as u8, code: 0, mode: 1, set_mode: -1i8 },
            KeyBind { rotation: 4, switch: 3, symbol: '!' as u8, code: 0, mode: 1, set_mode: -1i8 },
            KeyBind { rotation: 4, switch: 4, symbol: '{' as u8, code: 0, mode: 1, set_mode: -1i8 },
            KeyBind { rotation: 0, switch: 1, symbol: 'c' as u8, code: 0, mode: 1, set_mode: -1i8 },
            KeyBind { rotation: 0, switch: 2, symbol: 'x' as u8, code: 0, mode: 1, set_mode: -1i8 },
            KeyBind { rotation: 0, switch: 3, symbol: 'b' as u8, code: 0, mode: 1, set_mode: -1i8 },
            KeyBind { rotation: 0, switch: 4, symbol: '/' as u8, code: 0, mode: 1, set_mode: -1i8 },
            KeyBind { rotation: 2, switch: 1, symbol: '1' as u8, code: 0, mode: 1, set_mode: -1i8 },
            KeyBind { rotation: 2, switch: 2, symbol: '2' as u8, code: 0, mode: 1, set_mode: -1i8 },
            KeyBind { rotation: 2, switch: 3, symbol: '4' as u8, code: 0, mode: 1, set_mode: -1i8 },
            KeyBind { rotation: 2, switch: 4, symbol: '8' as u8, code: 0, mode: 1, set_mode: -1i8 },
            KeyBind { rotation: 5, switch: 1, symbol: 0, code: 0x402b, mode: 1, set_mode: -1i8 },
            KeyBind { rotation: 5, switch: 2, symbol: 0, code: 0x4028, mode: 1, set_mode: -1i8 },
            KeyBind { rotation: 5, switch: 3, symbol: 0, code: 0x402a, mode: 1, set_mode: -1i8 },
            KeyBind { rotation: 5, switch: 4, symbol: 0, code: 0x4029, mode: 1, set_mode: -1i8 },
        ],
{
    assert(default_layout() =~= seq![
            KeyBind { rotation: 5, switch: 0, symbol: 'a' as u8, code: 0, mode: 0, set_mode: -1i8 },
            KeyBind { rotation: 5, switch: 1, symbol: 'd' as u8, code: 0, mode: 0, set_mode: -1i8 },
            KeyBind { rotation: 5, switch: 2, symbol: 'g' as u8, code: 0, mode: 0, set_mode: -1i8 },
            KeyBind { rotation: 5, switch: 3, symbol: 's' as u8, code: 0, mode: 0, set_mode: -1i8 },
            KeyBind { rotation: 5, switch: 4, symbol: 'f' as u8, code: 0, mode: 0, set_mode: -1i8 },
            KeyBind { rotation: 0, switch: 0, symbol: 'o' as u8, code: 0, mode: 0, set_mode: -1i8 },
            KeyBind { rotation: 0, switch: 1, symbol: ';' as u8, code: 0, mode: 0, set_mode: -1i8 },
            KeyBind { rotation: 0, switch: 2, symbol: 'k' as u8, code: 0, mode: 0, set_mode: -1i8 },
            KeyBind { rotation: 0, switch: 3, symbol: 'j' as u8, code: 0, mode: 0, set_mode: -1i8 },
            KeyBind { rotation: 0, switch: 4, symbol: 'i' as u8, code: 0, mode: 0, set_mode: -1i8 },
            KeyBind { rotation: 1, switch: 0, symbol: 'n' as u8, code: 0, mode: 0, set_mode: -1i8 },
            KeyBind { rotation: 1, switch: 1, symbol: 'y' as u8, code: 0, mode: 0, set_mode: -1i8 },
            KeyBind { rotation: 1, switch: 2, symbol: 'u' as u8, code: 0, mode: 0, set_mode: -1i8 },
            KeyBind { rotation: 1, switch: 3, symbol: 't' as u8, code: 0, mode: 0, set_mode: -1i8 },
            KeyBind { rotation: 1, switch: 4, symbol: ' ' as u8, code: 0, mode: 0, set_mode: -1i8 },
            KeyBind { rotation: 4, switch: 0, symbol: 0, code: 0, mode: 0, set_mode: 1i8 },
            KeyBind { rotation: 4, switch: 1, symbol: 'h' as u8, code: 0, mode: 0, set_mode: -1i8 },
            KeyBind { rotation: 4, switch: 2, symbol: 'm' as u8, code: 0, mode: 0, set_mode: -1i8 },
            KeyBind { rotation: 4, switch: 3, symbol: 'l' as u8, code: 0, mode: 0, set_mode: -1i8 },
            KeyBind { rotation: 4, switch: 4, symbol: 'p' as u8, code: 0, mode: 0, set_mode: -1i8 },
            KeyBind { rotation: 2, switch: 0, symbol: 'r' as u8, code: 0, mode: 0, set_mode: -1i8 },
            KeyBind { rotation: 2, switch: 1, symbol: '.' as u8, code: 0, mode: 0, set_mode: -1i8 },
            KeyBind { rotation: 2, switch: 2, symbol: ',' as u8, code: 0, mode: 0, set_mode: -1i8 },
            KeyBind { rotation: 2, switch: 3, symbol: 'v' as u8, code: 0, mode: 0, set_mode: -1i8 },
            KeyBind { rotation: 2, switch: 4, symbol: ' ' as u8, code: 0, mode: 0, set_mode: -1i8 },
            KeyBind { rotation: 3, switch: 0, symbol: ' ' as u8, code: 0, mode: 0, set_mode: -1i8 },
            KeyBind { rotation: 3, switch: 1, symbol: ' ' as u8, code: 0, mode: 0, set_mode: -1i8 },
            KeyBind { rotation: 3, switch: 2, symbol: ' ' as u8, code: 0, mode: 0, set_mode: -1i8 },
            KeyBind { rotation: 3, switch: 3, symbol: ' ' as u8, code: 0, mode: 0, set_mode: -1i8 },
            KeyBind { rotation: 3, switch: 4, symbol: ' ' as u8, code: 0, mode: 0, set_mode: -1i8 },
            KeyBind { rotation: 4, switch: 1, symbol: 'e' as u8, code: 0, mode: 1, set_mode: -1i8 },
            KeyBind { rotation: 4, switch: 2, symbol: 'w' as u8, code: 0, mode: 1, set_mode: -1i8 },
            KeyBind { rotation: 4, switch: 3, symbol: '!' as u8, code: 0, mode: 1, set_mode: -1i8 },
            KeyBind { rotation: 4, switch: 4, symbol: '{' as u8, code: 0, mode: 1, set_mode: -1i8 },
            KeyBind { rotation: 0, switch: 1, symbol: 'c' as u8, code: 0, mode: 1, set_mode: -1i8 },
            KeyBind { rotation: 0, switch: 2, symbol: 'x' as u8, code: 0, mode: 1, set_mode: -1i8 },
            KeyBind { rotation: 0, switch: 3, symbol: 'b' as u8, code: 0, mode: 1, set_mode: -1i8 },
            KeyBind { rotation: 0, switch: 4, symbol: '/' as u8, code: 0, mode: 1, set_mode: -1i8 },
            KeyBind { rotation: 2, switch: 1, symbol: '1' as u8, code: 0, mode: 1, set_mode: -1i8 },
            KeyBind { rotation: 2, switch: 2, symbol: '2' as u8, code: 0, mode: 1, set_mode: -1i8 },
            KeyBind { rotation: 2, switch: 3, symbol: '4' as u8, code: 0, mode: 1, set_mode: -1i8 },
            KeyBind { rotation: 2, switch: 4, symbol: '8' as u8, code: 0, mode: 1, set_mode: -1i8 },
            KeyBind { rotation: 5, switch: 1, symbol: 0, code: 0x402b, mode: 1, set_mode: -1i8 },
            KeyBind { rotation: 5, switch: 2, symbol: 0, code: 0x4028, mode: 1, set_mode: -1i8 },
            KeyBind { rotation: 5, switch: 3, symbol: 0, code: 0x402a, mode: 1, set_mode: -1i8 },
            KeyBind { rotation: 5, switch: 4, symbol: 0, code: 0x4029, mode: 1, set_mode: -1i8 },
    ]);
}

/// A row of the Dvorak layout as printed on its keycaps, letters in upper
/// case, from the left.
pub open spec fn dvorak_keycaps(row: int) -> Seq<char> {
    if row == 0 {
        seq!['\'', ',', '.', 'P', 'Y', 'F', 'G', 'C', 'R', 'L']
    } else if row == 1 {
        seq!['A', 'O', 'E', 'U', 'I', 'D', 'H', 'T', 'N', 'S']
    } else {
        seq![';', 'Q', 'J', 'K', 'X', 'B', 'M', 'W', 'V', 'Z']
    }
}

/// The same row of a QWERTY keyboard, unshifted, from the left.
pub open spec fn qwerty_keys(row: int) -> Seq<char> {
    if row == 0 {
        seq!['q', 'w', 'e', 'r', 't', 'y', 'u', 'i', 'o', 'p']
    } else if row == 1 {
        seq!['a', 's', 'd', 'f', 'g', 'h', 'j', 'k', 'l', ';']
    } else {
        seq!['z', 'x', 'c', 'v', 'b', 'n', 'm', ',', '.', '/']
    }
}

/// A character that the Dvorak mapping moves: an upper-case letter, a
/// comma, a full stop or a question mark.
pub open spec fn dvorak_moved(c: char) -> bool {
    ('A' <= c && c <= 'Z') || c == ',' || c == '.' || c == '?'
}

/// Each upper-case letter, and the comma and full stop, maps to the QWERTY
/// key at the position where the Dvorak layout prints it; the question mark
/// (shifted `/`, printed where QWERTY has `[`) maps to the shifted `[`, `{`;
/// every other character is left as it is. The letters map to 26 different
/// keys.
pub proof fn lemma_dvorak_positions()
    ensures
        forall|row: int, p: int|
            0 <= row < 3 && 0 <= p < 10 && dvorak_moved(#[trigger] dvorak_keycaps(row)[p])
                ==> spec_dvorak(dvorak_keycaps(row)[p]) == qwerty_keys(row)[p],
        spec_dvorak('?') == '{',
        forall|c: char| !dvorak_moved(c) ==> #[trigger] spec_dvorak(c) == c,
        forall|a: char, b: char|
            'A' <= a <= 'Z' && 'A' <= b <= 'Z' && a != b ==> #[trigger] spec_dvorak(a) != #[trigger] spec_dvorak(b),
{
    assert forall|row: int, p: int|
        0 <= row < 3 && 0 <= p < 10 && dvorak_moved(#[trigger] dvorak_keycaps(row)[p]) implies spec_dvorak(
        dvorak_keycaps(row)[p],
    ) == qwerty_keys(row)[p] by {
        if row == 0 {
            assert(p == 0 || p == 1 || p == 2 || p == 3 || p == 4 || p == 5 || p == 6 || p == 7 || p == 8 || p == 9);
        } else if row == 1 {
            assert(p == 0 || p == 1 || p == 2 || p == 3 || p == 4 || p == 5 || p == 6 || p == 7 || p == 8 || p == 9);
        } else {
            assert(p == 0 || p == 1 || p == 2 || p == 3 || p == 4 || p == 5 || p == 6 || p == 7 || p == 8 || p == 9);
        }
    }
}

/// The shift mapping: lower-case letters other than `e` and `w` become their
/// upper-case letter; `e` becomes `w`; `;` `,` `.` `/` become the characters
/// on the same keys with shift, `:` `<` `>` `?`; every other character,
/// `w` included, is left as it is.
pub proof fn lemma_upcase_shifts()
    ensures
        forall|c: char|
            'a' <= c <= 'z' && c != 'e' && c != 'w' ==> #[trigger] spec_upcase(c) as u32 + 32 == c as u32,
        spec_upcase('e') == 'w',
        spec_upcase(';') == ':',
        spec_upcase(',') == '<',
        spec_upcase('.') == '>',
        spec_upcase('/') == '?',
        forall|c: char|
            !('a' <= c <= 'z') && c != ';' && c != ',' && c != '.' && c != '/' ==> #[trigger] spec_upcase(c)
                == c,
        spec_upcase('w') == 'w',
{
}

/// A step of the phase leaves the mode mask as it was or clears it: it
/// never adds a key to it nor drops only some.
pub proof fn lemma_exec_mask_only_clears(m: KeyboardModel, mo: Motion)
    requires
        m.wf(),
    ensures
        spec_exec(m, mo).0.mode_mask == m.mode_mask || forall|k: int|
            0 <= k < NUM_KEYS ==> !#[trigger] spec_exec(m, mo).0.mode_mask[k],
{
    lemma_scan_switch_clears(m, mo.caps, m.binds.len());
}

} // verus!
