use lib::bindings::{KEY_TAB, LEFT, OVER, UNDER};
use lib::state::{
    exec, init, keyboard_write, nearest_calibration, post, read, Frame, Keyboard, Motion, Notice,
    Output, Phase, DISTANCE_LIMIT, I, M, P, R, T,
};

const NONE: [bool; 5] = [false; 5];

fn keys_with(held: &[usize]) -> [bool; 5] {
    let mut k = [false; 5];
    for &h in held {
        k[h] = true;
    }
    k
}

/// Distances that put the hand at rotation `r`.
fn at_rotation(r: usize) -> [u32; 6] {
    let mut d = [1000u32; 6];
    d[r] = 10;
    d
}

fn frame(keys: [bool; 5], spinning: bool, rotation: usize) -> Frame {
    Frame { keys, spinning, distances: at_rotation(rotation) }
}

fn still() -> Motion {
    Motion { strong: false, caps: false, near: false }
}

/// One pass of the main loop; returns the outputs of each step.
fn cycle(kb: &mut Keyboard, f: &Frame, m: &Motion) -> (Vec<Output>, Vec<Output>, Vec<Output>) {
    let a = read(kb, f);
    let b = exec(kb, m);
    let c = post(kb);
    (a, b, c)
}

fn calibrated_keyboard() -> Keyboard {
    init(&[true; 6])
}

#[test]
fn init_counts_present_calibrations() {
    let kb = init(&[true, false, true, false, false, true]);
    assert_eq!(kb.calibrated, 3);
    assert_eq!(kb.phase, Phase::Idle);
    assert_eq!(kb.binds.len(), 46);
    assert_eq!(kb.mode, 0);
    assert_eq!(kb.keys, NONE);
    assert_eq!(kb.key_cache, NONE);
    assert_eq!(kb.mode_mask, NONE);
    assert!(!kb.led);
    assert_eq!(kb.heartbeat, 0);
    assert_eq!(kb.rotation, 0);
    assert!(!kb.rotating);
    assert_eq!(kb.trigger_frames, 0);
    assert_eq!(init(&[false; 6]).calibrated, 0);
    assert_eq!(init(&[true; 6]).calibrated, 6);
}

#[test]
fn key_edges() {
    let mut kb = calibrated_keyboard();
    kb.keys = keys_with(&[T, I]);
    kb.key_cache = keys_with(&[I, M]);
    assert!(kb.keyDown(T));
    assert!(!kb.keyDown(I));
    assert!(!kb.keyDown(M));
    assert!(kb.keyUp(M));
    assert!(!kb.keyUp(I));
    assert!(!kb.keyUp(T));
    assert!(!kb.keyDown(P) && !kb.keyUp(P));
}

#[test]
fn nearest_calibration_picks_smallest_first() {
    assert_eq!(nearest_calibration(&[5, 3, 9, 3, 7, 8]), 1);
    assert_eq!(nearest_calibration(&[5, 6, 9, 4, 7, 4]), 3);
    assert_eq!(nearest_calibration(&[0, 0, 0, 0, 0, 0]), 0);
    assert_eq!(nearest_calibration(&[DISTANCE_LIMIT; 6]), usize::MAX);
    assert_eq!(nearest_calibration(&[u32::MAX, DISTANCE_LIMIT, DISTANCE_LIMIT - 1, 9, 9, 9]), 3);
    assert_eq!(
        nearest_calibration(&[u32::MAX, DISTANCE_LIMIT, DISTANCE_LIMIT - 1, u32::MAX, u32::MAX, u32::MAX]),
        2
    );
}

#[test]
fn nearest_calibration_matches_float_order() {
    let d: [f32; 6] = [0.75, 0.25, 1.5, 0.25, f32::INFINITY, 0.5];
    let keys: [u32; 6] = d.map(|x| x.to_bits());
    assert_eq!(nearest_calibration(&keys), 1);
    let far: [u32; 6] = [f32::INFINITY.to_bits(), f32::NAN.to_bits(), f32::MAX.to_bits(), f32::INFINITY.to_bits(), f32::NAN.to_bits(), f32::MAX.to_bits()];
    assert_eq!(nearest_calibration(&far), usize::MAX);
    assert_eq!(f32::MAX.to_bits(), DISTANCE_LIMIT);
}

#[test]
fn read_takes_keys_and_rotation() {
    let mut kb = calibrated_keyboard();
    let out = read(&mut kb, &Frame { keys: keys_with(&[M]), spinning: true, distances: [9, 8, 7, 1, 7, 8] });
    assert!(out.is_empty());
    assert_eq!(kb.keys, keys_with(&[M]));
    assert!(kb.rotating);
    assert_eq!(kb.rotation, 3);
    read(&mut kb, &Frame { keys: NONE, spinning: false, distances: [9, 8, 7, 1, 7, 8] });
    assert!(!kb.rotating);
    assert_eq!(kb.rotation, 0);
    read(&mut kb, &Frame { keys: NONE, spinning: true, distances: [DISTANCE_LIMIT; 6] });
    assert!(kb.rotating);
    assert_eq!(kb.rotation, usize::MAX);
}

#[test]
fn read_heartbeat_lights_led_first_frames() {
    let mut kb = calibrated_keyboard();
    for i in 0..5000u32 {
        read(&mut kb, &frame(NONE, false, 0));
        assert_eq!(kb.led, i < 10);
        assert_eq!(kb.heartbeat, (i + 1) % 5000);
    }
    assert_eq!(kb.heartbeat, 0);
    read(&mut kb, &frame(NONE, false, 0));
    assert!(kb.led);
}

#[test]
fn read_counts_frames_with_all_keys_held() {
    let mut kb = calibrated_keyboard();
    let all = [true; 5];
    read(&mut kb, &frame(all, false, 0));
    read(&mut kb, &frame(all, false, 0));
    assert_eq!(kb.trigger_frames, 2);
    read(&mut kb, &frame(keys_with(&[T, I, M, R]), false, 0));
    assert_eq!(kb.trigger_frames, 0);
}

#[test]
fn long_hold_of_all_keys_recalibrates() {
    let mut kb = calibrated_keyboard();
    let all = [true; 5];
    for _ in 0..3000 {
        let (a, _, _) = cycle(&mut kb, &frame(all, false, 0), &still());
        assert!(a.is_empty());
    }
    assert_eq!(kb.calibrated, 6);
    let out = read(&mut kb, &frame(all, false, 0));
    assert_eq!(out, vec![Output::Type('c'), Output::Type('a'), Output::Type('l')]);
    assert_eq!(kb.calibrated, 0);
    assert_eq!(kb.phase, Phase::Calibrate);
    assert_eq!(kb.trigger_frames, 3001);
}

#[test]
fn idle_goes_calibrating_until_all_rotations_are() {
    let mut kb = init(&[true, true, true, true, true, false]);
    read(&mut kb, &frame(keys_with(&[T]), true, UNDER as usize));
    let out = exec(&mut kb, &still());
    assert!(out.is_empty());
    assert_eq!(kb.phase, Phase::Calibrate);
}

#[test]
fn typing_a_letter() {
    let mut kb = calibrated_keyboard();
    let (_, typed, end) = cycle(&mut kb, &frame(keys_with(&[T]), true, UNDER as usize), &still());
    assert_eq!(typed, vec![Output::Type('a')]);
    assert_eq!(end, vec![Output::Led(true)]);
    // Holding the key does not repeat it.
    let (_, typed, _) = cycle(&mut kb, &frame(keys_with(&[T]), true, UNDER as usize), &still());
    assert!(typed.is_empty());
    // Pressing another finger at another rotation.
    let (_, typed, _) = cycle(&mut kb, &frame(keys_with(&[T, I]), true, LEFT as usize), &still());
    assert_eq!(typed, vec![Output::Type(';')]);
}

#[test]
fn typing_shifted_when_swung_hard() {
    let mut kb = calibrated_keyboard();
    let caps = Motion { strong: false, caps: true, near: false };
    let (_, typed, _) = cycle(&mut kb, &frame(keys_with(&[T]), true, UNDER as usize), &caps);
    assert_eq!(typed, vec![Output::Type('A')]);
}

#[test]
fn nothing_typed_without_turning() {
    let mut kb = calibrated_keyboard();
    let (_, typed, end) = cycle(&mut kb, &frame(keys_with(&[T]), false, UNDER as usize), &still());
    assert!(typed.is_empty());
    assert_eq!(end, vec![Output::Led(true)]);
    assert!(!kb.led || kb.heartbeat <= 10);
}

#[test]
fn mode_switch_and_space_on_thumb_release() {
    let mut kb = calibrated_keyboard();
    let (_, typed, _) = cycle(&mut kb, &frame(keys_with(&[T]), true, OVER as usize), &still());
    assert!(typed.is_empty());
    assert_eq!(kb.mode, 1);
    assert_eq!(kb.mode_mask, keys_with(&[T]));
    // Releasing the thumb without a finger: a space, back to mode 0.
    let (_, typed, end) = cycle(&mut kb, &frame(NONE, true, OVER as usize), &still());
    assert!(typed.is_empty());
    assert_eq!(end[0], Output::Type(' '));
    assert_eq!(kb.mode, 0);
}

#[test]
fn punctuation_in_mode_one() {
    let mut kb = calibrated_keyboard();
    cycle(&mut kb, &frame(keys_with(&[T]), true, OVER as usize), &still());
    let (_, typed, _) = cycle(&mut kb, &frame(keys_with(&[T, I]), true, OVER as usize), &still());
    assert_eq!(typed, vec![Output::Type('e')]);
    let (_, typed, end) = cycle(&mut kb, &frame(NONE, true, OVER as usize), &still());
    assert!(typed.is_empty());
    assert_eq!(end, vec![Output::Led(true)]);
    assert_eq!(kb.mode, 0);
}

#[test]
fn keycode_tap_in_mode_one() {
    let mut kb = calibrated_keyboard();
    cycle(&mut kb, &frame(keys_with(&[T]), true, OVER as usize), &still());
    let (_, typed, _) = cycle(&mut kb, &frame(keys_with(&[T, I]), true, UNDER as usize), &still());
    assert_eq!(typed, vec![Output::Press(KEY_TAB), Output::Release(KEY_TAB)]);
}

#[test]
fn post_remembers_keys_and_grows_mask() {
    let mut kb = calibrated_keyboard();
    kb.keys = keys_with(&[I, P]);
    kb.mode_mask = keys_with(&[M]);
    kb.led = true;
    let out = post(&mut kb);
    assert_eq!(out, vec![Output::Led(true)]);
    assert_eq!(kb.key_cache, keys_with(&[I, P]));
    assert_eq!(kb.mode_mask, keys_with(&[I, M, P]));
    for k in 0..5 {
        assert!(!kb.keyDown(k) && !kb.keyUp(k));
    }
}

#[test]
fn thumb_release_in_mode_zero_types_nothing() {
    let mut kb = calibrated_keyboard();
    kb.key_cache = keys_with(&[T]);
    kb.mode = 0;
    let out = post(&mut kb);
    assert_eq!(out, vec![Output::Led(false)]);
    assert_eq!(kb.mode, 0);
}

#[test]
fn calibration_flow() {
    let mut kb = init(&[false; 6]);
    let strong = Motion { strong: true, caps: false, near: false };
    let (_, out, _) = cycle(&mut kb, &frame(NONE, false, 0), &still());
    assert!(out.is_empty());
    assert_eq!(kb.phase, Phase::Calibrate);
    let (_, out, _) = cycle(&mut kb, &frame(NONE, false, 0), &still());
    assert_eq!(out, vec![Output::Notice(Notice::CalibrateAxis), Output::ResetAverage]);
    assert_eq!(kb.phase, Phase::Collect);
    let (_, out, _) = cycle(&mut kb, &frame(keys_with(&[T]), true, 0), &strong);
    assert_eq!(out, vec![Output::Accumulate(0)]);
    let (_, out, _) = cycle(&mut kb, &frame(keys_with(&[T]), true, 0), &still());
    assert!(out.is_empty());
    let (_, out, _) = cycle(&mut kb, &frame(keys_with(&[T]), true, 0), &strong);
    assert_eq!(out, vec![Output::Accumulate(1)]);
    assert_eq!(kb.cal_samples, 2);
    let (_, out, _) = cycle(&mut kb, &frame(NONE, false, 0), &still());
    assert_eq!(out, vec![Output::Notice(Notice::ConfirmPrompt), Output::FreezeAverage]);
    assert_eq!(kb.phase, Phase::Confirm);
    let near = Motion { strong: false, caps: false, near: true };
    let (_, out, end) = cycle(&mut kb, &frame(NONE, false, 0), &near);
    assert_eq!(out, vec![Output::ReportHit]);
    assert_eq!(end, vec![Output::Led(true)]);
    let (_, out, _) = cycle(&mut kb, &frame(keys_with(&[M]), false, 0), &still());
    assert_eq!(out, vec![Output::Notice(Notice::Accepted), Output::StoreCalibration(0)]);
    assert_eq!(kb.calibrated, 1);
    assert_eq!(kb.phase, Phase::Calibrate);
}

#[test]
fn calibration_can_be_redone() {
    let mut kb = init(&[false; 6]);
    kb.phase = Phase::Confirm;
    let (_, out, _) = cycle(&mut kb, &frame(keys_with(&[P]), false, 0), &still());
    assert_eq!(out, vec![Output::Notice(Notice::Recalibrating)]);
    assert_eq!(kb.phase, Phase::Calibrate);
    assert_eq!(kb.calibrated, 0);
}

#[test]
fn all_calibrated_saves_and_idles() {
    let mut kb = calibrated_keyboard();
    kb.phase = Phase::Calibrate;
    let out = exec(&mut kb, &still());
    assert_eq!(out, vec![Output::Notice(Notice::AllCalibrated), Output::SaveCalibrations]);
    assert_eq!(kb.phase, Phase::Idle);
}

#[test]
fn keyboard_write_maps_each_byte() {
    assert_eq!(keyboard_write("cal"), vec![Output::Type('c'), Output::Type('a'), Output::Type('l')]);
    assert_eq!(keyboard_write("AB?"), vec![Output::Type('a'), Output::Type('n'), Output::Type('{')]);
    assert!(keyboard_write("").is_empty());
}

#[test]
fn notice_texts() {
    assert_eq!(Notice::CalibrateAxis.text(), "Calibrating an axis. Hold T and rotate.\n");
    assert_eq!(Notice::AllCalibrated.text(), "All calibrated! Storing values...\n");
    assert_eq!(Notice::ConfirmPrompt.text(), "Confirm calibration.\nM to confirm, P to cancel\n");
    assert_eq!(Notice::Accepted.text(), "Calibration accepted!\n");
    assert_eq!(Notice::Recalibrating.text(), "Recalibrating...\n");
}

#[test]
fn edges_between_frames() {
    let mut kb = calibrated_keyboard();
    read(&mut kb, &frame(keys_with(&[T, M]), false, 0));
    post(&mut kb);
    read(&mut kb, &frame(keys_with(&[M, P]), false, 0));
    assert!(kb.keyDown(P));
    assert!(!kb.keyDown(M));
    assert!(kb.keyUp(T));
    assert!(!kb.keyUp(M));
    assert!(!kb.keyDown(T) && !kb.keyUp(P));
}

#[test]
fn nothing_typed_before_calibration_done() {
    let mut kb = init(&[true, true, true, true, true, false]);
    for _ in 0..3 {
        let (_, out, _) = cycle(&mut kb, &frame(keys_with(&[T]), true, UNDER as usize), &still());
        assert!(out.iter().all(|o| !matches!(o, Output::Type(_) | Output::Press(_) | Output::Release(_))));
    }
}

#[test]
fn repeated_reads_with_all_keys_recalibrate() {
    let mut kb = calibrated_keyboard();
    let all = [true; 5];
    for _ in 0..3000 {
        let out = read(&mut kb, &frame(all, false, 0));
        assert!(out.is_empty());
        assert_eq!(kb.calibrated, 6);
        assert_eq!(kb.phase, Phase::Idle);
    }
    assert_eq!(kb.trigger_frames, 3000);
    for n in 3001..3004u32 {
        kb.calibrated = 6;
        kb.phase = Phase::Idle;
        let out = read(&mut kb, &frame(all, false, 0));
        assert_eq!(out, vec![Output::Type('c'), Output::Type('a'), Output::Type('l')]);
        assert_eq!(kb.calibrated, 0);
        assert_eq!(kb.phase, Phase::Calibrate);
        assert_eq!(kb.trigger_frames, n);
    }
}

#[test]
fn key_up_restarts_the_count() {
    let mut kb = calibrated_keyboard();
    let all = [true; 5];
    for _ in 0..2999 {
        read(&mut kb, &frame(all, false, 0));
    }
    let out = read(&mut kb, &frame(keys_with(&[T, I, M, R]), false, 0));
    assert!(out.is_empty());
    assert_eq!(kb.trigger_frames, 0);
    for _ in 0..3000 {
        assert!(read(&mut kb, &frame(all, false, 0)).is_empty());
    }
    assert_eq!(kb.phase, Phase::Idle);
    assert_eq!(read(&mut kb, &frame(all, false, 0)).len(), 3);
}
