use lib::peak::{PeakFrame, PeakKeyboard, PeakNotice, PeakOutput, Vi32};
use lib::state::{Phase, M, P, T};
use lib::text::hit_report;

fn keys_with(held: &[usize]) -> [bool; 5] {
    let mut k = [false; 5];
    for &h in held {
        k[h] = true;
    }
    k
}

fn pf(keys: [bool; 5], gyro: [i16; 3], gyro_mag: i32, delta_mag: i32) -> PeakFrame {
    PeakFrame { keys, gyro, gyro_mag, delta_mag }
}

fn quiet(keys: [bool; 5]) -> PeakFrame {
    pf(keys, [0, 0, 0], 0, 5000)
}

#[test]
fn peak_starts_idle_and_zeroed() {
    let kb = PeakKeyboard::new();
    assert_eq!(kb.phase, Phase::Idle);
    assert_eq!(kb.calibrated, 0);
    assert_eq!(kb.max_mag, 0);
    assert_eq!(kb.max_cal, Vi32 { x: 0, y: 0, z: 0 });
    assert_eq!(kb.calibrations, [Vi32 { x: 0, y: 0, z: 0 }; 6]);
    assert!(!kb.led);
}

#[test]
fn peak_walks_into_collection() {
    let mut kb = PeakKeyboard::new();
    let out = kb.frame(&quiet([false; 5]));
    assert_eq!(out, vec![PeakOutput::Led(true)]);
    assert_eq!(kb.phase, Phase::Calibrate);
    let out = kb.frame(&quiet([false; 5]));
    assert_eq!(out, vec![PeakOutput::Notice(PeakNotice::CalibrateAxis), PeakOutput::Led(true)]);
    assert_eq!(kb.phase, Phase::Collect);
}

#[test]
fn peak_keeps_strongest_reading() {
    let mut kb = PeakKeyboard::new();
    kb.phase = Phase::Collect;
    kb.heartbeat = 20;
    let t = keys_with(&[T]);
    kb.frame(&pf(t, [100, -200, 300], 374, 0));
    kb.frame(&pf(t, [900, 0, 0], 900, 0));
    kb.frame(&pf(t, [10, 10, 10], 17, 0));
    assert_eq!(kb.max_mag, 900);
    assert_eq!(kb.max_cal, Vi32 { x: 900, y: 0, z: 0 });
    assert_eq!(kb.phase, Phase::Collect);
    // Readings without the thumb are ignored.
    kb.frame(&pf(keys_with(&[T]), [1, 2, 3], 4, 0));
    let out = kb.frame(&pf([false; 5], [5000, 5000, 5000], 8660, 0));
    assert_eq!(out, vec![PeakOutput::Notice(PeakNotice::ConfirmPrompt), PeakOutput::Led(false)]);
    assert_eq!(kb.max_mag, 900);
    assert_eq!(kb.phase, Phase::Confirm);
}

#[test]
fn peak_confirm_reports_hits_and_accepts() {
    let mut kb = PeakKeyboard::new();
    kb.phase = Phase::Confirm;
    kb.heartbeat = 20;
    kb.max_cal = Vi32 { x: 900, y: -3, z: 2 };
    kb.max_mag = 900;
    let out = kb.frame(&pf([false; 5], [905, 0, 4], 905, 7));
    assert_eq!(out.len(), 2);
    assert_eq!(out[0], PeakOutput::Serial(hit_report(&[905, 0, 4, 900, -3, 2, 7])));
    assert_eq!(out[1], PeakOutput::Led(true));
    let out = kb.frame(&pf(keys_with(&[M]), [0, 0, 0], 0, 2000));
    assert_eq!(out, vec![PeakOutput::Notice(PeakNotice::Accepted), PeakOutput::Led(false)]);
    assert_eq!(kb.calibrated, 1);
    assert_eq!(kb.calibrations[0], Vi32 { x: 900, y: -3, z: 2 });
    assert_eq!(kb.phase, Phase::Calibrate);
}

#[test]
fn peak_confirm_redo_forgets_magnitude() {
    let mut kb = PeakKeyboard::new();
    kb.phase = Phase::Confirm;
    kb.max_mag = 900;
    let out = kb.frame(&pf(keys_with(&[P]), [0, 0, 0], 0, 2000));
    assert_eq!(out, vec![PeakOutput::Notice(PeakNotice::Recalibrating), PeakOutput::Led(true)]);
    assert_eq!(kb.max_mag, 0);
    assert_eq!(kb.phase, Phase::Collect);
}

#[test]
fn peak_all_calibrated_idles() {
    let mut kb = PeakKeyboard::new();
    kb.calibrated = 6;
    kb.phase = Phase::Calibrate;
    let out = kb.frame(&quiet([false; 5]));
    assert_eq!(out, vec![PeakOutput::Notice(PeakNotice::AllCalibrated), PeakOutput::Led(true)]);
    assert_eq!(kb.phase, Phase::Idle);
    kb.frame(&quiet([false; 5]));
    assert_eq!(kb.phase, Phase::Idle);
}

#[test]
fn peak_notice_texts() {
    assert_eq!(PeakNotice::AllCalibrated.text(), "All calibrated!\n");
    assert_eq!(PeakNotice::CalibrateAxis.text(), "Calibrating an axis. Hold T and rotate.\n");
}

#[test]
fn peak_key_edges_and_cache() {
    let mut kb = PeakKeyboard::new();
    kb.frame(&quiet(keys_with(&[M])));
    assert_eq!(kb.key_cache, keys_with(&[M]));
    assert!(!kb.keyDown(M));
    kb.keys = keys_with(&[P]);
    assert!(kb.keyDown(P));
    assert!(kb.keyUp(M));
}
