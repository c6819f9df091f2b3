use vendctl::motor::{PERIOD_MULTIPLIER, RESET_HOLD_NS, SETTLE_NS, STEP_DWELL_NS};
use vendctl::{Dir, Driver, DriverArray, Signal};

fn pulses_in(signals: &[Signal]) -> usize {
    signals.iter().filter(|s| **s == Signal::Step(true)).count()
}

fn resets_in(signals: &[Signal]) -> usize {
    signals.iter().filter(|s| **s == Signal::Reset(false)).count()
}

fn fresh(channels: usize) -> DriverArray {
    let mut m = DriverArray::new(channels);
    m.take_signals();
    m
}

#[test]
fn stopped_is_only_stop() {
    assert!(Dir::Stop.stopped());
    assert!(!Dir::CW.stopped());
    assert!(!Dir::CCW.stopped());
}

#[test]
fn new_array_sleeps_at_phase_one() {
    let mut m = DriverArray::new(3);
    assert_eq!(m.len(), 3);
    assert_eq!(m.phase(), 1);
    assert_eq!(m.speed(), 255);
    assert_eq!(m.dirs(), (Dir::CW, Dir::CW));
    for i in 0..3 {
        assert!(m.is_slept(i));
    }
    assert_eq!(m.take_signals(), vec![Signal::Duty(255 * PERIOD_MULTIPLIER)]);
    assert!(m.take_signals().is_empty());
}

#[test]
fn new_driver_is_awake() {
    assert!(!Driver::new().slept);
}

#[test]
fn dir_cw_stop_from_phase_one_walks_seven() {
    let mut m = fresh(1);
    m.dir(Dir::CW, Dir::Stop);
    let s = m.take_signals();
    assert_eq!(pulses_in(&s), 7);
    assert_eq!(s.len(), 28);
    assert_eq!(m.phase(), 0);
    assert_eq!(m.dirs(), (Dir::CW, Dir::Stop));
}

#[test]
fn dir_table_sequence() {
    let mut m = fresh(1);
    let cases = [
        (Dir::CW, Dir::CW, 1u8),
        (Dir::Stop, Dir::CW, 2),
        (Dir::CCW, Dir::CW, 3),
        (Dir::CCW, Dir::Stop, 4),
        (Dir::CCW, Dir::CCW, 5),
        (Dir::Stop, Dir::CCW, 6),
        (Dir::CW, Dir::CCW, 7),
        (Dir::CW, Dir::Stop, 0),
        (Dir::CCW, Dir::CW, 3),
        (Dir::CW, Dir::CW, 1),
    ];
    let mut phase = m.phase();
    for (a, b, want) in cases {
        m.dir(a, b);
        let d = if want < phase { want + 8 - phase } else { want - phase };
        assert_eq!(m.phase(), want);
        assert_eq!(pulses_in(&m.take_signals()), d as usize);
        phase = want;
    }
}

#[test]
fn dir_both_stop_keeps_phase_and_cuts_drive() {
    let mut m = fresh(1);
    m.dir(Dir::CCW, Dir::CCW);
    m.take_signals();
    m.dir(Dir::Stop, Dir::Stop);
    assert_eq!(m.phase(), 5);
    assert_eq!(m.take_signals(), vec![Signal::Duty(255 * PERIOD_MULTIPLIER)]);
}

#[test]
fn dir_a_and_dir_b_keep_the_other_axis() {
    let mut m = fresh(1);
    m.dir_b(Dir::CCW);
    assert_eq!(m.dirs(), (Dir::CW, Dir::CCW));
    assert_eq!(m.phase(), 7);
    m.dir_a(Dir::Stop);
    assert_eq!(m.dirs(), (Dir::Stop, Dir::CCW));
    assert_eq!(m.phase(), 6);
    assert_eq!(pulses_in(&m.take_signals()), 6 + 7);
}

#[test]
fn step_advances_modulo_cycle() {
    for start in 0..8u8 {
        for n in [0u8, 1, 7, 8, 9, 255] {
            let mut m = fresh(1);
            m.step_to(start);
            m.take_signals();
            m.step(n);
            assert_eq!(m.phase(), ((start as u32 + n as u32) % 8) as u8);
            assert_eq!(pulses_in(&m.take_signals()), n as usize);
        }
    }
}

#[test]
fn one_pulse_shape() {
    let mut m = fresh(1);
    m.step(1);
    assert_eq!(
        m.take_signals(),
        vec![
            Signal::Step(false),
            Signal::Wait(STEP_DWELL_NS),
            Signal::Step(true),
            Signal::Wait(STEP_DWELL_NS),
        ]
    );
}

#[test]
fn step_to_same_phase_emits_nothing() {
    let mut m = fresh(1);
    m.step_to(1);
    assert!(m.take_signals().is_empty());
    m.step_to(0);
    assert_eq!(pulses_in(&m.take_signals()), 7);
}

#[test]
fn run_updates_duty_only_while_moving() {
    let mut m = fresh(1);
    m.run(200);
    assert_eq!(m.speed(), 200);
    assert_eq!(m.take_signals(), vec![Signal::Duty(55 * PERIOD_MULTIPLIER)]);
    m.dir(Dir::Stop, Dir::Stop);
    m.take_signals();
    m.run(100);
    assert_eq!(m.speed(), 100);
    assert!(m.take_signals().is_empty());
    m.dir(Dir::CW, Dir::Stop);
    m.take_signals();
    m.stop();
    assert_eq!(m.speed(), 0);
    assert_eq!(m.take_signals(), vec![Signal::Duty(7650)]);
}

#[test]
fn reset_returns_to_phase_one_cw() {
    let mut m = fresh(1);
    m.dir(Dir::CCW, Dir::CCW);
    m.take_signals();
    m.reset();
    assert_eq!(m.phase(), 1);
    assert_eq!(m.dirs(), (Dir::CW, Dir::CW));
    assert_eq!(
        m.take_signals(),
        vec![Signal::Reset(false), Signal::Wait(RESET_HOLD_NS), Signal::Reset(true)]
    );
}

#[test]
fn restep_replays_the_phase() {
    let mut m = fresh(1);
    m.dir(Dir::Stop, Dir::CCW);
    m.take_signals();
    m.restep();
    assert_eq!(m.phase(), 6);
    assert_eq!(m.dirs(), (Dir::Stop, Dir::CCW));
    let s = m.take_signals();
    assert_eq!(&s[..3], &[Signal::Reset(false), Signal::Wait(RESET_HOLD_NS), Signal::Reset(true)]);
    assert_eq!(pulses_in(&s), 5);
}

#[test]
fn sleep_twice_resyncs_once() {
    let mut m = fresh(3);
    m.sleep(0, false);
    let s = m.take_signals();
    assert_eq!(&s[..2], &[Signal::Sleep(0, true), Signal::Wait(SETTLE_NS)]);
    assert_eq!(resets_in(&s), 1);
    assert!(!m.is_slept(0));
    m.sleep(0, false);
    assert!(m.take_signals().is_empty());
    assert!(!m.is_slept(0));
    assert!(m.is_slept(1));
}

#[test]
fn sleep_to_current_state_is_noop() {
    let mut m = fresh(2);
    m.sleep(1, true);
    assert!(m.take_signals().is_empty());
    assert_eq!(m.phase(), 1);
}

#[test]
fn sleep_resync_reaches_last_phase() {
    let mut m = fresh(2);
    m.dir(Dir::CCW, Dir::Stop);
    m.take_signals();
    m.sleep(1, false);
    let s = m.take_signals();
    assert_eq!(resets_in(&s), 1);
    assert_eq!(pulses_in(&s), 3);
    assert_eq!(m.phase(), 4);
}

#[test]
fn sleep_arr_batches_resync() {
    let mut m = fresh(3);
    m.sleep_arr(&[false, true, false]);
    let s = m.take_signals();
    assert_eq!(
        &s[..3],
        &[Signal::Sleep(0, true), Signal::Sleep(2, true), Signal::Wait(SETTLE_NS)]
    );
    assert_eq!(resets_in(&s), 1);
    assert!(!m.is_slept(0));
    assert!(m.is_slept(1));
    assert!(!m.is_slept(2));
    m.sleep_arr(&[false, true, false]);
    assert!(m.take_signals().is_empty());
}
