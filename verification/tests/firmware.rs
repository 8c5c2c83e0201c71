use rotary_encoder::clock::{
    millis_increment_for, prescale_select, MillisClock, PrescaleSelect, CLOCK_KHZ,
    MILLIS_INCREMENT, PRESCALER, TIMER_COUNTS,
};
use rotary_encoder::encoder::{classify, Action, EncoderState, PhasePair};
use rotary_encoder::loop_iteration;
use rotary_encoder::report::{greeting, report_line, should_report};
use rotary_encoder::shared_cell::{InterruptArrival, SplitCell};

fn pair(a: bool, b: bool) -> PhasePair {
    PhasePair { a, b }
}

#[test]
fn reference_configuration_increment() {
    assert_eq!(PRESCALER, 1024);
    assert_eq!(TIMER_COUNTS, 125);
    assert_eq!(CLOCK_KHZ, 16000);
    assert_eq!(MILLIS_INCREMENT, 8);
    assert_eq!(
        millis_increment_for(PRESCALER, TIMER_COUNTS, CLOCK_KHZ),
        Some(MILLIS_INCREMENT)
    );
}

#[test]
fn increment_formula_rejects_inexact_configuration() {
    // 8 * 125 = 1000, not a multiple of 16000: no exact integer increment.
    assert_eq!(millis_increment_for(8, 125, 16000), None);
    // 256 * 125 = 32000 over 16000 kHz is exactly 2.
    assert_eq!(millis_increment_for(256, 125, 16000), Some(2));
}

#[test]
fn increment_formula_rejects_oversized_result() {
    assert_eq!(
        millis_increment_for(u32::MAX, u32::MAX, 1),
        None,
        "a quotient beyond the counter width is a configuration defect"
    );
}

#[test]
fn supported_prescalers_select_their_bits() {
    assert_eq!(prescale_select(8), Some(PrescaleSelect::Divide8));
    assert_eq!(prescale_select(64), Some(PrescaleSelect::Divide64));
    assert_eq!(prescale_select(256), Some(PrescaleSelect::Divide256));
    assert_eq!(prescale_select(1024), Some(PrescaleSelect::Divide1024));
}

#[test]
fn unsupported_prescaler_is_fatal_configuration_error() {
    assert_eq!(prescale_select(0), None);
    assert_eq!(prescale_select(1), None);
    assert_eq!(prescale_select(128), None);
    assert_eq!(prescale_select(2048), None);
}

#[test]
fn millis_counts_increment_per_interrupt() {
    let mut c = MillisClock::new();
    assert_eq!(c.now_millis(), 0);
    for k in 1u32..=25 {
        c.tick();
        assert_eq!(c.now_millis(), k * MILLIS_INCREMENT);
    }
}

#[test]
fn decrement_fires_exactly_once_at_final_sample() {
    // Feed (F,F) -> (F,T) -> (F,F) -> (T,F): the counter must decrement
    // exactly once, at the last sample, with the history shifting only on
    // actual phase changes.
    let mut s = EncoderState::new();
    s.step(true, pair(false, false));
    assert_eq!(s.position, 0);
    s.step(true, pair(false, true));
    assert_eq!(s.position, 0);
    s.step(true, pair(false, false));
    assert_eq!(s.position, 0);
    s.step(true, pair(true, false));
    assert_eq!(s.position, -1);
}

#[test]
fn increment_fires_exactly_once_at_final_sample() {
    // The mirrored feed (F,F) -> (T,F) -> (F,F) -> (F,T) increments once.
    let mut s = EncoderState::new();
    s.step(true, pair(false, false));
    s.step(true, pair(true, false));
    s.step(true, pair(false, false));
    assert_eq!(s.position, 0);
    s.step(true, pair(false, true));
    assert_eq!(s.position, 1);
}

#[test]
fn classify_accepts_only_the_two_sequences() {
    assert_eq!(
        classify(pair(true, false), pair(false, false), pair(false, true)),
        Action::Decrement
    );
    assert_eq!(
        classify(pair(false, true), pair(false, false), pair(true, false)),
        Action::Increment
    );
    // Every other window leaves the position alone; sample a few.
    assert_eq!(
        classify(pair(true, false), pair(false, false), pair(true, false)),
        Action::NoChange
    );
    assert_eq!(
        classify(pair(true, true), pair(false, false), pair(false, true)),
        Action::NoChange
    );
    assert_eq!(
        classify(pair(false, false), pair(false, false), pair(false, true)),
        Action::NoChange
    );
    assert_eq!(
        classify(pair(true, false), pair(false, true), pair(false, true)),
        Action::NoChange
    );
}

#[test]
fn every_other_window_leaves_position_unchanged() {
    // Exhaust all 64 three-sample windows: only the two accepted ones move
    // the position, and by exactly one.
    let booleans = [false, true];
    for &ca in &booleans {
        for &cb in &booleans {
            for &oa in &booleans {
                for &ob in &booleans {
                    for &ta in &booleans {
                        for &tb in &booleans {
                            let action = classify(
                                pair(ca, cb),
                                pair(oa, ob),
                                pair(ta, tb),
                            );
                            let decrement =
                                ca && !cb && !oa && !ob && !ta && tb;
                            let increment =
                                !ca && cb && !oa && !ob && ta && !tb;
                            if decrement {
                                assert_eq!(action, Action::Decrement);
                            } else if increment {
                                assert_eq!(action, Action::Increment);
                            } else {
                                assert_eq!(action, Action::NoChange);
                            }
                        }
                    }
                }
            }
        }
    }
}

#[test]
fn button_not_high_resets_position_same_iteration() {
    let mut s = EncoderState::new();
    s.step(true, pair(false, false));
    s.step(true, pair(true, false));
    s.step(true, pair(false, false));
    s.step(true, pair(false, true));
    assert_eq!(s.position, 1);
    // A button line that does not read high zeroes the position on that
    // very pass.
    s.step(false, pair(false, true));
    assert_eq!(s.position, 0);
}

#[test]
fn button_reset_overrides_concurrent_decode() {
    // The final sample both completes an increment sequence and arrives
    // with the button line low: the reset wins over the decode.
    let mut s = EncoderState::new();
    s.step(true, pair(false, false));
    s.step(true, pair(true, false));
    s.step(true, pair(false, false));
    s.step(false, pair(false, true));
    assert_eq!(s.position, 0);
}

#[test]
fn repeated_identical_samples_change_nothing() {
    let mut s = EncoderState::new();
    s.step(true, pair(false, false));
    s.step(true, pair(false, true));
    let position = s.position;
    let one_back = s.one_back;
    let two_back = s.two_back;
    for _ in 0..100 {
        s.step(true, pair(false, true));
        assert_eq!(s.position, position);
        assert_eq!(s.one_back, one_back);
        assert_eq!(s.two_back, two_back);
    }
}

#[test]
fn history_shifts_only_on_change() {
    let mut s = EncoderState::new();
    assert_eq!(s.one_back, pair(true, true));
    assert_eq!(s.two_back, pair(true, true));
    s.step(true, pair(false, true));
    assert_eq!(s.one_back, pair(false, true));
    assert_eq!(s.two_back, pair(true, true));
    s.step(true, pair(false, true));
    assert_eq!(s.one_back, pair(false, true));
    assert_eq!(s.two_back, pair(true, true));
    s.step(true, pair(false, false));
    assert_eq!(s.one_back, pair(false, false));
    assert_eq!(s.two_back, pair(false, true));
}

#[test]
fn report_gate_fires_on_exact_multiples_only() {
    for now in 0u32..100 {
        assert_eq!(should_report(now), now % 10 == 0);
    }
    assert!(should_report(0));
    assert!(should_report(4_294_967_290));
    assert!(!should_report(4_294_967_295));
}

#[test]
fn loop_iteration_reports_on_gate_only() {
    let mut s = EncoderState::new();
    let out = loop_iteration(&mut s, true, pair(true, true), 7);
    assert!(out.is_none());
    let out = loop_iteration(&mut s, true, pair(true, true), 20);
    assert_eq!(out, Some(report_line(0)));
}

#[test]
fn loop_iteration_reports_the_fresh_position() {
    let mut s = EncoderState::new();
    loop_iteration(&mut s, true, pair(false, false), 1);
    loop_iteration(&mut s, true, pair(false, true), 2);
    loop_iteration(&mut s, true, pair(false, false), 3);
    let out = loop_iteration(&mut s, true, pair(true, false), 10);
    assert_eq!(s.position, -1);
    assert_eq!(out, Some(report_line(-1)));
}

#[test]
fn report_line_blanks_then_overwrites_in_place() {
    let line = report_line(42);
    let mut expected: Vec<u8> = Vec::new();
    expected.extend_from_slice(b"                            \r");
    expected.extend_from_slice(b"counter: 42\r");
    assert_eq!(line, expected);
    assert_eq!(expected.len(), 28 + 1 + 9 + 2 + 1);
}

#[test]
fn report_line_renders_signed_extremes() {
    assert_eq!(
        &report_line(0)[29..],
        b"counter: 0\r" as &[u8]
    );
    assert_eq!(
        &report_line(-17)[29..],
        b"counter: -17\r" as &[u8]
    );
    assert_eq!(
        &report_line(i32::MAX)[29..],
        b"counter: 2147483647\r" as &[u8]
    );
    assert_eq!(
        &report_line(i32::MIN)[29..],
        b"counter: -2147483648\r" as &[u8]
    );
}

#[test]
fn greeting_line_bytes() {
    assert_eq!(greeting(), b"Hello from Arduino!\r\n".to_vec());
}

#[test]
fn interrupt_mid_read_is_never_torn_in_critical_section() {
    // Pre-interrupt value 0x0000_FFFF; the increment carries into the high
    // half, so a torn read would be visible.
    for arrival in [
        InterruptArrival::Quiet,
        InterruptArrival::BeforeRead,
        InterruptArrival::MidRead,
    ] {
        let mut cell = SplitCell::new(0x0000_FFFF);
        let seen = cell.read_in_critical(arrival, 8);
        assert!(
            seen == 0x0000_FFFF || seen == 0x0001_0007,
            "read a value that is neither pre- nor post-increment"
        );
    }
}

#[test]
fn interrupt_mid_read_tears_an_unprotected_read() {
    // The same interleaving without the critical section mixes the stale
    // low half with the fresh high half.
    let mut cell = SplitCell::new(0x0000_FFFF);
    let seen = cell.read_unprotected(InterruptArrival::MidRead, 8);
    assert_eq!(seen, 0x0001_FFFF);
    assert!(seen != 0x0000_FFFF && seen != 0x0001_0007);
}

#[test]
fn millisecond_counter_wraps_silently() {
    let mut cell = SplitCell::new(u32::MAX - 3);
    cell.interrupt_add(8);
    let seen = cell.read_in_critical(InterruptArrival::Quiet, 8);
    assert_eq!(seen, 4);
}
