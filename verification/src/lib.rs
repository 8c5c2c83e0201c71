//! Quadrature rotary encoder firmware logic.
//!
//! The device side of this crate is a single control loop on a
//! microcontroller: a hardware timer interrupt maintains a millisecond
//! clock, and the main loop polls two quadrature phase lines and a
//! push-button, decodes rotation direction from a two-deep phase history,
//! and periodically reports a signed position counter over serial.
//!
//! Everything the loop decides or computes lives here, verified; the
//! hardware layer (GPIO sampling, timer registers, the serial port) hands
//! these functions plain values and carries their results out.

use vstd::prelude::*;

pub mod clock;
pub mod encoder;
pub mod report;
pub mod shared_cell;

verus! {

/// One full pass of the main loop over fresh input samples: decode the
/// quadrature window, zero the position if the button line does not read
/// high, shift the history on a changed sample, then consult the clock
/// reading — a report line comes back exactly when the reading is a
/// multiple of the reporting interval, and it carries the position as this
/// same pass left it.
pub fn loop_iteration(
    s: &mut encoder::EncoderState,
    button_high: bool,
    cur: encoder::PhasePair,
    now: u32,
) -> (r: Option<Vec<u8>>)
    ensures
        *final(s) == encoder::step_spec(*old(s), button_high, cur),
        r is Some <==> report::report_due(now),
        r is Some ==> r->0@ == report::report_line_spec(
            encoder::step_spec(*old(s), button_high, cur).position as int,
        ),
{
    s.step(button_high, cur);
    if report::should_report(now) {
        Some(report::report_line(s.position))
    } else {
        None
    }
}

} // verus!
