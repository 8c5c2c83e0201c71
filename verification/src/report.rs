//! The clock-gated serial report.
//!
//! Every iteration whose millisecond reading is an exact multiple of the
//! reporting interval emits one status line. The line starts with a
//! fixed-width run of blanks and a carriage return so that it overwrites
//! the previous line in place and a shorter number leaves no stale
//! trailing digits, then the label, the signed position in decimal, and a
//! final carriage return.

use vstd::prelude::*;

verus! {

/// How often, in elapsed clock milliseconds, the position is reported.
pub const REPORT_INTERVAL_MS: u32 = 10;

/// Width of the blanking run that erases the previous line.
pub const BLANK_WIDTH: usize = 28;

/// Whether an iteration that reads `now` from the clock emits a report.
pub open spec fn report_due(now: u32) -> bool {
    now % REPORT_INTERVAL_MS == 0
}

/// The reporting gate: emit exactly when the millisecond reading is an
/// exact multiple of the interval, never otherwise.
pub fn should_report(now: u32) -> (r: bool)
    ensures
        r == report_due(now),
{
    now % REPORT_INTERVAL_MS == 0
}

/// The decimal digits of `n`, most significant first, as ASCII bytes.
pub open spec fn dec_digits(n: nat) -> Seq<u8>
    decreases n,
{
    if n < 10 {
        seq![(48 + n) as u8]
    } else {
        dec_digits(n / 10).push((48 + n % 10) as u8)
    }
}

/// The ASCII decimal rendering of a signed value: a minus sign before the
/// digits of the magnitude when negative.
pub open spec fn dec_signed(v: int) -> Seq<u8> {
    if v < 0 {
        seq![45u8].add(dec_digits((-v) as nat))
    } else {
        dec_digits(v as nat)
    }
}

/// Append the decimal digits of `n` to `out`, most significant first.
fn push_dec_digits(out: &mut Vec<u8>, n: u32)
    ensures
        final(out)@ == old(out)@.add(dec_digits(n as nat)),
    decreases n,
{
    if n >= 10 {
        push_dec_digits(out, n / 10);
        let d: u8 = 48 + ((n % 10) as u8);
        out.push(d);
        proof {
            assert(final(out)@ == old(out)@.add(dec_digits(n as nat / 10)).push(
                (48 + n as nat % 10) as u8,
            ));
            assert(old(out)@.add(dec_digits(n as nat / 10)).push((48 + n as nat % 10) as u8)
                =~= old(out)@.add(dec_digits(n as nat)));
        }
    } else {
        let d: u8 = 48 + (n as u8);
        out.push(d);
        proof {
            assert(old(out)@.push((48 + n as nat) as u8) =~= old(out)@.add(dec_digits(n as nat)));
        }
    }
}

/// Append the decimal rendering of signed `v` to `out`.
fn push_dec_signed(out: &mut Vec<u8>, v: i32)
    ensures
        final(out)@ == old(out)@.add(dec_signed(v as int)),
{
    if v < 0 {
        out.push(45);
        let mag: u32 = ((-(v as i64)) as u32);
        push_dec_digits(out, mag);
        proof {
            assert(old(out)@.push(45u8).add(dec_digits(mag as nat)) =~= old(out)@.add(
                dec_signed(v as int),
            ));
        }
    } else {
        push_dec_digits(out, v as u32);
    }
}

/// The bytes of one status line for position `v`: the blanking run, a
/// carriage return, the label, the decimal position, a carriage return.
pub open spec fn report_line_spec(v: int) -> Seq<u8> {
    Seq::new(BLANK_WIDTH as nat, |i: int| 32u8).push(13u8).add(label_bytes()).add(
        dec_signed(v),
    ).push(13u8)
}

/// The ASCII bytes of `counter: `.
pub open spec fn label_bytes() -> Seq<u8> {
    seq![99u8, 111u8, 117u8, 110u8, 116u8, 101u8, 114u8, 58u8, 32u8]
}

/// Render the status line the serial port sends for position `v`.
pub fn report_line(v: i32) -> (r: Vec<u8>)
    ensures
        r@ == report_line_spec(v as int),
{
    let mut out: Vec<u8> = Vec::new();
    let mut i: usize = 0;
    while i < BLANK_WIDTH
        invariant
            i <= BLANK_WIDTH,
            out@ =~= Seq::new(i as nat, |j: int| 32u8),
        decreases BLANK_WIDTH - i,
    {
        out.push(32);
        i = i + 1;
    }
    out.push(13);
    out.push(99);
    out.push(111);
    out.push(117);
    out.push(110);
    out.push(116);
    out.push(101);
    out.push(114);
    out.push(58);
    out.push(32);
    let ghost prefix = out@;
    proof {
        assert(prefix =~= Seq::new(BLANK_WIDTH as nat, |j: int| 32u8).push(13u8).add(
            label_bytes(),
        ));
    }
    push_dec_signed(&mut out, v);
    out.push(13);
    proof {
        assert(out@ =~= report_line_spec(v as int));
    }
    out
}

/// The one-time startup greeting, `Hello from Arduino!` with a carriage
/// return and line feed.
pub open spec fn greeting_bytes() -> Seq<u8> {
    seq![
        72u8, 101u8, 108u8, 108u8, 111u8, 32u8, 102u8, 114u8, 111u8, 109u8, 32u8, 65u8, 114u8,
        100u8, 117u8, 105u8, 110u8, 111u8, 33u8, 13u8, 10u8,
    ]
}

/// Render the startup greeting line.
pub fn greeting() -> (r: Vec<u8>)
    ensures
        r@ == greeting_bytes(),
{
    let mut out: Vec<u8> = Vec::new();
    out.push(72);
    out.push(101);
    out.push(108);
    out.push(108);
    out.push(111);
    out.push(32);
    out.push(102);
    out.push(114);
    out.push(111);
    out.push(109);
    out.push(32);
    out.push(65);
    out.push(114);
    out.push(100);
    out.push(117);
    out.push(105);
    out.push(110);
    out.push(111);
    out.push(33);
    out.push(13);
    out.push(10);
    proof {
        assert(out@ =~= greeting_bytes());
    }
    out
}

} // verus!
