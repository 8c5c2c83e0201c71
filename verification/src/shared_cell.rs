//! A model of the shared millisecond counter and its critical sections.
//!
//! On the target an access to a 32-bit value is several instructions, so a
//! reader that the timer interrupt preempts between them could assemble a
//! torn value, half old and half new. The counter is therefore shared
//! under a critical-section discipline: both the interrupt's update and
//! the main loop's read run with interrupts disabled, so an interrupt that
//! arrives mid-read is held pending and delivered only after the read
//! completes.
//!
//! `SplitCell` makes the tearing hazard concrete by storing the value in
//! two halves that are read one at a time. `read_unprotected` shows what
//! an undisciplined read returns at each interleaving; `read_in_critical`
//! models the disciplined read, whose result is always the pre-interrupt
//! value and never a mixture.

use vstd::prelude::*;

verus! {

/// Where, relative to one read of the counter, the timer interrupt fires.
#[derive(Clone, Copy, PartialEq, Eq, Structural, Debug)]
pub enum InterruptArrival {
    /// No interrupt during this read.
    Quiet,
    /// The interrupt completes before the read starts.
    BeforeRead,
    /// The interrupt arrives after the low half is read and before the
    /// high half is.
    MidRead,
}

/// The 32-bit value a low and a high half assemble to.
pub open spec fn combined(lo: u16, hi: u16) -> u32 {
    (lo + hi * 0x1_0000) as u32
}

/// A 32-bit counter stored as two halves that are accessed one at a time.
pub struct SplitCell {
    lo: u16,
    hi: u16,
}

impl SplitCell {
    /// The whole value the two halves hold.
    pub closed spec fn value(self) -> u32 {
        combined(self.lo, self.hi)
    }

    pub fn new(v: u32) -> (r: SplitCell)
        ensures
            r.value() == v,
    {
        proof {
            assert(v & 0xFFFF == v % 0x1_0000) by (bit_vector);
            assert(v >> 16 == v / 0x1_0000) by (bit_vector);
            assert(v % 0x1_0000 < 0x1_0000 && v / 0x1_0000 < 0x1_0000);
            assert(v % 0x1_0000 + (v / 0x1_0000) * 0x1_0000 == v) by {
                vstd::arithmetic::div_mod::lemma_fundamental_div_mod(v as int, 0x1_0000);
            };
        }
        let lo: u16 = (v & 0xFFFF) as u16;
        let hi: u16 = (v >> 16) as u16;
        SplitCell { lo, hi }
    }

    /// The interrupt handler's update, which always runs with interrupts
    /// disabled and so is never itself torn: add the increment, wrapping.
    pub fn interrupt_add(&mut self, inc: u32)
        ensures
            final(self).value() == vstd::wrapping::u32_specs::wrapping_add(old(self).value(), inc),
    {
        let v = self.read_whole();
        let next = v.wrapping_add(inc);
        let fresh = SplitCell::new(next);
        self.lo = fresh.lo;
        self.hi = fresh.hi;
    }

    /// Both halves taken with nothing running in between.
    fn read_whole(&self) -> (r: u32)
        ensures
            r == self.value(),
    {
        let lo32: u32 = self.lo as u32;
        let hi32: u32 = self.hi as u32;
        lo32 + hi32 * 0x1_0000
    }

    /// A read with no critical section: the low half, then — if the
    /// interrupt arrives mid-read — the update, then the high half. At
    /// the mid-read interleaving the result mixes the old low half with
    /// the new high half.
    pub fn read_unprotected(&mut self, arrival: InterruptArrival, inc: u32) -> (r: u32)
        ensures
            arrival == InterruptArrival::Quiet ==> (r == old(self).value() && final(self).value()
                == old(self).value()),
            arrival != InterruptArrival::Quiet ==> final(self).value()
                == vstd::wrapping::u32_specs::wrapping_add(old(self).value(), inc),
            arrival == InterruptArrival::BeforeRead ==> r == final(self).value(),
            arrival == InterruptArrival::MidRead ==> r == combined(
                old(self).low_half(),
                final(self).high_half(),
            ),
    {
        if arrival == InterruptArrival::BeforeRead {
            self.interrupt_add(inc);
        }
        let lo32: u32 = self.lo as u32;
        if arrival == InterruptArrival::MidRead {
            self.interrupt_add(inc);
        }
        let hi32: u32 = self.hi as u32;
        lo32 + hi32 * 0x1_0000
    }

    /// The disciplined read: interrupts are disabled around both halves,
    /// so an interrupt arriving anywhere in the window is delivered only
    /// once the read is complete. The result is always a whole value —
    /// the pre-interrupt counter — never a mixture.
    pub fn read_in_critical(&mut self, arrival: InterruptArrival, inc: u32) -> (r: u32)
        ensures
            arrival == InterruptArrival::BeforeRead ==> r
                == vstd::wrapping::u32_specs::wrapping_add(old(self).value(), inc),
            arrival != InterruptArrival::BeforeRead ==> r == old(self).value(),
            arrival == InterruptArrival::Quiet ==> final(self).value() == old(self).value(),
            arrival != InterruptArrival::Quiet ==> final(self).value()
                == vstd::wrapping::u32_specs::wrapping_add(old(self).value(), inc),
            r == old(self).value() || r == vstd::wrapping::u32_specs::wrapping_add(
                old(self).value(),
                inc,
            ),
    {
        if arrival == InterruptArrival::BeforeRead {
            self.interrupt_add(inc);
        }
        let r = self.read_whole();
        if arrival == InterruptArrival::MidRead {
            self.interrupt_add(inc);
        }
        r
    }

    pub closed spec fn low_half(self) -> u16 {
        self.lo
    }

    pub closed spec fn high_half(self) -> u16 {
        self.hi
    }
}

} // verus!
