//! The software millisecond clock.
//!
//! A hardware timer runs in clear-on-compare-match mode; each compare-match
//! interrupt adds a fixed increment to a shared counter. `MillisClock`
//! models that counter: `tick` is the interrupt handler's whole effect, and
//! `now_millis` is the read the main loop performs. The counter wraps
//! silently on overflow; callers treat it as a ring value.

use vstd::prelude::*;

verus! {

/// Timer clock divisor configured at initialization.
pub const PRESCALER: u32 = 1024;

/// Compare value at which the timer resets and fires its interrupt.
pub const TIMER_COUNTS: u32 = 125;

/// System clock frequency in kHz.
pub const CLOCK_KHZ: u32 = 16000;

/// Milliseconds accumulated per compare-match interrupt.
pub const MILLIS_INCREMENT: u32 = PRESCALER * TIMER_COUNTS / CLOCK_KHZ;

/// The counter value after `k` compare-match interrupts, starting from zero.
pub open spec fn millis_after(k: nat) -> u32
    decreases k,
{
    if k == 0 {
        0u32
    } else {
        vstd::wrapping::u32_specs::wrapping_add(millis_after((k - 1) as nat), MILLIS_INCREMENT)
    }
}

/// The free-running millisecond counter, with a ghost record of how many
/// interrupts have updated it.
pub struct MillisClock {
    millis: u32,
    ticks: Ghost<nat>,
}

impl MillisClock {
    /// The counter always equals the value reached by `ticks` interrupts.
    pub closed spec fn wf(self) -> bool {
        self.millis == millis_after(self.ticks@)
    }

    pub closed spec fn spec_millis(self) -> u32 {
        self.millis
    }

    pub closed spec fn spec_ticks(self) -> nat {
        self.ticks@
    }

    /// Counter initialization: zero, no interrupts seen yet.
    pub fn new() -> (r: MillisClock)
        ensures
            r.wf(),
            r.spec_millis() == 0,
            r.spec_ticks() == 0,
    {
        MillisClock { millis: 0, ticks: Ghost(0) }
    }

    /// The compare-match interrupt handler's effect: add the fixed
    /// increment, wrapping silently on overflow.
    pub fn tick(&mut self)
        requires
            old(self).wf(),
        ensures
            final(self).wf(),
            final(self).spec_millis() == vstd::wrapping::u32_specs::wrapping_add(
                old(self).spec_millis(),
                MILLIS_INCREMENT,
            ),
            final(self).spec_ticks() == old(self).spec_ticks() + 1,
    {
        self.millis = self.millis.wrapping_add(MILLIS_INCREMENT);
        proof {
            self.ticks@ = self.ticks@ + 1;
        }
    }

    /// The read accessor: the current counter value.
    pub fn now_millis(&self) -> (r: u32)
        ensures
            r == self.spec_millis(),
    {
        self.millis
    }
}

/// The clock-select settings the timer prescaler hardware supports for
/// this mode, one per accepted divisor.
#[derive(Clone, Copy, PartialEq, Eq, Structural, Debug)]
pub enum PrescaleSelect {
    Divide8,
    Divide64,
    Divide256,
    Divide1024,
}

/// Which divisors the timer supports.
pub open spec fn prescaler_supported(p: u32) -> bool {
    p == 8 || p == 64 || p == 256 || p == 1024
}

/// The clock-select setting for a divisor, or `None` for an unsupported
/// one: initialization treats `None` as a fatal configuration error.
pub fn prescale_select(p: u32) -> (r: Option<PrescaleSelect>)
    ensures
        r is Some <==> prescaler_supported(p),
        p == 8 ==> r == Some(PrescaleSelect::Divide8),
        p == 64 ==> r == Some(PrescaleSelect::Divide64),
        p == 256 ==> r == Some(PrescaleSelect::Divide256),
        p == 1024 ==> r == Some(PrescaleSelect::Divide1024),
{
    if p == 8 {
        Some(PrescaleSelect::Divide8)
    } else if p == 64 {
        Some(PrescaleSelect::Divide64)
    } else if p == 256 {
        Some(PrescaleSelect::Divide256)
    } else if p == 1024 {
        Some(PrescaleSelect::Divide1024)
    } else {
        None
    }
}

/// The per-interrupt increment for a timer configuration:
/// `prescaler * timer_counts / clock_khz`, demanded to be exact. A
/// configuration whose increment is not an exact integer is a design-time
/// defect and is rejected.
pub fn millis_increment_for(prescaler: u32, timer_counts: u32, clock_khz: u32) -> (r: Option<
    u32,
>)
    requires
        clock_khz > 0,
    ensures
        r is Some <==> ((prescaler * timer_counts) % (clock_khz as int) == 0 && prescaler
            * timer_counts / (clock_khz as int) <= u32::MAX),
        r is Some ==> r->0 == prescaler * timer_counts / (clock_khz as int),
{
    proof {
        assert((prescaler as u64) * (timer_counts as u64) <= 0xFFFF_FFFFu64 * 0xFFFF_FFFFu64)
            by (nonlinear_arith)
            requires
                prescaler <= 0xFFFF_FFFFu64 && timer_counts <= 0xFFFF_FFFFu64,
        ;
    }
    let product: u64 = (prescaler as u64) * (timer_counts as u64);
    if product % (clock_khz as u64) == 0 && product / (clock_khz as u64) <= 0xFFFF_FFFF {
        Some((product / (clock_khz as u64)) as u32)
    } else {
        None
    }
}

/// After exactly `k` interrupts the counter is `k * MILLIS_INCREMENT`,
/// reduced modulo the representation width.
pub proof fn lemma_millis_after_k_ticks(k: nat)
    ensures
        millis_after(k) == (k * MILLIS_INCREMENT) % 0x1_0000_0000,
    decreases k,
{
    if k == 0 {
    } else {
        let m: int = 0x1_0000_0000;
        let j = (k - 1) as nat;
        lemma_millis_after_k_ticks(j);
        let a: int = millis_after(j) as int;
        assert(a == (j * MILLIS_INCREMENT) % m);
        assert(0 <= a < m);
        assert(millis_after(k) == vstd::wrapping::u32_specs::wrapping_add(
            millis_after(j),
            MILLIS_INCREMENT,
        ));
        if a + MILLIS_INCREMENT < m {
            vstd::arithmetic::div_mod::lemma_small_mod(
                (a + MILLIS_INCREMENT) as nat,
                0x1_0000_0000nat,
            );
        } else {
            vstd::arithmetic::div_mod::lemma_mod_sub_multiples_vanish(a + MILLIS_INCREMENT, m);
            vstd::arithmetic::div_mod::lemma_small_mod(
                (a + MILLIS_INCREMENT - m) as nat,
                0x1_0000_0000nat,
            );
        }
        assert(millis_after(k) == (a + MILLIS_INCREMENT) % m);
        assert(j * MILLIS_INCREMENT >= 0) by (nonlinear_arith);
        vstd::arithmetic::div_mod::lemma_add_mod_noop(
            j * MILLIS_INCREMENT,
            MILLIS_INCREMENT as int,
            m,
        );
        assert(((j * MILLIS_INCREMENT) % m + (MILLIS_INCREMENT as int) % m) % m == (j
            * MILLIS_INCREMENT + MILLIS_INCREMENT) % m);
        assert((MILLIS_INCREMENT as int) % m == MILLIS_INCREMENT as int);
        assert(a % m == a) by {
            vstd::arithmetic::div_mod::lemma_small_mod(a as nat, 0x1_0000_0000nat);
        };
        assert((a + MILLIS_INCREMENT) % m == (j * MILLIS_INCREMENT + MILLIS_INCREMENT) % m);
        vstd::arithmetic::mul::lemma_mul_is_distributive_add(MILLIS_INCREMENT as int, j as int, 1);
        vstd::arithmetic::mul::lemma_mul_is_commutative(MILLIS_INCREMENT as int, j as int);
        vstd::arithmetic::mul::lemma_mul_is_commutative(MILLIS_INCREMENT as int, k as int);
        assert(j * MILLIS_INCREMENT + MILLIS_INCREMENT == k * MILLIS_INCREMENT);
    }
}

/// A clock in its invariant state carries `ticks * MILLIS_INCREMENT`
/// modulo the representation width.
pub proof fn lemma_clock_counts_ticks(c: MillisClock)
    requires
        c.wf(),
    ensures
        c.spec_millis() == (c.spec_ticks() * MILLIS_INCREMENT) % 0x1_0000_0000,
{
    lemma_millis_after_k_ticks(c.spec_ticks());
}

} // verus!
