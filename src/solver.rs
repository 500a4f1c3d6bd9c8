use vstd::prelude::*;

verus! {

/// Largest value that fits in a 16-bit counter register, plus one.
pub const COUNTER_SPAN_16: u32 = 65536;

/// Number of input-clock ticks in one period at `freq` Hz.
pub open spec fn ticks_of(freq: u32, clock: u32) -> int {
    clock as int / freq as int
}

/// The smallest prescaler whose reload value fits in 16 bits.
pub open spec fn min_prescaler(ticks: int) -> int {
    (ticks - 1) / 65536
}

/// Reload value that goes with prescaler `psc` for `ticks` ticks.
pub open spec fn reload_for(ticks: int, psc: int) -> int {
    ticks / (psc + 1) - 1
}

/// A frequency request a 16-bit general-purpose timer can serve.
pub open spec fn valid_request(freq: u32, clock: u32) -> bool {
    freq > 0 && ticks_of(freq, clock) >= 1
}

/// Computes the (prescaler, auto-reload) register pair for a general-purpose
/// timer counting at `freq` Hz from an input clock of `clock` Hz.
pub fn compute_arr_presc(freq: u32, clock: u32) -> (r: (u16, u16))
    requires
        valid_request(freq, clock),
    ensures
        r.0 as int == min_prescaler(ticks_of(freq, clock)),
        r.1 as int == reload_for(ticks_of(freq, clock), r.0 as int),
{
    let ticks = clock / freq;
    let psc32 = (ticks - 1) / COUNTER_SPAN_16;
    let q = ticks / (psc32 + 1);
    proof {
        let t = ticks as int;
        let p = psc32 as int;
        assert(p + 1 <= t);
        assert((p + 1) * 65536 >= t) by (nonlinear_arith)
            requires p == (t - 1) / 65536, t >= 1;
        assert(q as int >= 1) by (nonlinear_arith)
            requires q as int == t / (p + 1), p + 1 <= t, p >= 0;
        assert(q as int <= 65536) by (nonlinear_arith)
            requires q as int == t / (p + 1), (p + 1) * 65536 >= t, p >= 0;
    }
    let psc = psc32 as u16;
    let arr = (q - 1) as u16;
    (psc, arr)
}

/// Largest reload value the 24-bit SysTick counter holds, plus one.
pub const SYST_RELOAD_SPAN: u32 = 0x0100_0000;

/// Reload value of the SysTick counter for a period at `freq` Hz.
pub open spec fn syst_reload(freq: u32, clock: u32) -> int {
    ticks_of(freq, clock) - 1
}

/// A frequency request the 24-bit SysTick counter can serve. A reload value
/// of zero keeps the counter at zero without ever wrapping, so the period
/// must be at least two input-clock cycles.
pub open spec fn valid_syst_request(freq: u32, clock: u32) -> bool {
    freq > 0 && 1 <= syst_reload(freq, clock) < SYST_RELOAD_SPAN
}

/// Computes the SysTick reload value for a period at `freq` Hz from an input
/// clock of `clock` Hz. The SysTick counter has no prescaler.
pub fn compute_syst_reload(freq: u32, clock: u32) -> (r: u32)
    requires
        valid_syst_request(freq, clock),
    ensures
        r as int == syst_reload(freq, clock),
        r < SYST_RELOAD_SPAN,
{
    clock / freq - 1
}

/// The pair returned for a request keeps both registers within 16 bits and
/// counts a period of `(psc + 1) * (arr + 1)` ticks that falls short of the
/// ideal tick count by less than one prescaled tick.
pub proof fn lemma_pair_accuracy(freq: u32, clock: u32)
    requires
        valid_request(freq, clock),
    ensures
        ({
            let t = ticks_of(freq, clock);
            let p = min_prescaler(t);
            let a = reload_for(t, p);
            &&& 0 <= p <= 0xffff
            &&& 0 <= a <= 0xffff
            &&& (p + 1) * (a + 1) <= t
            &&& t < (p + 1) * (a + 2)
            &&& t * freq <= clock < (t + 1) * freq
        }),
{
    let t = ticks_of(freq, clock);
    let p = min_prescaler(t);
    let a = reload_for(t, p);
    let f = freq as int;
    let c = clock as int;
    assert(t <= 0xffff_ffff) by (nonlinear_arith)
        requires t == c / f, f >= 1, c <= 0xffff_ffff;
    assert(0 <= p <= 0xffff);
    assert((p + 1) * 65536 >= t) by (nonlinear_arith)
        requires p == (t - 1) / 65536, t >= 1;
    assert(1 <= a + 1 <= 65536) by (nonlinear_arith)
        requires a + 1 == t / (p + 1), p + 1 <= t, p >= 0, (p + 1) * 65536 >= t;
    assert((p + 1) * (a + 1) <= t < (p + 1) * (a + 2)) by (nonlinear_arith)
        requires a + 1 == t / (p + 1), p >= 0;
    assert(t * f <= c < (t + 1) * f) by (nonlinear_arith)
        requires t == c / f, f >= 1;
}

/// The prescaler returned is the smallest one that can count the requested
/// ticks: with any smaller prescaler even the largest 16-bit reload value
/// gives a period shorter than the requested tick count.
pub proof fn lemma_minimal_prescaler(freq: u32, clock: u32)
    requires
        valid_request(freq, clock),
    ensures
        ({
            let t = ticks_of(freq, clock);
            let p = min_prescaler(t);
            &&& t <= (p + 1) * 65536
            &&& forall|q: int, a: int|
                0 <= q < p && 0 <= a <= 0xffff ==> #[trigger] ((q + 1) * (a + 1)) < t
        }),
{
    let t = ticks_of(freq, clock);
    let p = min_prescaler(t);
    assert((p + 1) * 65536 >= t) by (nonlinear_arith)
        requires p == (t - 1) / 65536, t >= 1;
    assert forall|q: int, a: int| 0 <= q < p && 0 <= a <= 0xffff implies #[trigger] ((q + 1) * (a
        + 1)) < t by {
        assert(p * 65536 < t) by (nonlinear_arith)
            requires p == (t - 1) / 65536, t >= 1;
        assert((q + 1) * (a + 1) <= p * 65536) by (nonlinear_arith)
            requires 0 <= q < p, 0 <= a <= 0xffff;
    }
}

} // verus!
