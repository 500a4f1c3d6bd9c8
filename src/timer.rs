use vstd::prelude::*;
use cortex_m::peripheral::syst::SystClkSource;
use crate::periph::{
    syst_tick, tim_reset_state, tim_tick, Clocks, DebugControl, MasterMode, SysTick,
    Tim,
};
use crate::solver::{
    compute_arr_presc, compute_syst_reload, min_prescaler, reload_for, syst_reload, ticks_of,
    valid_request, valid_syst_request,
};

verus! {

/// Interrupt events
#[derive(Clone, Copy, Debug, PartialEq, Eq, Structural)]
pub enum Event {
    /// Timer timed out / count down ended
    Update,
}

#[derive(Clone, Copy, Debug, PartialEq, Eq, Structural)]
pub enum Error {
    /// Timer is canceled
    Canceled,
}

/// The period in progress has not elapsed yet; poll again later.
#[derive(Clone, Copy, Debug, PartialEq, Eq, Structural)]
pub struct WouldBlock;

/// A timer peripheral that is clocked and owned but not counting.
pub struct Timer<TIM> {
    tim: TIM,
    clk: u32,
}

/// A timer peripheral counting down periods of a programmed length.
pub struct CountDownTimer<TIM> {
    tim: TIM,
    clk: u32,
}

impl<TIM> Timer<TIM> {
    /// The owned peripheral.
    pub closed spec fn peripheral(&self) -> TIM {
        self.tim
    }

    /// The input clock of the peripheral, in Hz.
    pub closed spec fn input_clock(&self) -> u32 {
        self.clk
    }

    /// The input clock of the peripheral, in Hz.
    pub fn clk(&self) -> (r: u32)
        ensures
            r == self.input_clock(),
    {
        self.clk
    }
}

impl<TIM> CountDownTimer<TIM> {
    /// The owned peripheral.
    pub closed spec fn peripheral(&self) -> TIM {
        self.tim
    }

    /// The input clock of the peripheral, in Hz.
    pub closed spec fn input_clock(&self) -> u32 {
        self.clk
    }

    /// The register values of the running peripheral, for writing them out
    /// to the hardware block.
    pub fn registers(&self) -> (r: &TIM)
        ensures
            *r == self.peripheral(),
    {
        &self.tim
    }

    /// Takes register values read back from the hardware block as the
    /// peripheral's new state; the input clock is kept.
    pub fn sync_registers(&mut self, tim: TIM)
        ensures
            final(self).peripheral() == tim,
            final(self).input_clock() == old(self).input_clock(),
    {
        self.tim = tim;
    }

    /// The input clock of the peripheral, in Hz.
    pub fn clk(&self) -> (r: u32)
        ensures
            r == self.input_clock(),
    {
        self.clk
    }
}

/// A general-purpose timer peripheral: how it is clocked and reset.
pub trait Instance: Sized {
    /// State after the clock gate has been enabled.
    spec fn spec_enabled(self) -> Self;

    /// State after a domain reset.
    spec fn spec_reset(self) -> Self;

    /// Input clock of the peripheral under a clock configuration.
    spec fn spec_timer_clock(self, clocks: Clocks) -> u32;

    fn enable(&mut self)
        ensures
            *final(self) == old(self).spec_enabled(),
    ;

    fn reset(&mut self)
        ensures
            *final(self) == old(self).spec_reset(),
    ;

    fn timer_clock(&self, clocks: &Clocks) -> (r: u32)
        ensures
            r == self.spec_timer_clock(*clocks),
    ;
}

impl Instance for Tim {
    open spec fn spec_enabled(self) -> Tim {
        Tim { clock_enabled: true, ..self }
    }

    open spec fn spec_reset(self) -> Tim {
        tim_reset_state(self)
    }

    open spec fn spec_timer_clock(self, clocks: Clocks) -> u32 {
        clocks.spec_timer_clock(self.kind.spec_bus())
    }

    fn enable(&mut self) {
        self.rcc_enable();
    }

    fn reset(&mut self) {
        self.rcc_reset();
    }

    fn timer_clock(&self, clocks: &Clocks) -> (r: u32) {
        clocks.timer_clock(self.kind.bus())
    }
}

impl<TIM: Instance> Timer<TIM> {
    /// Initialize timer: enables and resets the peripheral and captures its
    /// bus timer clock.
    pub fn new(tim: TIM, clocks: &Clocks) -> (r: Self)
        ensures
            r.peripheral() == tim.spec_enabled().spec_reset(),
            r.input_clock() == tim.spec_enabled().spec_reset().spec_timer_clock(*clocks),
    {
        let mut tim = tim;
        tim.enable();
        tim.reset();
        let clk = tim.timer_clock(clocks);
        Timer { clk, tim }
    }

    /// Resets timer peripheral
    pub fn clocking_reset(&mut self)
        ensures
            final(self).peripheral() == old(self).peripheral().spec_reset(),
            final(self).input_clock() == old(self).input_clock(),
    {
        self.tim.reset();
    }

    /// Releases the TIM Peripheral
    pub fn release(self) -> (r: TIM)
        ensures
            r == self.peripheral(),
    {
        self.tim
    }
}

/// The register pair the solver picks for `freq` Hz from `clock` Hz.
pub open spec fn solved_pair(freq: u32, clock: u32) -> (u16, u16) {
    let t = ticks_of(freq, clock);
    (min_prescaler(t) as u16, reload_for(t, min_prescaler(t)) as u16)
}

/// The counter reset sequence: an update event with `urs` set, so the shadow
/// prescaler is loaded and the counters restart without raising the update flag.
pub open spec fn tim_counter_reset(t: Tim) -> Tim {
    Tim { urs: false, psc_active: t.psc, cnt: 0, psc_cnt: 0, ..t }
}

/// The pause, program, update and resume sequence with the given register
/// pair; a flag left over from an earlier period is cleared, so counting
/// starts afresh.
pub open spec fn tim_restarted(t: Tim, psc: u16, arr: u16) -> Tim {
    Tim {
        cen: true,
        urs: false,
        uif: false,
        psc,
        psc_active: psc,
        arr,
        cnt: 0,
        psc_cnt: 0,
        ..t
    }
}

/// Disabling the counter.
pub open spec fn tim_stopped(t: Tim) -> Tim {
    Tim { cen: false, ..t }
}

/// The peripheral after a poll, and whether the poll reported an elapsed period.
pub open spec fn tim_wait(t: Tim) -> (Tim, bool) {
    if t.uif {
        (Tim { uif: false, ..t }, true)
    } else {
        (t, false)
    }
}

/// The peripheral after a cancel, and its result.
pub open spec fn tim_cancel(t: Tim) -> (Tim, Result<(), Error>) {
    if t.cen {
        (tim_stopped(t), Ok(()))
    } else {
        (t, Err(Error::Canceled))
    }
}

/// Counter increments per second at the programmed prescaler.
pub open spec fn tim_freq_divider(t: Tim, clk: u32) -> int {
    clk as int / (t.psc as int + 1)
}

/// Microseconds that the counter value stands for.
pub open spec fn tim_micros(t: Tim, clk: u32) -> int {
    1_000_000 * (t.cnt as int) / tim_freq_divider(t, clk)
}

impl Timer<Tim> {
    /// Initialize timer
    pub fn tim(tim: Tim, clocks: &Clocks) -> (r: Self)
        ensures
            r.peripheral() == tim.spec_enabled().spec_reset(),
            r.input_clock() == clocks.spec_timer_clock(tim.kind.spec_bus()),
    {
        Self::new(tim, clocks)
    }

    /// Starts timer in count down mode at a given frequency
    pub fn start_count_down(self, timeout: u32) -> (r: CountDownTimer<Tim>)
        requires
            valid_request(timeout, self.input_clock()),
        ensures
            r.peripheral() == tim_restarted(
                self.peripheral(),
                solved_pair(timeout, self.input_clock()).0,
                solved_pair(timeout, self.input_clock()).1,
            ),
            r.input_clock() == self.input_clock(),
    {
        let Timer { tim, clk } = self;
        let mut timer = CountDownTimer { tim, clk };
        timer.start(timeout);
        timer
    }

    /// Starts timer in count down mode at a given frequency and additionally
    /// configures the timer's master mode
    pub fn start_master(self, timeout: u32, mode: MasterMode) -> (r: CountDownTimer<Tim>)
        requires
            valid_request(timeout, self.input_clock()),
            self.peripheral().kind.spec_has_master_mode(),
        ensures
            r.peripheral() == tim_restarted(
                Tim { mms: mode, ..self.peripheral() },
                solved_pair(timeout, self.input_clock()).0,
                solved_pair(timeout, self.input_clock()).1,
            ),
            r.input_clock() == self.input_clock(),
    {
        let Timer { tim, clk } = self;
        let mut timer = CountDownTimer { tim, clk };
        timer.tim.mms = mode;
        timer.start(timeout);
        timer
    }

    /// Starts the timer in count down mode with user-defined prescaler and
    /// auto-reload register
    pub fn start_raw(self, psc: u16, arr: u16) -> (r: CountDownTimer<Tim>)
        ensures
            r.peripheral() == tim_restarted(self.peripheral(), psc, arr),
            r.input_clock() == self.input_clock(),
    {
        let Timer { tim, clk } = self;
        let mut timer = CountDownTimer { tim, clk };
        timer.restart_raw(psc, arr);
        timer
    }

    /// Stopping timer in debug mode can cause troubles when sampling the signal
    pub fn stop_in_debug(&mut self, dbg: &mut DebugControl, state: bool)
        ensures
            *final(self) == *old(self),
            final(dbg).cr == if state {
                old(dbg).cr | (1u32 << old(self).peripheral().kind.spec_dbg_stop_bit())
            } else {
                old(dbg).cr & !(1u32 << old(self).peripheral().kind.spec_dbg_stop_bit())
            },
    {
        let bit = self.tim.kind.dbg_stop_bit();
        if state {
            dbg.cr = dbg.cr | (1u32 << bit);
        } else {
            dbg.cr = dbg.cr & !(1u32 << bit);
        }
    }
}

impl CountDownTimer<Tim> {
    /// Starts listening for an `event`
    pub fn listen(&mut self, event: Event)
        ensures
            final(self).peripheral() == (Tim { uie: true, ..old(self).peripheral() }),
            final(self).input_clock() == old(self).input_clock(),
    {
        match event {
            Event::Update => self.tim.uie = true,
        }
    }

    /// Stops listening for an `event`
    pub fn unlisten(&mut self, event: Event)
        ensures
            final(self).peripheral() == (Tim { uie: false, ..old(self).peripheral() }),
            final(self).input_clock() == old(self).input_clock(),
    {
        match event {
            Event::Update => self.tim.uie = false,
        }
    }

    /// Restarts the timer in count down mode with user-defined prescaler and
    /// auto-reload register
    pub fn restart_raw(&mut self, psc: u16, arr: u16)
        ensures
            final(self).peripheral() == tim_restarted(old(self).peripheral(), psc, arr),
            final(self).input_clock() == old(self).input_clock(),
    {
        // pause
        self.tim.cen = false;
        self.tim.psc = psc;
        self.tim.arr = arr;
        // an update event loads the prescaler value into the counting path
        self.reset();
        // a flag from an earlier period must not report this one as elapsed
        self.tim.uif = false;
        // start counter
        self.tim.cen = true;
    }

    /// Retrieves the content of the prescaler register. The real prescaler is
    /// this value + 1.
    pub fn psc(&self) -> (r: u16)
        ensures
            r == self.peripheral().psc,
    {
        self.tim.psc
    }

    /// Retrieves the value of the auto-reload register.
    pub fn arr(&self) -> (r: u16)
        ensures
            r == self.peripheral().arr,
    {
        self.tim.arr
    }

    /// Retrieves the current timer counter value.
    pub fn cnt(&self) -> (r: u16)
        ensures
            r == self.peripheral().cnt,
    {
        self.tim.cnt
    }

    /// Stops the timer
    pub fn stop(self) -> (r: Timer<Tim>)
        ensures
            r.peripheral() == tim_stopped(self.peripheral()),
            r.input_clock() == self.input_clock(),
    {
        let mut s = self;
        s.tim.cen = false;
        let CountDownTimer { tim, clk } = s;
        Timer { tim, clk }
    }

    /// Clears Update Interrupt Flag
    pub fn clear_update_interrupt_flag(&mut self)
        ensures
            final(self).peripheral() == (Tim { uif: false, ..old(self).peripheral() }),
            final(self).input_clock() == old(self).input_clock(),
    {
        self.tim.uif = false;
    }

    /// Releases the TIM Peripheral
    pub fn release(self) -> (r: Tim)
        ensures
            r == tim_stopped(self.peripheral()),
    {
        self.stop().release()
    }

    /// Returns the number of microseconds since the last update event.
    /// *NOTE:* This method is not a very good candidate to keep track of time,
    /// because it is very easy to lose an update event.
    pub fn micros_since(&self) -> (r: u32)
        requires
            tim_freq_divider(self.peripheral(), self.input_clock()) > 0,
            tim_micros(self.peripheral(), self.input_clock()) <= u32::MAX,
        ensures
            r == tim_micros(self.peripheral(), self.input_clock()),
    {
        let timer_clock = self.clk;
        let psc = self.tim.psc as u32;
        let freq_divider = (timer_clock / (psc + 1)) as u64;
        let cnt = self.tim.cnt as u64;
        assert(1_000_000 * cnt <= 1_000_000 * 0xffff);
        (1_000_000 * cnt / freq_divider) as u32
    }

    /// Resets the counter
    pub fn reset(&mut self)
        ensures
            final(self).peripheral() == tim_counter_reset(old(self).peripheral()),
            final(self).input_clock() == old(self).input_clock(),
    {
        // urs keeps the update event from raising the update flag
        self.tim.urs = true;
        self.tim.generate_update();
        self.tim.urs = false;
    }

    /// Starts counting down periods at `timeout` Hz.
    pub fn start(&mut self, timeout: u32)
        requires
            valid_request(timeout, old(self).input_clock()),
        ensures
            final(self).peripheral() == tim_restarted(
                old(self).peripheral(),
                solved_pair(timeout, old(self).input_clock()).0,
                solved_pair(timeout, old(self).input_clock()).1,
            ),
            final(self).input_clock() == old(self).input_clock(),
    {
        let (psc, arr) = compute_arr_presc(timeout, self.clk);
        self.restart_raw(psc, arr);
    }

    /// Polls for the end of the period in progress. Reports it once, clearing
    /// the update flag.
    pub fn wait(&mut self) -> (r: Result<(), WouldBlock>)
        ensures
            final(self).peripheral() == tim_wait(old(self).peripheral()).0,
            (r is Ok) == tim_wait(old(self).peripheral()).1,
            final(self).input_clock() == old(self).input_clock(),
    {
        if !self.tim.uif {
            Err(WouldBlock)
        } else {
            self.clear_update_interrupt_flag();
            Ok(())
        }
    }

    /// Lets the peripheral's input clock run for one cycle.
    pub fn tick(&mut self)
        ensures
            final(self).peripheral() == tim_tick(old(self).peripheral()),
            final(self).input_clock() == old(self).input_clock(),
    {
        self.tim.tick();
    }

    /// Stops a running counter; fails if it was not running.
    pub fn cancel(&mut self) -> (r: Result<(), Error>)
        ensures
            final(self).peripheral() == tim_cancel(old(self).peripheral()).0,
            r == tim_cancel(old(self).peripheral()).1,
            final(self).input_clock() == old(self).input_clock(),
    {
        if !self.tim.cen {
            return Err(Error::Canceled);
        }
        self.tim.cen = false;
        Ok(())
    }
}

/// The peripheral after `n` cycles of its input clock.
pub open spec fn tim_run(t: Tim, n: nat) -> Tim
    decreases n,
{
    if n == 0 {
        t
    } else {
        tim_tick(tim_run(t, (n - 1) as nat))
    }
}

/// Length of one counting period, in input-clock cycles.
pub open spec fn tim_period(t: Tim) -> int {
    (t.psc_active as int + 1) * (t.arr as int + 1)
}

/// The peripheral `n` input-clock cycles into its counting, with update
/// flag `flag`: the prescaler and main counters hold the position within
/// the current period.
pub open spec fn tim_at(s: Tim, n: int, flag: bool) -> Tim {
    let r = n % tim_period(s);
    let d = s.psc_active as int + 1;
    Tim { cnt: (r / d) as u16, psc_cnt: (r % d) as u16, uif: flag, ..s }
}

proof fn lemma_tim_tick_at(s: Tim, n: int, flag: bool)
    requires
        s.cen,
        n >= 0,
    ensures
        tim_tick(tim_at(s, n, flag)) == tim_at(s, n + 1, flag || (n + 1) % tim_period(s) == 0),
{
    let d = s.psc_active as int + 1;
    let a = s.arr as int;
    let p = tim_period(s);
    assert(p >= 1) by (nonlinear_arith)
        requires d >= 1, a >= 0, p == d * (a + 1);
    let r = n % p;
    assert(0 <= r < p) by (nonlinear_arith)
        requires p >= 1, r == n % p;
    let q = r / d;
    let c = r % d;
    assert(0 <= c < d && r == q * d + c && q >= 0) by (nonlinear_arith)
        requires d > 0, q == r / d, c == r % d, r >= 0;
    assert(q <= a) by (nonlinear_arith)
        requires r == q * d + c, c >= 0, r < d * (a + 1), d > 0;
    if r < p - 1 {
        assert((n + 1) % p == r + 1) by (nonlinear_arith)
            requires r == n % p, r + 1 < p, p >= 1, n >= 0;
        if c < d - 1 {
            assert((r + 1) / d == q && (r + 1) % d == c + 1) by (nonlinear_arith)
                requires r + 1 == q * d + c + 1, 0 <= c + 1 < d, q >= 0;
        } else {
            assert(r + 1 == (q + 1) * d) by (nonlinear_arith)
                requires r == q * d + c, c == d - 1;
            assert((r + 1) / d == q + 1 && (r + 1) % d == 0) by (nonlinear_arith)
                requires r + 1 == (q + 1) * d, d > 0;
            assert(q < a) by (nonlinear_arith)
                requires r + 1 == (q + 1) * d, r + 1 < d * (a + 1), d > 0;
        }
    } else {
        assert((n + 1) % p == 0) by (nonlinear_arith)
            requires r == n % p, r == p - 1, p >= 1, n >= 0;
        assert(q == a && c == d - 1) by (nonlinear_arith)
            requires r == p - 1, p == d * (a + 1), d >= 1, a >= 0, q == r / d, c == r % d;
        assert(0int / d == 0 && 0int % d == 0) by (nonlinear_arith)
            requires d > 0;
    }
}

proof fn lemma_period_index_step(n: int, m: int, p: int)
    requires
        p >= 1,
        0 <= n <= m,
    ensures
        m / p <= (m + 1) / p,
        n / p <= m / p,
        ((m + 1) / p > m / p) == ((m + 1) % p == 0),
{
    assert(n / p <= m / p) by (nonlinear_arith)
        requires p >= 1, 0 <= n <= m;
    assert(m / p <= (m + 1) / p) by (nonlinear_arith)
        requires p >= 1, 0 <= m;
    assert(((m + 1) / p > m / p) == ((m + 1) % p == 0)) by (nonlinear_arith)
        requires p >= 1, 0 <= m;
}

proof fn lemma_tim_run_at(s: Tim, n: int, flag: bool, j: nat)
    requires
        s.cen,
        n >= 0,
    ensures
        tim_run(tim_at(s, n, flag), j) == tim_at(
            s,
            n + j,
            flag || (n + j) / tim_period(s) > n / tim_period(s),
        ),
    decreases j,
{
    let p = tim_period(s);
    assert(p >= 1) by (nonlinear_arith)
        requires p == (s.psc_active as int + 1) * (s.arr as int + 1);
    if j > 0 {
        let m = n + j - 1;
        lemma_tim_run_at(s, n, flag, (j - 1) as nat);
        lemma_tim_tick_at(s, m, flag || m / p > n / p);
        lemma_period_index_step(n, m, p);
        assert(m + 1 == n + j);
    } else {
        assert(tim_run(tim_at(s, n, flag), 0) == tim_at(s, n, flag));
    }
}

/// Counting from a start: the state the start leaves is position 0 of the
/// period with the update flag clear. From any position `n` with flag
/// `flag`, `j` more input-clock cycles lead to position `n + j`, with the
/// flag raised exactly when a period of `(psc + 1) * (arr + 1)` cycles has
/// been completed in between. A poll reports "elapsed" exactly when the flag
/// is raised and clears it without moving the counters, so after a start
/// every period is reported exactly once: polls give "not elapsed" until the
/// first `(psc + 1) * (arr + 1)` cycles have passed, then "elapsed" once,
/// then "not elapsed" again until the next period completes.
pub proof fn lemma_elapsed_once_per_period(
    t: Tim,
    psc: u16,
    arr: u16,
    n: nat,
    flag: bool,
    j: nat,
)
    ensures
        ({
            let s = tim_restarted(t, psc, arr);
            let period = (psc as int + 1) * (arr as int + 1);
            &&& s == tim_at(s, 0, false)
            &&& tim_run(tim_at(s, n as int, flag), j) == tim_at(
                s,
                n + j as int,
                flag || (n + j as int) / period > n as int / period,
            )
            &&& tim_wait(tim_at(s, n as int, flag)) == (tim_at(s, n as int, false), flag)
            &&& tim_wait(tim_run(s, j)).1 == (j as int >= period)
        }),
{
    let s = tim_restarted(t, psc, arr);
    let p = tim_period(s);
    let d = psc as int + 1;
    assert(p >= 1) by (nonlinear_arith)
        requires p == d * (arr as int + 1), d >= 1;
    assert(0int % p == 0 && 0int / d == 0 && 0int % d == 0 && 0int / p == 0) by (nonlinear_arith)
        requires p >= 1, d >= 1;
    lemma_tim_run_at(s, n as int, flag, j);
    lemma_tim_run_at(s, 0, false, j);
    assert((j as int / p > 0) == (j >= p)) by (nonlinear_arith)
        requires p >= 1, j >= 0;
}

/// Cancelling a running peripheral succeeds and stops it; cancelling it again
/// without a new start reports `Canceled`.
pub proof fn lemma_cancel_twice(t: Tim)
    requires
        t.cen,
    ensures
        tim_cancel(t).1 == Ok::<(), Error>(()),
        !tim_cancel(t).0.cen,
        tim_cancel(tim_cancel(t).0).1 == Err::<(), Error>(Error::Canceled),
{
}

/// Stopping and then starting with the register pair that the solver picks
/// for a frequency programs the same peripheral state as restarting at that
/// frequency directly.
pub proof fn lemma_start_raw_matches_start(t: Tim, freq: u32, clock: u32)
    requires
        valid_request(freq, clock),
    ensures
        tim_restarted(tim_stopped(t), solved_pair(freq, clock).0, solved_pair(freq, clock).1)
            == tim_restarted(t, solved_pair(freq, clock).0, solved_pair(freq, clock).1),
{
}

/// Writing the current value register: the counter and the count flag clear.
pub open spec fn syst_cleared(s: SysTick) -> SysTick {
    SysTick { current: 0, countflag: false, ..s }
}

/// Programming the reload value, clearing the counter and enabling it.
pub open spec fn syst_restarted(s: SysTick, reload: u32) -> SysTick {
    SysTick { reload, current: 0, countflag: false, enabled: true, ..s }
}

/// The SysTick block after a poll, and whether the poll reported a wrap.
pub open spec fn syst_wait(s: SysTick) -> (SysTick, bool) {
    (SysTick { countflag: false, ..s }, s.countflag)
}

/// The SysTick block after a cancel, and its result.
pub open spec fn syst_cancel(s: SysTick) -> (SysTick, Result<(), Error>) {
    if s.enabled {
        (SysTick { enabled: false, ..s }, Ok(()))
    } else {
        (s, Err(Error::Canceled))
    }
}

/// Microseconds that the ticks counted since the last reload stand for.
pub open spec fn syst_micros(s: SysTick, clk: u32) -> int {
    1_000_000 * (s.reload as int - s.current as int) / (clk as int)
}

impl Timer<SysTick> {
    /// Takes the SysTick block, clocked from the core clock.
    pub fn syst(syst: SysTick, clocks: &Clocks) -> (r: Self)
        ensures
            r.peripheral() == (SysTick { clock_source: SystClkSource::Core, ..syst }),
            r.input_clock() == clocks.hclk,
    {
        let mut syst = syst;
        syst.clock_source = SystClkSource::Core;
        Timer { tim: syst, clk: clocks.hclk() }
    }

    /// Starts the SysTick counter counting down periods at `timeout` Hz.
    pub fn start_count_down(self, timeout: u32) -> (r: CountDownTimer<SysTick>)
        requires
            valid_syst_request(timeout, self.input_clock()),
        ensures
            r.peripheral() == syst_restarted(
                self.peripheral(),
                syst_reload(timeout, self.input_clock()) as u32,
            ),
            r.input_clock() == self.input_clock(),
    {
        let Timer { tim, clk } = self;
        let mut timer = CountDownTimer { tim, clk };
        timer.start(timeout);
        timer
    }

    /// Releases the SysTick block.
    pub fn release(self) -> (r: SysTick)
        ensures
            r == self.peripheral(),
    {
        self.tim
    }
}

impl CountDownTimer<SysTick> {
    /// Starts listening for an `event`
    pub fn listen(&mut self, event: Event)
        ensures
            final(self).peripheral() == (SysTick { tickint: true, ..old(self).peripheral() }),
            final(self).input_clock() == old(self).input_clock(),
    {
        match event {
            Event::Update => self.tim.tickint = true,
        }
    }

    /// Stops listening for an `event`
    pub fn unlisten(&mut self, event: Event)
        ensures
            final(self).peripheral() == (SysTick { tickint: false, ..old(self).peripheral() }),
            final(self).input_clock() == old(self).input_clock(),
    {
        match event {
            Event::Update => self.tim.tickint = false,
        }
    }

    /// Resets the counter. The interrupt request only comes when the counter
    /// goes from 1 to 0, so writing zero raises none.
    pub fn reset(&mut self)
        ensures
            final(self).peripheral() == syst_cleared(old(self).peripheral()),
            final(self).input_clock() == old(self).input_clock(),
    {
        self.tim.current = 0;
        self.tim.countflag = false;
    }

    /// Returns the number of microseconds since the last update event.
    /// *NOTE:* This method is not a very good candidate to keep track of time,
    /// because it is very easy to lose an update event.
    pub fn micros_since(&self) -> (r: u32)
        requires
            self.peripheral().current <= self.peripheral().reload,
            self.input_clock() > 0,
            syst_micros(self.peripheral(), self.input_clock()) <= u32::MAX,
        ensures
            r == syst_micros(self.peripheral(), self.input_clock()),
    {
        let reload_value = self.tim.reload;
        let timer_clock = self.clk as u64;
        let ticks = (reload_value - self.tim.current) as u64;
        assert(1_000_000 * ticks <= 1_000_000 * 0xffff_ffff);
        (1_000_000 * ticks / timer_clock) as u32
    }

    /// Stops the timer
    pub fn stop(self) -> (r: Timer<SysTick>)
        ensures
            r.peripheral() == (SysTick { enabled: false, ..self.peripheral() }),
            r.input_clock() == self.input_clock(),
    {
        let mut s = self;
        s.tim.enabled = false;
        let CountDownTimer { tim, clk } = s;
        Timer { tim, clk }
    }

    /// Releases the SysTick block.
    pub fn release(self) -> (r: SysTick)
        ensures
            r == (SysTick { enabled: false, ..self.peripheral() }),
    {
        self.stop().release()
    }

    /// Starts counting down periods at `timeout` Hz.
    pub fn start(&mut self, timeout: u32)
        requires
            valid_syst_request(timeout, old(self).input_clock()),
        ensures
            final(self).peripheral() == syst_restarted(
                old(self).peripheral(),
                syst_reload(timeout, old(self).input_clock()) as u32,
            ),
            final(self).input_clock() == old(self).input_clock(),
    {
        let rvr = compute_syst_reload(timeout, self.clk);
        self.tim.reload = rvr;
        self.reset();
        self.tim.enabled = true;
    }

    /// Polls for a wrap of the counter. Reading the count flag clears it, so
    /// each wrap is reported once.
    pub fn wait(&mut self) -> (r: Result<(), WouldBlock>)
        ensures
            final(self).peripheral() == syst_wait(old(self).peripheral()).0,
            (r is Ok) == syst_wait(old(self).peripheral()).1,
            final(self).input_clock() == old(self).input_clock(),
    {
        let wrapped = self.tim.countflag;
        self.tim.countflag = false;
        if wrapped {
            Ok(())
        } else {
            Err(WouldBlock)
        }
    }

    /// Lets the SysTick input clock run for one cycle.
    pub fn tick(&mut self)
        ensures
            final(self).peripheral() == syst_tick(old(self).peripheral()),
            final(self).input_clock() == old(self).input_clock(),
    {
        self.tim.tick();
    }

    /// Stops a running counter; fails if it was not running.
    pub fn cancel(&mut self) -> (r: Result<(), Error>)
        ensures
            final(self).peripheral() == syst_cancel(old(self).peripheral()).0,
            r == syst_cancel(old(self).peripheral()).1,
            final(self).input_clock() == old(self).input_clock(),
    {
        if !self.tim.enabled {
            return Err(Error::Canceled);
        }
        self.tim.enabled = false;
        Ok(())
    }
}

/// The SysTick block after `n` cycles of its input clock.
pub open spec fn syst_run(s: SysTick, n: nat) -> SysTick
    decreases n,
{
    if n == 0 {
        s
    } else {
        syst_tick(syst_run(s, (n - 1) as nat))
    }
}

/// The SysTick block `n` input-clock cycles into its counting, with count
/// flag `flag`. Each period is `reload + 1` cycles: the counter is reloaded
/// on the first and reaches zero on the last.
pub open spec fn syst_at(s: SysTick, n: int, flag: bool) -> SysTick {
    let r = n % (s.reload as int + 1);
    SysTick { current: if r == 0 { 0 } else { (s.reload + 1 - r) as u32 }, countflag: flag, ..s }
}

proof fn lemma_syst_tick_at(s: SysTick, n: int, flag: bool)
    requires
        s.enabled,
        s.reload >= 1,
        n >= 0,
    ensures
        syst_tick(syst_at(s, n, flag)) == syst_at(
            s,
            n + 1,
            flag || (n + 1) % (s.reload as int + 1) == 0,
        ),
{
    let p = s.reload as int + 1;
    let r = n % p;
    assert(0 <= r < p) by (nonlinear_arith)
        requires p >= 2, r == n % p;
    if r < p - 1 {
        assert((n + 1) % p == r + 1) by (nonlinear_arith)
            requires r == n % p, r + 1 < p, p >= 1, n >= 0;
    } else {
        assert((n + 1) % p == 0) by (nonlinear_arith)
            requires r == n % p, r == p - 1, p >= 1, n >= 0;
    }
}

proof fn lemma_syst_run_at(s: SysTick, n: int, flag: bool, j: nat)
    requires
        s.enabled,
        s.reload >= 1,
        n >= 0,
    ensures
        syst_run(syst_at(s, n, flag), j) == syst_at(
            s,
            n + j,
            flag || (n + j) / (s.reload as int + 1) > n / (s.reload as int + 1),
        ),
    decreases j,
{
    let p = s.reload as int + 1;
    if j > 0 {
        let m = n + j - 1;
        lemma_syst_run_at(s, n, flag, (j - 1) as nat);
        lemma_syst_tick_at(s, m, flag || m / p > n / p);
        lemma_period_index_step(n, m, p);
        assert(m + 1 == n + j);
    } else {
        assert(syst_run(syst_at(s, n, flag), 0) == syst_at(s, n, flag));
    }
}

/// Counting from a SysTick start with a reload value of at least one: the
/// state the start leaves is position 0 of a period of `reload + 1` cycles
/// with the count flag clear. From any position `n` with flag `flag`, `j`
/// more cycles lead to position `n + j`, with the flag raised exactly when a
/// period has been completed in between. A poll reports "elapsed" exactly
/// when the flag is raised and clears it, so every period is reported exactly
/// once: polls give "not elapsed" until the first `reload + 1` cycles have
/// passed, then "elapsed" once, then "not elapsed" until the next period
/// completes. (With a reload value of zero the counter never wraps.)
pub proof fn lemma_syst_elapsed_once_per_period(
    t: SysTick,
    reload: u32,
    n: nat,
    flag: bool,
    j: nat,
)
    requires
        reload >= 1,
    ensures
        ({
            let s = syst_restarted(t, reload);
            let period = reload as int + 1;
            &&& s == syst_at(s, 0, false)
            &&& syst_run(syst_at(s, n as int, flag), j) == syst_at(
                s,
                n + j as int,
                flag || (n + j as int) / period > n as int / period,
            )
            &&& syst_wait(syst_at(s, n as int, flag)) == (syst_at(s, n as int, false), flag)
            &&& syst_wait(syst_run(s, j)).1 == (j as int >= period)
        }),
{
    let s = syst_restarted(t, reload);
    let p = reload as int + 1;
    assert(0int % p == 0 && 0int / p == 0) by (nonlinear_arith)
        requires p >= 1;
    lemma_syst_run_at(s, n as int, flag, j);
    lemma_syst_run_at(s, 0, false, j);
    assert((j as int / p > 0) == (j >= p)) by (nonlinear_arith)
        requires p >= 1, j >= 0;
}

} // verus!
