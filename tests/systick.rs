use cortex_m::peripheral::syst::SystClkSource;
use stm32_timer::periph::{Clocks, SysTick};
use stm32_timer::timer::{Error, Event, Timer, WouldBlock};

fn clocks() -> Clocks {
    Clocks { hclk: 8_000_000, pclk1_tim: 8_000_000, pclk2_tim: 8_000_000 }
}

#[test]
fn syst_uses_core_clock() {
    let t = Timer::syst(SysTick::new(), &clocks());
    assert_eq!(t.clk(), 8_000_000);
    let raw = t.release();
    assert_eq!(raw.clock_source, SystClkSource::Core);
    assert!(!raw.enabled);
}

#[test]
fn syst_start_programs_reload() {
    let timer = Timer::syst(SysTick::new(), &clocks()).start_count_down(1_000);
    let raw = timer.release();
    assert_eq!(raw.reload, 7_999);
    assert_eq!(raw.current, 0);
    assert!(!raw.enabled);
}

#[test]
fn syst_wait_reports_each_wrap_once() {
    // 2 Hz from an 8 Hz clock: reload 3, a period of 4 input cycles
    let clk = Clocks { hclk: 8, pclk1_tim: 8, pclk2_tim: 8 };
    let mut timer = Timer::syst(SysTick::new(), &clk).start_count_down(2);
    for _ in 0..2 {
        for _ in 0..3 {
            timer.tick();
            assert_eq!(timer.wait(), Err(WouldBlock));
        }
        timer.tick();
        assert_eq!(timer.wait(), Ok(()));
        assert_eq!(timer.wait(), Err(WouldBlock));
    }
}

#[test]
fn syst_cancel_twice_reports_canceled() {
    let mut timer = Timer::syst(SysTick::new(), &clocks()).start_count_down(10);
    assert_eq!(timer.cancel(), Ok(()));
    assert_eq!(timer.cancel(), Err(Error::Canceled));
}

#[test]
fn syst_listen_and_reset() {
    let mut timer = Timer::syst(SysTick::new(), &clocks()).start_count_down(1_000);
    timer.listen(Event::Update);
    timer.tick();
    timer.tick();
    timer.reset();
    timer.unlisten(Event::Update);
    let raw = timer.release();
    assert!(!raw.tickint);
    assert_eq!(raw.current, 0);
}

#[test]
fn syst_micros_since() {
    // 8 MHz core clock, 1 kHz: reload 7_999
    let mut timer = Timer::syst(SysTick::new(), &clocks()).start_count_down(1_000);
    timer.tick();
    for _ in 0..80 {
        timer.tick();
    }
    // 80 counts below the reload value: 10 microseconds
    assert_eq!(timer.micros_since(), 10);
    let t = timer.stop();
    assert_eq!(t.clk(), 8_000_000);
}

#[test]
fn syst_start_at_half_the_clock_wraps_every_two_cycles() {
    // the fastest request the SysTick accepts: reload 1
    let clk = Clocks { hclk: 8, pclk1_tim: 8, pclk2_tim: 8 };
    let mut timer = Timer::syst(SysTick::new(), &clk).start_count_down(4);
    for _ in 0..3 {
        timer.tick();
        assert_eq!(timer.wait(), Err(WouldBlock));
        timer.tick();
        assert_eq!(timer.wait(), Ok(()));
    }
}
