use stm32_timer::periph::{Bus, Clocks, DebugControl, MasterMode, Tim, TimerKind, ARR_RESET};
use stm32_timer::timer::{Error, Event, Timer, WouldBlock};

fn clocks() -> Clocks {
    Clocks { hclk: 72_000_000, pclk1_tim: 8_000_000, pclk2_tim: 72_000_000 }
}

fn idle(kind: TimerKind) -> Timer<Tim> {
    Timer::tim(Tim::new(kind), &clocks())
}

#[test]
fn new_timer_is_enabled_reset_and_clocked_from_its_bus() {
    let t = idle(TimerKind::Tim2);
    assert_eq!(t.clk(), 8_000_000);
    let t1 = idle(TimerKind::Tim1);
    assert_eq!(t1.clk(), 72_000_000);
    let raw = t.release();
    assert!(raw.clock_enabled);
    assert!(!raw.cen);
    assert_eq!(raw.arr, ARR_RESET);
    assert_eq!(TimerKind::Tim15.bus(), Bus::Apb2);
    assert!(!TimerKind::Tim16.has_master_mode());
}

#[test]
fn start_count_down_programs_solved_pair() {
    let timer = idle(TimerKind::Tim2).start_count_down(1_000);
    assert_eq!(timer.psc(), 0);
    assert_eq!(timer.arr(), 7_999);
    assert_eq!(timer.cnt(), 0);
    let raw = timer.release();
    assert_eq!(raw.psc_active, 0);
    assert!(!raw.cen);
}

#[test]
fn start_count_down_at_1hz_from_72mhz() {
    let timer = idle(TimerKind::Tim1).start_count_down(1);
    assert_eq!(timer.psc(), 1_098);
    assert_eq!(timer.arr(), 65_513);
}

#[test]
fn wait_reports_elapsed_once_per_period() {
    // prescaler 1 and reload 2: a period of 2 * 3 = 6 input cycles
    let mut timer = idle(TimerKind::Tim3).start_raw(1, 2);
    for _ in 0..3 {
        for _ in 0..5 {
            timer.tick();
            assert_eq!(timer.wait(), Err(WouldBlock));
        }
        timer.tick();
        assert_eq!(timer.wait(), Ok(()));
        assert_eq!(timer.wait(), Err(WouldBlock));
    }
}

#[test]
fn counter_advances_every_prescaled_cycle() {
    let mut timer = idle(TimerKind::Tim3).start_raw(1, 2);
    timer.tick();
    assert_eq!(timer.cnt(), 0);
    timer.tick();
    assert_eq!(timer.cnt(), 1);
    timer.tick();
    timer.tick();
    assert_eq!(timer.cnt(), 2);
    timer.tick();
    timer.tick();
    assert_eq!(timer.cnt(), 0);
}

#[test]
fn cancel_twice_reports_canceled() {
    let mut timer = idle(TimerKind::Tim2).start_count_down(10);
    assert_eq!(timer.cancel(), Ok(()));
    assert_eq!(timer.cancel(), Err(Error::Canceled));
    timer.start(10);
    assert_eq!(timer.cancel(), Ok(()));
}

#[test]
fn stop_then_start_raw_matches_start() {
    let direct = idle(TimerKind::Tim2).start_count_down(3).release();
    let (psc, arr) = stm32_timer::solver::compute_arr_presc(3, 8_000_000);
    let restarted = idle(TimerKind::Tim2).start_count_down(500).stop().start_raw(psc, arr).release();
    assert_eq!(direct, restarted);
}

#[test]
fn listen_and_unlisten_toggle_update_interrupt() {
    let mut timer = idle(TimerKind::Tim4).start_count_down(100);
    timer.listen(Event::Update);
    assert!(timer.release().uie);
    let mut timer = idle(TimerKind::Tim4).start_count_down(100);
    timer.listen(Event::Update);
    timer.unlisten(Event::Update);
    assert!(!timer.release().uie);
}

#[test]
fn reset_restarts_counter_without_raising_flag() {
    let mut timer = idle(TimerKind::Tim2).start_raw(0, 9);
    for _ in 0..4 {
        timer.tick();
    }
    assert_eq!(timer.cnt(), 4);
    timer.reset();
    assert_eq!(timer.cnt(), 0);
    assert_eq!(timer.wait(), Err(WouldBlock));
}

#[test]
fn update_event_loads_prescaler_shadow() {
    let mut raw = Tim::new(TimerKind::Tim2);
    raw.psc = 3;
    raw.generate_update();
    assert_eq!(raw.psc_active, 3);
    assert!(raw.uif);
    let mut quiet = Tim::new(TimerKind::Tim2);
    quiet.urs = true;
    quiet.psc = 4;
    quiet.generate_update();
    assert_eq!(quiet.psc_active, 4);
    assert!(!quiet.uif);
}

#[test]
fn micros_since_from_counter() {
    // 8 MHz, prescaler 7: one count per microsecond
    let mut timer = idle(TimerKind::Tim2).start_raw(7, 999);
    assert_eq!(timer.micros_since(), 0);
    for _ in 0..80 {
        timer.tick();
    }
    assert_eq!(timer.cnt(), 10);
    assert_eq!(timer.micros_since(), 10);
}

#[test]
fn start_master_sets_trigger_output() {
    let timer = idle(TimerKind::Tim2).start_master(1_000, MasterMode::Update);
    let raw = timer.release();
    assert_eq!(raw.mms, MasterMode::Update);
    assert_eq!(raw.arr, 7_999);
}

#[test]
fn stop_in_debug_sets_and_clears_bit() {
    let mut t = idle(TimerKind::Tim3);
    let mut dbg = DebugControl { cr: 0 };
    t.stop_in_debug(&mut dbg, true);
    assert_eq!(dbg.cr, 1 << 12);
    t.stop_in_debug(&mut dbg, false);
    assert_eq!(dbg.cr, 0);
}

#[test]
fn clocking_reset_restores_register_defaults() {
    let mut t = Timer::tim(Tim::new(TimerKind::Tim2), &clocks()).start_raw(5, 5).stop();
    t.clocking_reset();
    let raw = t.release();
    assert_eq!(raw.psc, 0);
    assert_eq!(raw.arr, ARR_RESET);
    assert!(raw.clock_enabled);
}

#[test]
fn restart_clears_flag_left_from_unpolled_period() {
    let mut timer = idle(TimerKind::Tim3).start_raw(1, 2);
    for _ in 0..6 {
        timer.tick();
    }
    assert!(timer.registers().uif);
    timer.start(2_000_000);
    assert_eq!(timer.wait(), Err(WouldBlock));
    timer.restart_raw(1, 2);
    for _ in 0..5 {
        timer.tick();
        assert_eq!(timer.wait(), Err(WouldBlock));
    }
    timer.tick();
    assert_eq!(timer.wait(), Ok(()));
}

#[test]
fn missed_polls_report_one_elapse() {
    // period of 6 cycles; two periods pass unpolled, then one report
    let mut timer = idle(TimerKind::Tim3).start_raw(1, 2);
    for _ in 0..14 {
        timer.tick();
    }
    assert_eq!(timer.wait(), Ok(()));
    assert_eq!(timer.wait(), Err(WouldBlock));
    for _ in 0..3 {
        timer.tick();
        assert_eq!(timer.wait(), Err(WouldBlock));
    }
    timer.tick();
    assert_eq!(timer.wait(), Ok(()));
}

#[test]
fn sync_registers_replaces_model_and_keeps_clock() {
    let mut timer = idle(TimerKind::Tim2).start_raw(0, 9);
    let mut regs = *timer.registers();
    regs.cnt = 7;
    regs.uif = true;
    timer.sync_registers(regs);
    assert_eq!(timer.cnt(), 7);
    assert_eq!(timer.clk(), 8_000_000);
    assert_eq!(timer.wait(), Ok(()));
}
