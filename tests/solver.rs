use stm32_timer::solver::{compute_arr_presc, compute_syst_reload};

#[test]
fn pair_for_1khz_from_8mhz() {
    assert_eq!(compute_arr_presc(1_000, 8_000_000), (0, 7_999));
}

#[test]
fn pair_for_1hz_from_72mhz() {
    let (psc, arr) = compute_arr_presc(1, 72_000_000);
    assert_eq!(psc, 1_098);
    assert_eq!(arr, 65_513);
    let period = (psc as u64 + 1) * (arr as u64 + 1);
    assert!(period <= 72_000_000);
    assert!(72_000_000 - period < psc as u64 + 1);
}

#[test]
fn pair_when_frequency_equals_clock() {
    assert_eq!(compute_arr_presc(8_000_000, 8_000_000), (0, 0));
}

#[test]
fn pair_at_counter_width_boundary() {
    assert_eq!(compute_arr_presc(1, 65_536), (0, 65_535));
    assert_eq!(compute_arr_presc(1, 65_537), (1, 32_767));
}

#[test]
fn pair_truncates_uneven_division() {
    // 1_000_000 / 3 = 333_333 ticks; prescaler 5 gives 55_555 counts per period
    assert_eq!(compute_arr_presc(3, 1_000_000), (5, 55_554));
}

#[test]
fn pair_for_largest_tick_count() {
    let (psc, arr) = compute_arr_presc(1, u32::MAX);
    assert_eq!(psc, 65_535);
    assert_eq!(arr, 65_534);
}

#[test]
fn minimal_prescaler_is_smallest_that_fits() {
    for &(freq, clock) in &[(1u32, 72_000_000u32), (7, 1_000_000), (1, 131_073), (50, 8_000_000)] {
        let ticks = (clock / freq) as u64;
        let (psc, arr) = compute_arr_presc(freq, clock);
        assert!((psc as u64 + 1) * 65_536 >= ticks);
        if psc > 0 {
            assert!((psc as u64) * 65_536 < ticks);
        }
        assert_eq!(arr as u64 + 1, ticks / (psc as u64 + 1));
    }
}

#[test]
fn syst_reload_for_1khz_from_72mhz() {
    assert_eq!(compute_syst_reload(1_000, 72_000_000), 71_999);
    assert_eq!(compute_syst_reload(1, 16_777_216), 16_777_215);
}
