use stm32_timer::periph::TimerKind;
use stm32_timer::remap::{channel_remap, Ch1, Ch3, Channel, Pin, Remap, RemapError};

#[test]
fn channel_one_with_unrouted_pin_is_rejected() {
    assert_eq!(
        channel_remap(Remap::Tim2PartialRemap1, Channel::C1, Pin::PA0),
        Err(RemapError::PinNotRouted)
    );
    assert_eq!(channel_remap(Remap::Tim3NoRemap, Channel::C1, Pin::PC6), Err(RemapError::PinNotRouted));
}

#[test]
fn channel_one_with_routed_pin_gives_remap_bits() {
    assert_eq!(channel_remap(Remap::Tim2PartialRemap1, Channel::C1, Pin::PA15), Ok(0b01));
    assert_eq!(channel_remap(Remap::Tim3FullRemap, Channel::C1, Pin::PC6), Ok(0b11));
    assert_eq!(channel_remap(Remap::Tim1NoRemap, Channel::C1, Pin::PA8), Ok(0b00));
}

#[test]
fn other_channels_follow_the_table() {
    assert_eq!(channel_remap(Remap::Tim2PartialRemap2, Channel::C3, Pin::PB10), Ok(0b10));
    assert_eq!(channel_remap(Remap::Tim2PartialRemap2, Channel::C3, Pin::PA2), Err(RemapError::PinNotRouted));
    assert_eq!(channel_remap(Remap::Tim3PartialRemap, Channel::C2, Pin::PB5), Ok(0b10));
    assert_eq!(channel_remap(Remap::Tim4Remap, Channel::C4, Pin::PD15), Ok(0b01));
    assert_eq!(channel_remap(Remap::Tim1FullRemap, Channel::C2, Pin::PE11), Ok(0b11));
}

#[test]
fn remap_belongs_to_its_timer() {
    assert_eq!(Remap::Tim1FullRemap.periph(), TimerKind::Tim1);
    assert_eq!(Remap::Tim4NoRemap.periph(), TimerKind::Tim4);
    assert_eq!(Remap::Tim3PartialRemap.remap_bits(), 0b10);
}

#[test]
fn channel_traits_match_the_table() {
    assert!(Pin::PA6.routes_ch1(Remap::Tim3NoRemap));
    assert!(!Pin::PA6.routes_ch1(Remap::Tim3PartialRemap));
    assert!(Pin::PB0.routes_ch3(Remap::Tim3PartialRemap));
    assert_eq!(Remap::Tim2FullRemap.pin_for(Channel::C2), Pin::PB3);
}
