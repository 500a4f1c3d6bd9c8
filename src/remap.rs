use vstd::prelude::*;
use crate::periph::TimerKind;

verus! {

/// The pins that can carry a timer channel.
#[derive(Clone, Copy, Debug, PartialEq, Eq, Structural)]
pub enum Pin {
    PA0,
    PA1,
    PA2,
    PA3,
    PA6,
    PA7,
    PA8,
    PA9,
    PA10,
    PA11,
    PA15,
    PB0,
    PB1,
    PB3,
    PB4,
    PB5,
    PB6,
    PB7,
    PB8,
    PB9,
    PB10,
    PB11,
    PC6,
    PC7,
    PC8,
    PC9,
    PD12,
    PD13,
    PD14,
    PD15,
    PE9,
    PE11,
    PE13,
    PE14,
}

/// A timer channel.
#[derive(Clone, Copy, Debug, PartialEq, Eq, Structural)]
pub enum Channel {
    C1,
    C2,
    C3,
    C4,
}

/// An alternate-function mapping of a timer's four channels onto pins.
#[derive(Clone, Copy, Debug, PartialEq, Eq, Structural)]
pub enum Remap {
    Tim1NoRemap,
    Tim1FullRemap,
    Tim2NoRemap,
    Tim2PartialRemap1,
    Tim2PartialRemap2,
    Tim2FullRemap,
    Tim3NoRemap,
    Tim3PartialRemap,
    Tim3FullRemap,
    Tim4NoRemap,
    Tim4Remap,
}

/// A pin was offered for a channel that the selected mapping routes elsewhere.
#[derive(Clone, Copy, Debug, PartialEq, Eq, Structural)]
pub enum RemapError {
    PinNotRouted,
}

impl Remap {
    pub open spec fn spec_periph(self) -> TimerKind {
        match self {
            Remap::Tim1NoRemap => TimerKind::Tim1,
            Remap::Tim1FullRemap => TimerKind::Tim1,
            Remap::Tim2NoRemap => TimerKind::Tim2,
            Remap::Tim2PartialRemap1 => TimerKind::Tim2,
            Remap::Tim2PartialRemap2 => TimerKind::Tim2,
            Remap::Tim2FullRemap => TimerKind::Tim2,
            Remap::Tim3NoRemap => TimerKind::Tim3,
            Remap::Tim3PartialRemap => TimerKind::Tim3,
            Remap::Tim3FullRemap => TimerKind::Tim3,
            Remap::Tim4NoRemap => TimerKind::Tim4,
            Remap::Tim4Remap => TimerKind::Tim4,
        }
    }

    /// The timer this mapping belongs to.
    pub fn periph(self) -> (r: TimerKind)
        ensures
            r == self.spec_periph(),
    {
        match self {
            Remap::Tim1NoRemap => TimerKind::Tim1,
            Remap::Tim1FullRemap => TimerKind::Tim1,
            Remap::Tim2NoRemap => TimerKind::Tim2,
            Remap::Tim2PartialRemap1 => TimerKind::Tim2,
            Remap::Tim2PartialRemap2 => TimerKind::Tim2,
            Remap::Tim2FullRemap => TimerKind::Tim2,
            Remap::Tim3NoRemap => TimerKind::Tim3,
            Remap::Tim3PartialRemap => TimerKind::Tim3,
            Remap::Tim3FullRemap => TimerKind::Tim3,
            Remap::Tim4NoRemap => TimerKind::Tim4,
            Remap::Tim4Remap => TimerKind::Tim4,
        }
    }

    pub open spec fn spec_remap_bits(self) -> u8 {
        match self {
            Remap::Tim1NoRemap => 0b00,
            Remap::Tim1FullRemap => 0b11,
            Remap::Tim2NoRemap => 0b00,
            Remap::Tim2PartialRemap1 => 0b01,
            Remap::Tim2PartialRemap2 => 0b10,
            Remap::Tim2FullRemap => 0b11,
            Remap::Tim3NoRemap => 0b00,
            Remap::Tim3PartialRemap => 0b10,
            Remap::Tim3FullRemap => 0b11,
            Remap::Tim4NoRemap => 0b00,
            Remap::Tim4Remap => 0b01,
        }
    }

    /// The value of the timer's remap field that selects this mapping.
    pub fn remap_bits(self) -> (r: u8)
        ensures
            r == self.spec_remap_bits(),
    {
        match self {
            Remap::Tim1NoRemap => 0b00,
            Remap::Tim1FullRemap => 0b11,
            Remap::Tim2NoRemap => 0b00,
            Remap::Tim2PartialRemap1 => 0b01,
            Remap::Tim2PartialRemap2 => 0b10,
            Remap::Tim2FullRemap => 0b11,
            Remap::Tim3NoRemap => 0b00,
            Remap::Tim3PartialRemap => 0b10,
            Remap::Tim3FullRemap => 0b11,
            Remap::Tim4NoRemap => 0b00,
            Remap::Tim4Remap => 0b01,
        }
    }

    /// The pins routed to channels 1 to 4 under this mapping.
    pub open spec fn spec_pins(self) -> (Pin, Pin, Pin, Pin) {
        match self {
            Remap::Tim1NoRemap => (Pin::PA8, Pin::PA9, Pin::PA10, Pin::PA11),
            Remap::Tim1FullRemap => (Pin::PE9, Pin::PE11, Pin::PE13, Pin::PE14),
            Remap::Tim2NoRemap => (Pin::PA0, Pin::PA1, Pin::PA2, Pin::PA3),
            Remap::Tim2PartialRemap1 => (Pin::PA15, Pin::PB3, Pin::PA2, Pin::PA3),
            Remap::Tim2PartialRemap2 => (Pin::PA0, Pin::PA1, Pin::PB10, Pin::PB11),
            Remap::Tim2FullRemap => (Pin::PA15, Pin::PB3, Pin::PB10, Pin::PB11),
            Remap::Tim3NoRemap => (Pin::PA6, Pin::PA7, Pin::PB0, Pin::PB1),
            Remap::Tim3PartialRemap => (Pin::PB4, Pin::PB5, Pin::PB0, Pin::PB1),
            Remap::Tim3FullRemap => (Pin::PC6, Pin::PC7, Pin::PC8, Pin::PC9),
            Remap::Tim4NoRemap => (Pin::PB6, Pin::PB7, Pin::PB8, Pin::PB9),
            Remap::Tim4Remap => (Pin::PD12, Pin::PD13, Pin::PD14, Pin::PD15),
        }
    }

    pub open spec fn spec_pin_for(self, ch: Channel) -> Pin {
        match ch {
            Channel::C1 => self.spec_pins().0,
            Channel::C2 => self.spec_pins().1,
            Channel::C3 => self.spec_pins().2,
            Channel::C4 => self.spec_pins().3,
        }
    }

    /// The pin routed to `ch` under this mapping.
    pub fn pin_for(self, ch: Channel) -> (r: Pin)
        ensures
            r == self.spec_pin_for(ch),
    {
        let (p1, p2, p3, p4) = match self {
            Remap::Tim1NoRemap => (Pin::PA8, Pin::PA9, Pin::PA10, Pin::PA11),
            Remap::Tim1FullRemap => (Pin::PE9, Pin::PE11, Pin::PE13, Pin::PE14),
            Remap::Tim2NoRemap => (Pin::PA0, Pin::PA1, Pin::PA2, Pin::PA3),
            Remap::Tim2PartialRemap1 => (Pin::PA15, Pin::PB3, Pin::PA2, Pin::PA3),
            Remap::Tim2PartialRemap2 => (Pin::PA0, Pin::PA1, Pin::PB10, Pin::PB11),
            Remap::Tim2FullRemap => (Pin::PA15, Pin::PB3, Pin::PB10, Pin::PB11),
            Remap::Tim3NoRemap => (Pin::PA6, Pin::PA7, Pin::PB0, Pin::PB1),
            Remap::Tim3PartialRemap => (Pin::PB4, Pin::PB5, Pin::PB0, Pin::PB1),
            Remap::Tim3FullRemap => (Pin::PC6, Pin::PC7, Pin::PC8, Pin::PC9),
            Remap::Tim4NoRemap => (Pin::PB6, Pin::PB7, Pin::PB8, Pin::PB9),
            Remap::Tim4Remap => (Pin::PD12, Pin::PD13, Pin::PD14, Pin::PD15),
        };
        match ch {
            Channel::C1 => p1,
            Channel::C2 => p2,
            Channel::C3 => p3,
            Channel::C4 => p4,
        }
    }
}

/// Pins that can carry channel 1 of a timer under some mapping.
pub trait Ch1 {
    /// The pin this value stands for.
    spec fn ch1_pin(&self) -> Pin;

    /// Whether `remap` routes channel 1 to this pin.
    fn routes_ch1(&self, remap: Remap) -> (r: bool)
        ensures
            r == (remap.spec_pins().0 == self.ch1_pin()),
    ;
}

impl Ch1 for Pin {
    open spec fn ch1_pin(&self) -> Pin {
        *self
    }

    fn routes_ch1(&self, remap: Remap) -> (r: bool) {
        remap.pin_for(Channel::C1) == *self
    }
}

/// Pins that can carry channel 2 of a timer under some mapping.
pub trait Ch2 {
    /// The pin this value stands for.
    spec fn ch2_pin(&self) -> Pin;

    /// Whether `remap` routes channel 2 to this pin.
    fn routes_ch2(&self, remap: Remap) -> (r: bool)
        ensures
            r == (remap.spec_pins().1 == self.ch2_pin()),
    ;
}

impl Ch2 for Pin {
    open spec fn ch2_pin(&self) -> Pin {
        *self
    }

    fn routes_ch2(&self, remap: Remap) -> (r: bool) {
        remap.pin_for(Channel::C2) == *self
    }
}

/// Pins that can carry channel 3 of a timer under some mapping.
pub trait Ch3 {
    /// The pin this value stands for.
    spec fn ch3_pin(&self) -> Pin;

    /// Whether `remap` routes channel 3 to this pin.
    fn routes_ch3(&self, remap: Remap) -> (r: bool)
        ensures
            r == (remap.spec_pins().2 == self.ch3_pin()),
    ;
}

impl Ch3 for Pin {
    open spec fn ch3_pin(&self) -> Pin {
        *self
    }

    fn routes_ch3(&self, remap: Remap) -> (r: bool) {
        remap.pin_for(Channel::C3) == *self
    }
}

/// Pins that can carry channel 4 of a timer under some mapping.
pub trait Ch4 {
    /// The pin this value stands for.
    spec fn ch4_pin(&self) -> Pin;

    /// Whether `remap` routes channel 4 to this pin.
    fn routes_ch4(&self, remap: Remap) -> (r: bool)
        ensures
            r == (remap.spec_pins().3 == self.ch4_pin()),
    ;
}

impl Ch4 for Pin {
    open spec fn ch4_pin(&self) -> Pin {
        *self
    }

    fn routes_ch4(&self, remap: Remap) -> (r: bool) {
        remap.pin_for(Channel::C4) == *self
    }
}

/// Checks that `remap` routes `ch` to `pin`, and gives the remap field value
/// to program. A mismatch is reported before anything is written.
pub fn channel_remap(remap: Remap, ch: Channel, pin: Pin) -> (r: Result<u8, RemapError>)
    ensures
        remap.spec_pin_for(ch) == pin ==> r == Ok::<u8, RemapError>(remap.spec_remap_bits()),
        remap.spec_pin_for(ch) != pin ==> r == Err::<u8, RemapError>(RemapError::PinNotRouted),
{
    let routed = match ch {
        Channel::C1 => pin.routes_ch1(remap),
        Channel::C2 => pin.routes_ch2(remap),
        Channel::C3 => pin.routes_ch3(remap),
        Channel::C4 => pin.routes_ch4(remap),
    };
    if routed {
        Ok(remap.remap_bits())
    } else {
        Err(RemapError::PinNotRouted)
    }
}

} // verus!
