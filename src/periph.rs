use vstd::prelude::*;
use cortex_m::peripheral::syst::SystClkSource;

verus! {

/// The general-purpose timer blocks a device may carry.
#[derive(Clone, Copy, Debug, PartialEq, Eq, Structural)]
pub enum TimerKind {
    Tim1,
    Tim2,
    Tim3,
    Tim4,
    Tim5,
    Tim6,
    Tim7,
    Tim8,
    Tim15,
    Tim16,
    Tim17,
}

/// The peripheral bus a timer block is clocked from.
#[derive(Clone, Copy, Debug, PartialEq, Eq, Structural)]
pub enum Bus {
    Apb1,
    Apb2,
}

impl TimerKind {
    pub open spec fn spec_bus(self) -> Bus {
        match self {
            TimerKind::Tim1 | TimerKind::Tim8 | TimerKind::Tim15 | TimerKind::Tim16
            | TimerKind::Tim17 => Bus::Apb2,
            _ => Bus::Apb1,
        }
    }

    /// The bus whose timer clock drives this block.
    pub fn bus(self) -> (r: Bus)
        ensures
            r == self.spec_bus(),
    {
        match self {
            TimerKind::Tim1 | TimerKind::Tim8 | TimerKind::Tim15 | TimerKind::Tim16
            | TimerKind::Tim17 => Bus::Apb2,
            _ => Bus::Apb1,
        }
    }

    pub open spec fn spec_has_master_mode(self) -> bool {
        !(self is Tim15 || self is Tim16 || self is Tim17)
    }

    /// Whether the block can drive the trigger output of a master/slave chain.
    pub fn has_master_mode(self) -> (r: bool)
        ensures
            r == self.spec_has_master_mode(),
    {
        match self {
            TimerKind::Tim15 | TimerKind::Tim16 | TimerKind::Tim17 => false,
            _ => true,
        }
    }

    pub open spec fn spec_dbg_stop_bit(self) -> u32 {
        match self {
            TimerKind::Tim1 => 10,
            TimerKind::Tim2 => 11,
            TimerKind::Tim3 => 12,
            TimerKind::Tim4 => 13,
            TimerKind::Tim8 => 17,
            TimerKind::Tim5 => 18,
            TimerKind::Tim6 => 19,
            TimerKind::Tim7 => 20,
            TimerKind::Tim15 => 22,
            TimerKind::Tim16 => 23,
            TimerKind::Tim17 => 24,
        }
    }

    /// Position of the block's "stop in debug halt" bit in the debug control register.
    pub fn dbg_stop_bit(self) -> (r: u32)
        ensures
            r == self.spec_dbg_stop_bit(),
            r < 32,
    {
        match self {
            TimerKind::Tim1 => 10,
            TimerKind::Tim2 => 11,
            TimerKind::Tim3 => 12,
            TimerKind::Tim4 => 13,
            TimerKind::Tim8 => 17,
            TimerKind::Tim5 => 18,
            TimerKind::Tim6 => 19,
            TimerKind::Tim7 => 20,
            TimerKind::Tim15 => 22,
            TimerKind::Tim16 => 23,
            TimerKind::Tim17 => 24,
        }
    }
}

/// What a master-capable timer sends on its trigger output.
#[derive(Clone, Copy, Debug, PartialEq, Eq, Structural)]
pub enum MasterMode {
    Reset,
    Enable,
    Update,
    ComparePulse,
    CompareOc1,
    CompareOc2,
    CompareOc3,
    CompareOc4,
}

/// The frozen clock configuration: the input frequency of each timer source, in Hz.
#[derive(Clone, Copy, Debug, PartialEq, Eq, Structural)]
pub struct Clocks {
    pub hclk: u32,
    pub pclk1_tim: u32,
    pub pclk2_tim: u32,
}

impl Clocks {
    /// Core (AHB) clock, which drives the SysTick counter.
    pub fn hclk(&self) -> (r: u32)
        ensures
            r == self.hclk,
    {
        self.hclk
    }

    pub open spec fn spec_timer_clock(self, bus: Bus) -> u32 {
        match bus {
            Bus::Apb1 => self.pclk1_tim,
            Bus::Apb2 => self.pclk2_tim,
        }
    }

    /// Timer input clock of the given bus.
    pub fn timer_clock(&self, bus: Bus) -> (r: u32)
        ensures
            r == self.spec_timer_clock(bus),
    {
        match bus {
            Bus::Apb1 => self.pclk1_tim,
            Bus::Apb2 => self.pclk2_tim,
        }
    }
}

/// Value of the auto-reload register after a reset of the block.
pub const ARR_RESET: u16 = 0xffff;

/// The register block of a general-purpose timer, as plain values.
///
/// `psc` is the prescaler register as written by software; `psc_active` is its
/// shadow, which the counter uses and which is loaded only on an update
/// event. `psc_cnt` is the internal prescaler counter.
#[derive(Clone, Copy, Debug, PartialEq, Eq, Structural)]
pub struct Tim {
    pub kind: TimerKind,
    pub clock_enabled: bool,
    pub cen: bool,
    pub urs: bool,
    pub uie: bool,
    pub uif: bool,
    pub psc: u16,
    pub psc_active: u16,
    pub arr: u16,
    pub cnt: u16,
    pub psc_cnt: u16,
    pub mms: MasterMode,
}

/// Register values after a domain reset; the clock gate is kept.
pub open spec fn tim_reset_state(t: Tim) -> Tim {
    Tim {
        kind: t.kind,
        clock_enabled: t.clock_enabled,
        cen: false,
        urs: false,
        uie: false,
        uif: false,
        psc: 0,
        psc_active: 0,
        arr: ARR_RESET,
        cnt: 0,
        psc_cnt: 0,
        mms: MasterMode::Reset,
    }
}

/// One cycle of the input clock.
pub open spec fn tim_tick(t: Tim) -> Tim {
    if !t.cen {
        t
    } else if t.psc_cnt < t.psc_active {
        Tim { psc_cnt: (t.psc_cnt + 1) as u16, ..t }
    } else if t.cnt < t.arr {
        Tim { psc_cnt: 0, cnt: (t.cnt + 1) as u16, ..t }
    } else {
        Tim { psc_cnt: 0, cnt: 0, uif: true, ..t }
    }
}

/// A software-generated update event: the prescaler shadow is loaded and both
/// counters restart; the update flag is raised unless `urs` restricts it to
/// overflows.
pub open spec fn tim_update(t: Tim) -> Tim {
    Tim { psc_active: t.psc, cnt: 0, psc_cnt: 0, uif: t.uif || !t.urs, ..t }
}

impl Tim {
    /// A block of the given kind as it stands after power-on, clock gate off.
    pub fn new(kind: TimerKind) -> (r: Tim)
        ensures
            r == tim_reset_state(Tim { kind, clock_enabled: false, ..r }),
            !r.clock_enabled,
    {
        Tim {
            kind,
            clock_enabled: false,
            cen: false,
            urs: false,
            uie: false,
            uif: false,
            psc: 0,
            psc_active: 0,
            arr: ARR_RESET,
            cnt: 0,
            psc_cnt: 0,
            mms: MasterMode::Reset,
        }
    }

    /// Sets the block's clock-gate bit.
    pub fn rcc_enable(&mut self)
        ensures
            *final(self) == (Tim { clock_enabled: true, ..*old(self) }),
    {
        self.clock_enabled = true;
    }

    /// Pulses the block's domain reset: every register returns to its reset value.
    pub fn rcc_reset(&mut self)
        ensures
            *final(self) == tim_reset_state(*old(self)),
    {
        self.cen = false;
        self.urs = false;
        self.uie = false;
        self.uif = false;
        self.psc = 0;
        self.psc_active = 0;
        self.arr = ARR_RESET;
        self.cnt = 0;
        self.psc_cnt = 0;
        self.mms = MasterMode::Reset;
    }

    /// Writes the update-generation bit.
    pub fn generate_update(&mut self)
        ensures
            *final(self) == tim_update(*old(self)),
    {
        self.psc_active = self.psc;
        self.cnt = 0;
        self.psc_cnt = 0;
        self.uif = self.uif || !self.urs;
    }

    /// Advances the block by one cycle of its input clock.
    pub fn tick(&mut self)
        ensures
            *final(self) == tim_tick(*old(self)),
    {
        if !self.cen {
        } else if self.psc_cnt < self.psc_active {
            self.psc_cnt = self.psc_cnt + 1;
        } else if self.cnt < self.arr {
            self.psc_cnt = 0;
            self.cnt = self.cnt + 1;
        } else {
            self.psc_cnt = 0;
            self.cnt = 0;
            self.uif = true;
        }
    }
}

/// The debug control register, with one "stop in debug halt" bit per timer.
#[derive(Clone, Copy, Debug, PartialEq, Eq, Structural)]
pub struct DebugControl {
    pub cr: u32,
}

/// The SysTick register block as plain values.
///
/// `current` counts down to zero and is then reloaded from `reload`; reaching
/// zero from one sets `countflag`, which a read of the status clears.
pub struct SysTick {
    pub clock_source: SystClkSource,
    pub enabled: bool,
    pub tickint: bool,
    pub reload: u32,
    pub current: u32,
    pub countflag: bool,
}

/// One cycle of the SysTick input clock.
pub open spec fn syst_tick(s: SysTick) -> SysTick {
    if !s.enabled {
        s
    } else if s.current == 0 {
        SysTick { current: s.reload, ..s }
    } else if s.current == 1 {
        SysTick { current: 0, countflag: true, ..s }
    } else {
        SysTick { current: (s.current - 1) as u32, ..s }
    }
}

impl SysTick {
    /// The values the SysTick model starts from: counter disabled, external
    /// clock source, interrupt off, flag clear. The hardware leaves the reload
    /// and current registers undefined at reset; the model starts them at zero.
    pub fn new() -> (r: SysTick)
        ensures
            r.clock_source == SystClkSource::External,
            !r.enabled,
            !r.tickint,
            !r.countflag,
            r.reload == 0,
            r.current == 0,
    {
        SysTick {
            clock_source: SystClkSource::External,
            enabled: false,
            tickint: false,
            reload: 0,
            current: 0,
            countflag: false,
        }
    }

    /// Advances the counter by one cycle of its input clock.
    pub fn tick(&mut self)
        ensures
            *final(self) == syst_tick(*old(self)),
    {
        if !self.enabled {
        } else if self.current == 0 {
            self.current = self.reload;
        } else if self.current == 1 {
            self.current = 0;
            self.countflag = true;
        } else {
            self.current = self.current - 1;
        }
    }
}

} // verus!
