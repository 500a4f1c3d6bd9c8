use vstd::prelude::*;

verus! {

/// Relies on `cortex_m::peripheral::syst::SystClkSource`: a field-less enum
/// with the variants `Core` and `External`, which the SysTick model records
/// as the counter's clock source.
#[verifier::external_type_specification]
pub struct ExSystClkSource(cortex_m::peripheral::syst::SystClkSource);

} // verus!
