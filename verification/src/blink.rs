//! The LED blinking of the example programs: on each tick the LED changes
//! level, and a flag remembers which level it was last driven to.
use vstd::prelude::*;

verus! {

/// A level for the LED pin.
#[derive(PartialEq, Eq, Structural, Clone, Copy, Debug)]
pub enum LedLevel {
    Low,
    High,
}

/// What one tick does: the level to drive the LED to, if any, and the new
/// value of the flag.
#[derive(PartialEq, Eq, Structural, Clone, Copy, Debug)]
pub struct BlinkStep {
    pub level: Option<LedLevel>,
    pub flag: bool,
}

/// The level that the flag `flag` stands for.
pub open spec fn level_of(flag: bool) -> LedLevel {
    if flag {
        LedLevel::High
    } else {
        LedLevel::Low
    }
}

/// One tick of the blinking loop: with the flag set, drive the LED low and
/// clear the flag; with it clear, drive the LED high and set it.
pub open spec fn tick(flag: bool) -> BlinkStep {
    BlinkStep { level: Some(level_of(!flag)), flag: !flag }
}

/// One tick of the blinking loop (see [`tick`]).
pub fn toggle(flag: bool) -> (s: BlinkStep)
    ensures
        s == tick(flag),
{
    if flag {
        BlinkStep { level: Some(LedLevel::Low), flag: false }
    } else {
        BlinkStep { level: Some(LedLevel::High), flag: true }
    }
}

/// One SysTick interrupt: core 0 toggles the LED, any other core leaves the
/// LED and the flag as they are.
pub fn systick_handler(cpu_id: u32, flag: bool) -> (s: BlinkStep)
    ensures
        cpu_id == 0 ==> s == tick(flag),
        cpu_id != 0 ==> s.flag == flag && s.level is None,
{
    if cpu_id == 0 {
        toggle(flag)
    } else {
        BlinkStep { level: None, flag }
    }
}

/// Two ticks bring the flag back to where it was, and they drive the LED to
/// the two different levels, the second being the one the flag stood for.
pub proof fn lemma_two_ticks_restore(flag: bool)
    ensures
        tick(tick(flag).flag).flag == flag,
        tick(flag).level != tick(tick(flag).flag).level,
        tick(tick(flag).flag).level == Some(level_of(flag)),
{
}

} // verus!
