//! The interrupt-mask state that the critical-section facade saves and restores.
use vstd::prelude::*;

verus! {

/// Whether architecture interrupts are enabled, as the kernel last set it.
pub struct InterruptState {
    enabled: bool,
}

impl InterruptState {
    pub closed spec fn is_enabled(&self) -> bool {
        self.enabled
    }

    /// Interrupts start enabled.
    pub fn new() -> (r: InterruptState)
        ensures
            r.is_enabled(),
    {
        InterruptState { enabled: true }
    }
}

/// Masks interrupts.
pub fn disable_interrupts(irq: &mut InterruptState)
    ensures
        !final(irq).is_enabled(),
{
    irq.enabled = false;
}

/// Unmasks interrupts.
pub fn enable_interrupts(irq: &mut InterruptState)
    ensures
        final(irq).is_enabled(),
{
    irq.enabled = true;
}

/// Whether interrupts are enabled.
pub fn interrupts_enabled(irq: &InterruptState) -> (r: bool)
    ensures
        r == irq.is_enabled(),
{
    irq.enabled
}

/// Enters a critical section: masks interrupts and returns the prior state,
/// to be handed to `unmask_interrupts` on the way out.
pub fn mask_interrupts(irq: &mut InterruptState) -> (prior: bool)
    ensures
        prior == old(irq).is_enabled(),
        !final(irq).is_enabled(),
{
    let prior = irq.enabled;
    disable_interrupts(irq);
    prior
}

/// Leaves a critical section: restores the state that `mask_interrupts` returned,
/// so that nested sections leave interrupts masked until the outermost ends.
pub fn unmask_interrupts(irq: &mut InterruptState, prior: bool)
    ensures
        final(irq).is_enabled() == prior,
{
    if prior {
        enable_interrupts(irq);
    } else {
        disable_interrupts(irq);
    }
}

} // verus!
