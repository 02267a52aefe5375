use vstd::prelude::*;

verus! {

/// The process-wide cancellation flag: `Running` until an out-of-band
/// interrupt requests a stop, then `Stopping` forever — a single monotonic
/// flip, never reversed. The UI pump loop polls it once per iteration and
/// exits as soon as it shows `Stopping`; the worker is not ended by this
/// flag but by a command through the mailbox, or by mailbox closure.
pub struct LifecycleFlag {
    stopping: bool,
}

impl LifecycleFlag {
    pub closed spec fn is_stopping(&self) -> bool {
        self.stopping
    }

    /// The process starts running.
    pub fn new() -> (f: LifecycleFlag)
        ensures
            !f.is_stopping(),
    {
        LifecycleFlag { stopping: false }
    }

    /// The interrupt's transition: `Running -> Stopping`. Repeating it
    /// changes nothing; nothing ever sets the flag back.
    pub fn request_stop(&mut self)
        ensures
            final(self).is_stopping(),
    {
        self.stopping = true;
    }

    /// The pump loop's per-iteration check: pump exactly while not stopping.
    pub fn should_pump(&self) -> (r: bool)
        ensures
            r == !self.is_stopping(),
    {
        !self.stopping
    }
}

/// One observation step: the flag after an iteration that may have seen an
/// interrupt. There is no transition out of `Stopping`.
pub open spec fn lifecycle_next(stopping: bool, interrupt: bool) -> bool {
    stopping || interrupt
}

/// The flag after a whole sequence of iterations.
pub open spec fn lifecycle_run(stopping: bool, interrupts: Seq<bool>) -> bool
    decreases interrupts.len(),
{
    if interrupts.len() == 0 {
        stopping
    } else {
        lifecycle_run(lifecycle_next(stopping, interrupts[0]), interrupts.skip(1))
    }
}

/// Termination law: once the flag shows `Stopping`, no sequence of further
/// events brings it back — so a pump loop gated on `should_pump` performs
/// no further iterations after the transition, and shutdown (tearing the
/// UI down, then joining the worker) proceeds.
pub proof fn lemma_stop_is_terminal(interrupts: Seq<bool>)
    ensures
        lifecycle_run(true, interrupts),
    decreases interrupts.len(),
{
    if interrupts.len() > 0 {
        lemma_stop_is_terminal(interrupts.skip(1));
    }
}

} // verus!
