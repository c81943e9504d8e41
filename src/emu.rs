use vstd::prelude::*;

verus! {

/// Run state of an emulation session kept by a host: whether it is paused
/// or running, and how many ticks have elapsed.
pub struct EmuContext {
    pub paused: bool,
    pub running: bool,
    pub ticks: u64,
}

impl Default for EmuContext {
    /// A session that is neither paused nor running, at tick zero.
    fn default() -> (r: EmuContext)
        ensures
            !r.paused,
            !r.running,
            r.ticks == 0,
    {
        EmuContext { paused: false, running: false, ticks: 0 }
    }
}

} // verus!
