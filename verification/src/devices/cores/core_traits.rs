use crate::definitions::errors::{ExecutionError, HeaderError};
use crate::definitions::stats::Stats;
use vstd::prelude::*;

verus! {

/// A core that can be loaded and run.
pub trait Runnable {
    /// Whether the core is in a state that it can run from.
    spec fn runnable(&self) -> bool;

    /// Runs until the core halts, fails, or has run for `fuel` cycles, and
    /// counts in `stat` what it did. Returns whether the core has halted.
    fn run(&mut self, stat: &mut Stats, fuel: u64) -> (res: Result<bool, ExecutionError>)
        requires
            old(self).runnable(),
            old(stat).cycle_count + fuel <= usize::MAX,
            old(stat).instruction_count + fuel <= isize::MAX,
        ensures
            final(self).runnable(),
            final(stat).cycle_count - old(stat).cycle_count <= fuel,
    ;

    /// Loads an executable image and sets the entry address.
    fn load_RELF(&mut self, image: &[u8]) -> (res: Result<(), HeaderError>)
        requires
            old(self).runnable(),
        ensures
            final(self).runnable(),
    ;

    /// Loads a raw image from address 0 on and sets the entry address.
    fn load_bin(&mut self, image: &[u8], entry: u32)
        requires
            old(self).runnable(),
        ensures
            final(self).runnable(),
    ;
}

/// A core whose privilege can be set from outside.
pub trait Privileged {
    fn set_privilege(&mut self, privilege: bool)
    ;
}

} // verus!
