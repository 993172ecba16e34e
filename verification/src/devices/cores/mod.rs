pub mod core_traits;
pub mod pipelined_core;
