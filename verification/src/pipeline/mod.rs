pub mod laws;
pub mod pipelined;
pub mod pipelined_with_held_memory;
pub mod stages;
