pub mod execution;
pub mod instruction_decode;
pub mod instruction_fetch;
pub mod memory_stage;
pub mod write_back;
