#![allow(non_snake_case)]
#![allow(non_camel_case_types)]

pub mod definitions;
pub mod devices;
pub mod memory;
pub mod loader;
pub mod access;
pub mod alu;
pub mod interpreter;
pub mod pipeline;
