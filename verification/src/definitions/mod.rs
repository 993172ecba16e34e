pub mod arch;
pub mod errors;
pub mod relf_headers;
pub mod stats;
pub mod text;
pub mod utils;

pub use utils::{from_byte, from_half, from_sizeN, from_word, Byte, Half, Word};
pub use relf_headers::{RelfHeader32, SectionHeader32};
