use crate::definitions::errors::MemError;
use vstd::prelude::*;

pub mod console;
pub mod cores;
pub mod keyboard;
pub mod mapping;
pub mod registers;

verus! {

/// A device that answers loads and stores on a range of addresses.
///
/// Memory hands every access to a mapped range on to the device, with the
/// full address and the size of the access. A read that succeeds returns
/// exactly as many bytes as were asked for.
pub trait MemoryMapped {
    fn read(&mut self, dir: u32, size: usize) -> (res: Result<Vec<u8>, MemError>)
        ensures
            res matches Ok(bytes) ==> bytes@.len() == size,
    ;

    fn write(&mut self, dir: usize, size: usize, contents: &[u8]) -> (res: Result<(), MemError>)
    ;
}

} // verus!
