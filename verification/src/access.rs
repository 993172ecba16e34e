use crate::definitions::errors::{ExecutionError, ExecutionErrorView};
use crate::definitions::utils::{
    byte_bytes, from_byte, from_half, from_word, half_bytes, half_value, padded, to_byte_bytes,
    to_half_bytes, to_word_bytes, word_bytes, word_value,
};
use crate::memory::{Memory, MemoryView};
use vstd::prelude::*;
use vstd::string::StringExecFns;

verus! {

/// Whether the host can hold every byte of an access at `addr`.
pub open spec fn host_reaches(addr: u32) -> bool {
    addr + 8 <= usize::MAX
}

pub open spec fn out_of_reach() -> ExecutionErrorView {
    ExecutionErrorView::MemError("The address is beyond what the host can hold"@)
}

/// Whether `size` is the size of a byte, a halfword or a word.
pub open spec fn is_access_size(size: usize) -> bool {
    size == 1 || size == 2 || size == 4
}

/// The word that the bytes of a load of `size` bytes widen to: they are
/// its low bytes, the most significant first, and the rest is zero.
pub open spec fn widened(bytes: Seq<u8>, size: usize) -> u32 {
    if size == 1 {
        bytes[0] as u32
    } else if size == 2 {
        half_value(bytes) as u32
    } else {
        word_value(bytes) as u32
    }
}

/// The low `size` bytes of `w`, the most significant first.
pub open spec fn narrowed(w: u32, size: usize) -> Seq<u8> {
    if size == 1 {
        byte_bytes(w)
    } else if size == 2 {
        half_bytes(w)
    } else {
        word_bytes(w)
    }
}

/// What a load of `size` bytes at `addr` gives, where no device decides
/// it: memory afterwards, and the word loaded or the error. `None` where a
/// device decides.
pub open spec fn loaded(m: MemoryView, addr: u32, size: usize) -> Option<
    (MemoryView, Result<u32, ExecutionErrorView>),
> {
    if !host_reaches(addr) {
        Some((m, Err(out_of_reach())))
    } else {
        match m.refusal(addr) {
            Some((lo, hi)) => Some(
                (
                    m,
                    Err(
                        ExecutionErrorView::of_mem_error(
                            crate::definitions::errors::MemErrorView::PermError(
                                lo,
                                hi,
                                addr as usize,
                            ),
                        ),
                    ),
                ),
            ),
            None => match m.device_at(addr) {
                Some(_) => None,
                None => Some(
                    (
                        m.grown(addr + size),
                        Ok(widened(m.bytes_at(addr as int, size as nat), size)),
                    ),
                ),
            },
        }
    }
}

/// What a store of the low `size` bytes of `word` at `addr` gives, where
/// no device decides it: memory afterwards, and the error if there is one.
/// `None` where a device decides.
pub open spec fn stored(m: MemoryView, word: u32, addr: u32, size: usize) -> Option<
    (MemoryView, Option<ExecutionErrorView>),
> {
    if !host_reaches(addr) {
        Some((m, Some(out_of_reach())))
    } else {
        match m.refusal(addr) {
            Some((lo, hi)) => Some(
                (
                    m,
                    Some(
                        ExecutionErrorView::of_mem_error(
                            crate::definitions::errors::MemErrorView::PermError(
                                lo,
                                hi,
                                addr as usize,
                            ),
                        ),
                    ),
                ),
            ),
            None => match m.device_at(addr) {
                Some(_) => None,
                None => Some(
                    (m.grown(addr + size).written(addr as int, narrowed(word, size)), None),
                ),
            },
        }
    }
}

/// Whether the host can hold every byte of an access at `addr`.
pub fn reaches(addr: u32) -> (r: bool)
    ensures
        r == host_reaches(addr),
{
    addr as u64 + 8 <= usize::MAX as u64
}

/// Loads a byte, a halfword or a word, and widens it to a word. Where a
/// device answers, the word is what the device gave, and memory is as it was.
pub fn load_sized(mem: &mut Memory, addr: u32, size: usize) -> (res: Result<u32, ExecutionError>)
    requires
        is_access_size(size),
    ensures
        match loaded(old(mem)@, addr, size) {
            Some((m, r)) => {
                &&& final(mem)@ == m
                &&& match r {
                    Ok(v) => res matches Ok(w) && w == v,
                    Err(e) => res matches Err(x) && x@ == e,
                }
            },
            None => {
                &&& final(mem)@ == old(mem)@
                &&& res matches Err(x) ==> x is MemError
            },
        },
{
    if !reaches(addr) {
        return Err(
            ExecutionError::MemError(
                String::from_str("The address is beyond what the host can hold"),
            ),
        );
    }
    match mem.load(addr, size) {
        Ok(bytes) => Ok(
            if size == 1 {
                from_byte(bytes.as_slice())
            } else if size == 2 {
                from_half(bytes.as_slice())
            } else {
                from_word(bytes.as_slice())
            },
        ),
        Err(e) => Err(ExecutionError::from(e)),
    }
}

/// Stores the low byte, the low halfword or the whole of `word`. Where a
/// device takes it, memory is as it was.
pub fn store_sized(mem: &mut Memory, word: u32, addr: u32, size: usize) -> (res: Result<
    (),
    ExecutionError,
>)
    requires
        is_access_size(size),
    ensures
        match stored(old(mem)@, word, addr, size) {
            Some((m, e)) => {
                &&& final(mem)@ == m
                &&& match e {
                    None => res is Ok,
                    Some(e) => res matches Err(x) && x@ == e,
                }
            },
            None => {
                &&& final(mem)@ == old(mem)@
                &&& res matches Err(x) ==> x is MemError
            },
        },
{
    if !reaches(addr) {
        return Err(
            ExecutionError::MemError(
                String::from_str("The address is beyond what the host can hold"),
            ),
        );
    }
    let done = if size == 1 {
        let v = to_byte_bytes(word);
        assert(padded(v@, 1) =~= v@);
        mem.store(addr as usize, 1, v.as_slice())
    } else if size == 2 {
        let v = to_half_bytes(word);
        assert(padded(v@, 2) =~= v@);
        mem.store(addr as usize, 2, v.as_slice())
    } else {
        let v = to_word_bytes(word);
        assert(padded(v@, 4) =~= v@);
        mem.store(addr as usize, 4, v.as_slice())
    };
    match done {
        Ok(_) => Ok(()),
        Err(e) => Err(ExecutionError::from(e)),
    }
}

} // verus!
