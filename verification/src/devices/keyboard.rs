use super::MemoryMapped;
use crate::definitions::errors::{MemError, MemErrorView};
use crate::definitions::text::{hex, hex_text, zero_padded};
use crate::definitions::utils::{from_sizeN, padded};
use vstd::prelude::*;
use vstd::string::StringExecFns;

verus! {

/// The keyboard: a device that hands out what was typed from its low four
/// bytes, and keeps a mode byte after them.
pub struct Keyboard {
    pub range_lower: u32,
    pub range_upper: u32,
    buffer: Vec<u8>,
    mode: u8,
}

pub struct KeyboardView {
    pub range_lower: u32,
    pub range_upper: u32,
    /// What was typed and not yet read, its final newline included.
    pub buffer: Seq<u8>,
    pub mode: u8,
}

impl View for Keyboard {
    type V = KeyboardView;

    closed spec fn view(&self) -> KeyboardView {
        KeyboardView {
            range_lower: self.range_lower,
            range_upper: self.range_upper,
            buffer: self.buffer@,
            mode: self.mode,
        }
    }
}

pub open spec fn not_readable(dir: int) -> MemErrorView {
    MemErrorView::MappedDeviceError(
        "Tried to read from non-readable address 0x"@ + zero_padded(hex_text(dir as nat), 8)
            + " in device 'Keyboard'"@,
    )
}

pub open spec fn not_writeable(dir: int) -> MemErrorView {
    MemErrorView::MappedDeviceError(
        "Tried to write to non-writeable address 0x"@ + zero_padded(hex_text(dir as nat), 8)
            + " in device 'Keyboard'"@,
    )
}

impl KeyboardView {
    /// Whether a read at `dir` is one of the typed content.
    pub open spec fn readable(self, dir: int) -> bool {
        dir < self.range_lower + 4
    }

    /// Whether a write of `size` bytes at `dir` is one of the mode byte.
    pub open spec fn writeable(self, dir: int, size: int) -> bool {
        dir == self.range_lower + 4 && dir + size < self.range_upper
    }

    /// The bytes that a read of `size` bytes hands out: what was typed
    /// without its last byte, the newline, cut or filled with zeros to `size`.
    pub open spec fn typed(self, size: nat) -> Seq<u8> {
        padded(
            if self.buffer.len() > 0 {
                self.buffer.drop_last()
            } else {
                self.buffer
            },
            size,
        )
    }
}

impl Keyboard {
    /// Takes `line`, as it was typed with its final newline, for the next read.
    pub fn type_line(&mut self, line: &[u8])
        ensures
            final(self)@ == (KeyboardView { buffer: line@, ..old(self)@ }),
    {
        self.buffer = vstd::slice::slice_to_vec(line);
    }

    pub fn mode(&self) -> (m: u8)
        ensures
            m == self@.mode,
    {
        self.mode
    }

    /// Tests whether a read at `dir` takes what was typed, so that a line
    /// has to be there before it.
    pub fn reads_typed(&self, dir: u32) -> (r: bool)
        ensures
            r == self@.readable(dir as int),
    {
        (dir as u64) < self.range_lower as u64 + 4
    }
}

impl MemoryMapped for Keyboard {
    /// A read of the low four bytes hands out what was typed and leaves
    /// nothing behind. A read of the mode fails.
    fn read(&mut self, dir: u32, size: usize) -> (res: Result<Vec<u8>, MemError>)
        ensures
            old(self)@.readable(dir as int) ==> {
                &&& res matches Ok(bytes)
                &&& bytes@ == old(self)@.typed(size as nat)
                &&& final(self)@ == (KeyboardView { buffer: Seq::empty(), ..old(self)@ })
            },
            !old(self)@.readable(dir as int) ==> {
                &&& res matches Err(e)
                &&& e@ == not_readable(dir as int)
                &&& final(self)@ == old(self)@
            },
    {
        if self.reads_typed(dir) {
            self.buffer.pop();
            let mut out: Vec<u8> = Vec::new();
            let mut i: usize = 0;
            while i < size
                invariant
                    i <= size,
                    out@ == padded(self.buffer@, i as nat),
                decreases size - i,
            {
                let b: u8 = if i < self.buffer.len() {
                    self.buffer[i]
                } else {
                    0
                };
                out.push(b);
                assert(out@ =~= padded(self.buffer@, (i + 1) as nat));
                i += 1;
            }
            self.buffer.clear();
            Ok(out)
        } else {
            let mut s = String::from_str("Tried to read from non-readable address 0x");
            s.append(hex(dir as u64, 8).as_str());
            s.append(" in device 'Keyboard'");
            Err(MemError::MappedDeviceError(s))
        }
    }

    /// A write of the mode byte sets the mode to the first byte of
    /// `contents`. Any other write fails.
    fn write(&mut self, dir: usize, size: usize, contents: &[u8]) -> (res: Result<(), MemError>)
        ensures
            old(self)@.writeable(dir as int, size as int) ==> {
                &&& res is Ok
                &&& final(self)@ == (KeyboardView { mode: padded(contents@, 1)[0], ..old(self)@ })
            },
            !old(self)@.writeable(dir as int, size as int) ==> {
                &&& res matches Err(e)
                &&& e@ == not_writeable(dir as int)
                &&& final(self)@ == old(self)@
            },
    {
        let at_mode = dir as u64 == self.range_lower as u64 + 4;
        let fits = match dir.checked_add(size) {
            Some(end) => (end as u64) < self.range_upper as u64,
            None => false,
        };
        if at_mode && fits {
            let b = from_sizeN::<1>(contents);
            self.mode = b[0];
            Ok(())
        } else {
            let mut s = String::from_str("Tried to write to non-writeable address 0x");
            s.append(hex(dir as u64, 8).as_str());
            s.append(" in device 'Keyboard'");
            Err(MemError::MappedDeviceError(s))
        }
    }
}

/// Makes the keyboard of the default layout: read content at
/// `0x80000008..=0x8000000b`, the mode at `0x8000000c..=0x8000000f`.
pub fn new() -> (k: Keyboard)
    ensures
        k@ == (KeyboardView {
            range_lower: 0x80000008,
            range_upper: 0x8000000f,
            buffer: Seq::empty(),
            mode: 0,
        }),
{
    Keyboard { range_lower: 0x80000008, range_upper: 0x8000000f, buffer: Vec::new(), mode: 0 }
}

} // verus!
