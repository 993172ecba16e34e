use super::MemoryMapped;
use crate::definitions::errors::{MemError, MemErrorView};
use crate::definitions::text::{decimal, decimal_text, hex, hex_text, zero_padded};
use crate::definitions::utils::{from_sizeN, from_word, padded, word_value};
use vstd::prelude::*;
use vstd::slice::slice_subrange;
use vstd::string::StringExecFns;

verus! {

/// One line that the console was asked to print. Floating-point values
/// are kept as the bits that were written.
#[derive(Debug)]
pub enum Printed {
    /// An unsigned integer, printed in decimal.
    Integer(u32),
    /// The bits of a single-precision number.
    Float(u32),
    /// The bits of a double-precision number.
    Double(u64),
    /// Bytes, printed one character each.
    Text(Vec<u8>),
}

pub enum PrintedView {
    Integer(u32),
    Float(u32),
    Double(u64),
    Text(Seq<u8>),
}

impl View for Printed {
    type V = PrintedView;

    open spec fn view(&self) -> PrintedView {
        match self {
            Printed::Integer(n) => PrintedView::Integer(*n),
            Printed::Float(bits) => PrintedView::Float(*bits),
            Printed::Double(bits) => PrintedView::Double(*bits),
            Printed::Text(bytes) => PrintedView::Text(bytes@),
        }
    }
}

/// The number that the first eight bytes of `b` spell, most significant byte first.
pub open spec fn dword_value(b: Seq<u8>) -> int {
    word_value(b.subrange(0, 4)) * 0x1_0000_0000 + word_value(b.subrange(4, 8))
}

/// Reads a big-endian double word.
pub fn from_dword(contents: &[u8]) -> (d: u64)
    requires
        contents@.len() >= 8,
    ensures
        d == dword_value(contents@),
{
    let len: usize = contents.len();
    let hi: u32 = from_word(slice_subrange(contents, 0, 4));
    let lo: u32 = from_word(slice_subrange(contents, 4, 8));
    assert((((hi as u64) << 32) | (lo as u64)) == hi * 0x1_0000_0000 + lo) by (bit_vector);
    ((hi as u64) << 32) | (lo as u64)
}

/// The console: a device that prints what is written to its low four
/// bytes, in the way that its mode says, and takes its mode from any other write.
pub struct Console {
    pub range_lower: u32,
    pub range_upper: u32,
    mode: u8,
    printed: Vec<Printed>,
}

pub struct ConsoleView {
    pub range_lower: u32,
    pub range_upper: u32,
    /// 0 prints an integer, 1 a float, 2 a double, 3 text.
    pub mode: u8,
    /// The lines printed and not yet taken, oldest first.
    pub printed: Seq<PrintedView>,
}

impl View for Console {
    type V = ConsoleView;

    closed spec fn view(&self) -> ConsoleView {
        ConsoleView {
            range_lower: self.range_lower,
            range_upper: self.range_upper,
            mode: self.mode,
            printed: Seq::new(self.printed@.len(), |i: int| self.printed@[i]@),
        }
    }
}

pub open spec fn unknown_mode(mode: u8) -> MemErrorView {
    MemErrorView::MappedDeviceError("Console: Unknown print mode "@ + decimal_text(mode as nat))
}

pub open spec fn not_readable(dir: u32) -> MemErrorView {
    MemErrorView::MappedDeviceError(
        "Tried to read from non-readable device 'Console' at address "@ + zero_padded(
            hex_text(dir as nat),
            8,
        ),
    )
}

impl ConsoleView {
    /// Whether a write of `size` bytes at `dir` ends inside the low four
    /// bytes, and so prints.
    pub open spec fn prints(self, dir: int, size: int) -> bool {
        dir + size <= self.range_lower + 4
    }

    /// The line that a printing write of `contents` makes, if the mode is known.
    pub open spec fn line(self, contents: Seq<u8>) -> Option<PrintedView> {
        if self.mode == 0 {
            Some(PrintedView::Integer(word_value(padded(contents, 4)) as u32))
        } else if self.mode == 1 {
            Some(PrintedView::Float(word_value(padded(contents, 4)) as u32))
        } else if self.mode == 2 {
            Some(PrintedView::Double(dword_value(padded(contents, 8)) as u64))
        } else if self.mode == 3 {
            Some(PrintedView::Text(contents))
        } else {
            None
        }
    }

    /// The console after a write that succeeds.
    pub open spec fn after_write(self, dir: int, size: int, contents: Seq<u8>) -> ConsoleView {
        if self.prints(dir, size) {
            ConsoleView { printed: self.printed.push(self.line(contents)->0), ..self }
        } else {
            ConsoleView { mode: padded(contents, 1)[0], ..self }
        }
    }
}

impl Console {
    /// Takes the lines printed since the last call, oldest first.
    pub fn take_output(&mut self) -> (lines: Vec<Printed>)
        ensures
            lines@.len() == old(self)@.printed.len(),
            forall|i: int| 0 <= i < lines@.len() ==> (#[trigger] lines@[i])@ == old(self)@.printed[i],
            final(self)@ == (ConsoleView { printed: Seq::empty(), ..old(self)@ }),
    {
        let mut lines: Vec<Printed> = Vec::new();
        std::mem::swap(&mut lines, &mut self.printed);
        assert(self@.printed =~= Seq::empty());
        lines
    }

    /// The mode that the next printing write goes by.
    pub fn mode(&self) -> (m: u8)
        ensures
            m == self@.mode,
    {
        self.mode
    }

    fn push_line(&mut self, line: Printed)
        ensures
            final(self)@ == (ConsoleView {
                printed: old(self)@.printed.push(line@),
                ..old(self)@
            }),
    {
        self.printed.push(line);
        assert(self@.printed =~= old(self)@.printed.push(line@));
    }
}

impl MemoryMapped for Console {
    /// The console cannot be read.
    fn read(&mut self, dir: u32, _size: usize) -> (res: Result<Vec<u8>, MemError>)
        ensures
            final(self)@ == old(self)@,
            res matches Err(e) && e@ == not_readable(dir),
    {
        let mut s = String::from_str("Tried to read from non-readable device 'Console' at address ");
        s.append(hex(dir as u64, 8).as_str());
        Err(MemError::MappedDeviceError(s))
    }

    /// A write that ends inside the low four bytes prints `contents` by the
    /// current mode, and fails where the mode is none of the four. Any other
    /// write sets the mode to the first byte of `contents`.
    fn write(&mut self, dir: usize, size: usize, contents: &[u8]) -> (res: Result<(), MemError>)
        ensures
            old(self)@.prints(dir as int, size as int) && old(self)@.line(contents@) is None ==> {
                &&& final(self)@ == old(self)@
                &&& res matches Err(e)
                &&& e@ == unknown_mode(old(self)@.mode)
            },
            !(old(self)@.prints(dir as int, size as int) && old(self)@.line(contents@) is None)
                ==> {
                &&& res is Ok
                &&& final(self)@ == old(self)@.after_write(dir as int, size as int, contents@)
            },
    {
        let prints = match (dir as u64).checked_add(size as u64) {
            Some(end) => end <= self.range_lower as u64 + 4,
            None => false,
        };
        if prints {
            if self.mode == 0 {
                let b = from_sizeN::<4>(contents);
                self.push_line(Printed::Integer(from_word(b.as_slice())));
            } else if self.mode == 1 {
                let b = from_sizeN::<4>(contents);
                self.push_line(Printed::Float(from_word(b.as_slice())));
            } else if self.mode == 2 {
                let b = from_sizeN::<8>(contents);
                self.push_line(Printed::Double(from_dword(b.as_slice())));
            } else if self.mode == 3 {
                let text = vstd::slice::slice_to_vec(contents);
                self.push_line(Printed::Text(text));
            } else {
                let mut s = String::from_str("Console: Unknown print mode ");
                s.append(decimal(self.mode as u64).as_str());
                return Err(MemError::MappedDeviceError(s));
            }
        } else {
            let b = from_sizeN::<1>(contents);
            self.mode = b[0];
            assert(self@.printed =~= old(self)@.printed);
        }
        Ok(())
    }
}

/// Makes the console of the default layout: printable content at
/// `0x80000000..=0x80000003`, the mode at `0x80000004..=0x80000007`.
pub fn new() -> (c: Console)
    ensures
        c@ == (ConsoleView {
            range_lower: 0x80000000,
            range_upper: 0x80000007,
            mode: 0,
            printed: Seq::empty(),
        }),
{
    let c = Console { range_lower: 0x80000000, range_upper: 0x80000007, mode: 0, printed: Vec::new() };
    assert(c@.printed =~= Seq::empty());
    c
}

} // verus!
