use super::utils::{from_half, from_word, half_value, word_value};
use vstd::prelude::*;
use vstd::slice::slice_subrange;

verus! {

/// Length of the file header, in bytes.
pub const FILE_HEADER_LEN: usize = 52;

/// Length of one program header, in bytes.
pub const PROGRAM_HEADER_LEN: usize = 32;

/// The big-endian word that `b` holds at offset `at`.
pub open spec fn be32(b: Seq<u8>, at: int) -> u32 {
    word_value(b.subrange(at, at + 4)) as u32
}

/// The big-endian halfword that `b` holds at offset `at`.
pub open spec fn be16(b: Seq<u8>, at: int) -> u16 {
    half_value(b.subrange(at, at + 2)) as u16
}

/// Reads the big-endian word at offset `at`.
pub fn read_be32(bytes: &[u8], at: usize) -> (w: u32)
    requires
        at + 4 <= bytes@.len(),
    ensures
        w == be32(bytes@, at as int),
{
    let len: usize = bytes.len();
    from_word(slice_subrange(bytes, at, at + 4))
}

/// Reads the big-endian halfword at offset `at`.
pub fn read_be16(bytes: &[u8], at: usize) -> (h: u16)
    requires
        at + 2 <= bytes@.len(),
    ensures
        h == be16(bytes@, at as int),
{
    let len: usize = bytes.len();
    let w: u32 = from_half(slice_subrange(bytes, at, at + 2));
    w as u16
}

/// The fields of a file header, in the order of the file.
pub type RelfHeaderFields = (
    u32,
    u8,
    u8,
    u8,
    u8,
    u8,
    Vec<u8>,
    u16,
    u16,
    u32,
    u32,
    u32,
    u32,
    u32,
    u16,
    u16,
    u16,
    u16,
    u16,
    u16,
);

/// The fields of a program header, in the order of the file.
pub type ProgramHeaderFields = (u32, u32, u32, u32, u32, u32, u32, u32);

/// The file header of an executable.
#[derive(Debug)]
pub struct RelfHeader32 {
    pub e_ident_MAG: u32,
    pub e_ident_CLASS: u8,
    pub e_ident_DATA: u8,
    pub e_ident_VERSION: u8,
    pub e_ident_OSABI: u8,
    pub e_ident_ABIVERSION: u8,
    pub e_ident_EIPAD: Vec<u8>,
    pub e_type: u16,
    pub e_machine: u16,
    pub e_version: u32,
    pub e_entry: u32,
    pub e_phoff: u32,
    pub e_shoff: u32,
    pub e_flags: u32,
    pub e_ehsize: u16,
    pub e_phentsize: u16,
    pub e_phnum: u16,
    pub e_shentsize: u16,
    pub e_shnum: u16,
    pub e_shstrndx: u16,
}

pub struct RelfHeader32View {
    pub e_ident_MAG: u32,
    pub e_ident_CLASS: u8,
    pub e_ident_DATA: u8,
    pub e_ident_VERSION: u8,
    pub e_ident_OSABI: u8,
    pub e_ident_ABIVERSION: u8,
    pub e_ident_EIPAD: Seq<u8>,
    pub e_type: u16,
    pub e_machine: u16,
    pub e_version: u32,
    pub e_entry: u32,
    pub e_phoff: u32,
    pub e_shoff: u32,
    pub e_flags: u32,
    pub e_ehsize: u16,
    pub e_phentsize: u16,
    pub e_phnum: u16,
    pub e_shentsize: u16,
    pub e_shnum: u16,
    pub e_shstrndx: u16,
}

impl View for RelfHeader32 {
    type V = RelfHeader32View;

    open spec fn view(&self) -> RelfHeader32View {
        RelfHeader32View {
            e_ident_MAG: self.e_ident_MAG,
            e_ident_CLASS: self.e_ident_CLASS,
            e_ident_DATA: self.e_ident_DATA,
            e_ident_VERSION: self.e_ident_VERSION,
            e_ident_OSABI: self.e_ident_OSABI,
            e_ident_ABIVERSION: self.e_ident_ABIVERSION,
            e_ident_EIPAD: self.e_ident_EIPAD@,
            e_type: self.e_type,
            e_machine: self.e_machine,
            e_version: self.e_version,
            e_entry: self.e_entry,
            e_phoff: self.e_phoff,
            e_shoff: self.e_shoff,
            e_flags: self.e_flags,
            e_ehsize: self.e_ehsize,
            e_phentsize: self.e_phentsize,
            e_phnum: self.e_phnum,
            e_shentsize: self.e_shentsize,
            e_shnum: self.e_shnum,
            e_shstrndx: self.e_shstrndx,
        }
    }
}

/// The file header that the first 52 bytes of `b` spell.
pub open spec fn file_header(b: Seq<u8>) -> RelfHeader32View {
    RelfHeader32View {
        e_ident_MAG: be32(b, 0),
        e_ident_CLASS: b[4],
        e_ident_DATA: b[5],
        e_ident_VERSION: b[6],
        e_ident_OSABI: b[7],
        e_ident_ABIVERSION: b[8],
        e_ident_EIPAD: b.subrange(9, 16),
        e_type: be16(b, 16),
        e_machine: be16(b, 18),
        e_version: be32(b, 20),
        e_entry: be32(b, 24),
        e_phoff: be32(b, 28),
        e_shoff: be32(b, 32),
        e_flags: be32(b, 36),
        e_ehsize: be16(b, 40),
        e_phentsize: be16(b, 42),
        e_phnum: be16(b, 44),
        e_shentsize: be16(b, 46),
        e_shnum: be16(b, 48),
        e_shstrndx: be16(b, 50),
    }
}

impl RelfHeader32 {
    /// Builds a header from its fields, in the order of the file.
    pub fn from_tuple(tuple: RelfHeaderFields) -> (h: RelfHeader32)
        ensures
            h@ == (RelfHeader32View {
                e_ident_MAG: tuple.0,
                e_ident_CLASS: tuple.1,
                e_ident_DATA: tuple.2,
                e_ident_VERSION: tuple.3,
                e_ident_OSABI: tuple.4,
                e_ident_ABIVERSION: tuple.5,
                e_ident_EIPAD: tuple.6@,
                e_type: tuple.7,
                e_machine: tuple.8,
                e_version: tuple.9,
                e_entry: tuple.10,
                e_phoff: tuple.11,
                e_shoff: tuple.12,
                e_flags: tuple.13,
                e_ehsize: tuple.14,
                e_phentsize: tuple.15,
                e_phnum: tuple.16,
                e_shentsize: tuple.17,
                e_shnum: tuple.18,
                e_shstrndx: tuple.19,
            }),
    {
        RelfHeader32 {
            e_ident_MAG: tuple.0,
            e_ident_CLASS: tuple.1,
            e_ident_DATA: tuple.2,
            e_ident_VERSION: tuple.3,
            e_ident_OSABI: tuple.4,
            e_ident_ABIVERSION: tuple.5,
            e_ident_EIPAD: tuple.6,
            e_type: tuple.7,
            e_machine: tuple.8,
            e_version: tuple.9,
            e_entry: tuple.10,
            e_phoff: tuple.11,
            e_shoff: tuple.12,
            e_flags: tuple.13,
            e_ehsize: tuple.14,
            e_phentsize: tuple.15,
            e_phnum: tuple.16,
            e_shentsize: tuple.17,
            e_shnum: tuple.18,
            e_shstrndx: tuple.19,
        }
    }

    /// Reads the file header from the first 52 bytes of `bytes`, big-endian.
    pub fn unpack(bytes: &[u8]) -> (h: RelfHeader32)
        requires
            bytes@.len() >= 52,
        ensures
            h@ == file_header(bytes@),
    {
        let mut pad: Vec<u8> = Vec::new();
        let mut i: usize = 9;
        while i < 16
            invariant
                9 <= i <= 16,
                bytes@.len() >= 52,
                pad@ == bytes@.subrange(9, i as int),
            decreases 16 - i,
        {
            pad.push(bytes[i]);
            assert(pad@ =~= bytes@.subrange(9, i + 1));
            i += 1;
        }
        RelfHeader32 {
            e_ident_MAG: read_be32(bytes, 0),
            e_ident_CLASS: bytes[4],
            e_ident_DATA: bytes[5],
            e_ident_VERSION: bytes[6],
            e_ident_OSABI: bytes[7],
            e_ident_ABIVERSION: bytes[8],
            e_ident_EIPAD: pad,
            e_type: read_be16(bytes, 16),
            e_machine: read_be16(bytes, 18),
            e_version: read_be32(bytes, 20),
            e_entry: read_be32(bytes, 24),
            e_phoff: read_be32(bytes, 28),
            e_shoff: read_be32(bytes, 32),
            e_flags: read_be32(bytes, 36),
            e_ehsize: read_be16(bytes, 40),
            e_phentsize: read_be16(bytes, 42),
            e_phnum: read_be16(bytes, 44),
            e_shentsize: read_be16(bytes, 46),
            e_shnum: read_be16(bytes, 48),
            e_shstrndx: read_be16(bytes, 50),
        }
    }
}

impl From<RelfHeaderFields> for RelfHeader32 {
    fn from(tpl: RelfHeaderFields) -> (h: RelfHeader32) {
        RelfHeader32 {
            e_ident_MAG: tpl.0,
            e_ident_CLASS: tpl.1,
            e_ident_DATA: tpl.2,
            e_ident_VERSION: tpl.3,
            e_ident_OSABI: tpl.4,
            e_ident_ABIVERSION: tpl.5,
            e_ident_EIPAD: tpl.6,
            e_type: tpl.7,
            e_machine: tpl.8,
            e_version: tpl.9,
            e_entry: tpl.10,
            e_phoff: tpl.11,
            e_shoff: tpl.12,
            e_flags: tpl.13,
            e_ehsize: tpl.14,
            e_phentsize: tpl.15,
            e_phnum: tpl.16,
            e_shentsize: tpl.17,
            e_shnum: tpl.18,
            e_shstrndx: tpl.19,
        }
    }
}

impl vstd::std_specs::convert::FromSpecImpl<RelfHeaderFields> for RelfHeader32 {
    open spec fn obeys_from_spec() -> bool {
        true
    }

    open spec fn from_spec(tpl: RelfHeaderFields) -> RelfHeader32 {
        RelfHeader32 {
            e_ident_MAG: tpl.0,
            e_ident_CLASS: tpl.1,
            e_ident_DATA: tpl.2,
            e_ident_VERSION: tpl.3,
            e_ident_OSABI: tpl.4,
            e_ident_ABIVERSION: tpl.5,
            e_ident_EIPAD: tpl.6,
            e_type: tpl.7,
            e_machine: tpl.8,
            e_version: tpl.9,
            e_entry: tpl.10,
            e_phoff: tpl.11,
            e_shoff: tpl.12,
            e_flags: tpl.13,
            e_ehsize: tpl.14,
            e_phentsize: tpl.15,
            e_phnum: tpl.16,
            e_shentsize: tpl.17,
            e_shnum: tpl.18,
            e_shstrndx: tpl.19,
        }
    }
}

/// A program header: where a segment lies in the file and in memory.
#[derive(Debug, Clone, Copy)]
pub struct SectionHeader32 {
    pub p_type: u32,
    pub p_offset: u32,
    pub p_vaddr: u32,
    pub p_paddr: u32,
    pub p_filesz: u32,
    pub p_memsz: u32,
    pub p_flags: u32,
    pub p_align: u32,
}

/// The program header that the 32 bytes of `b` from offset `at` on spell.
pub open spec fn program_header(b: Seq<u8>, at: int) -> SectionHeader32 {
    SectionHeader32 {
        p_type: be32(b, at),
        p_offset: be32(b, at + 4),
        p_vaddr: be32(b, at + 8),
        p_paddr: be32(b, at + 12),
        p_filesz: be32(b, at + 16),
        p_memsz: be32(b, at + 20),
        p_flags: be32(b, at + 24),
        p_align: be32(b, at + 28),
    }
}

impl SectionHeader32 {
    /// Builds a program header from its fields, in the order of the file.
    pub fn from_tuple(tuple: ProgramHeaderFields) -> (h: SectionHeader32)
        ensures
            h == (SectionHeader32 {
                p_type: tuple.0,
                p_offset: tuple.1,
                p_vaddr: tuple.2,
                p_paddr: tuple.3,
                p_filesz: tuple.4,
                p_memsz: tuple.5,
                p_flags: tuple.6,
                p_align: tuple.7,
            }),
    {
        SectionHeader32 {
            p_type: tuple.0,
            p_offset: tuple.1,
            p_vaddr: tuple.2,
            p_paddr: tuple.3,
            p_filesz: tuple.4,
            p_memsz: tuple.5,
            p_flags: tuple.6,
            p_align: tuple.7,
        }
    }

    /// Reads a program header from the 32 bytes of `bytes` at offset `at`,
    /// big-endian.
    pub fn unpack(bytes: &[u8], at: usize) -> (h: SectionHeader32)
        requires
            at + 32 <= bytes@.len(),
        ensures
            h == program_header(bytes@, at as int),
    {
        let len: usize = bytes.len();
        SectionHeader32 {
            p_type: read_be32(bytes, at),
            p_offset: read_be32(bytes, at + 4),
            p_vaddr: read_be32(bytes, at + 8),
            p_paddr: read_be32(bytes, at + 12),
            p_filesz: read_be32(bytes, at + 16),
            p_memsz: read_be32(bytes, at + 20),
            p_flags: read_be32(bytes, at + 24),
            p_align: read_be32(bytes, at + 28),
        }
    }
}

impl From<ProgramHeaderFields> for SectionHeader32 {
    fn from(tpl: ProgramHeaderFields) -> (h: SectionHeader32) {
        SectionHeader32::from_tuple(tpl)
    }
}

impl vstd::std_specs::convert::FromSpecImpl<ProgramHeaderFields> for SectionHeader32 {
    open spec fn obeys_from_spec() -> bool {
        true
    }

    open spec fn from_spec(tpl: ProgramHeaderFields) -> SectionHeader32 {
        SectionHeader32 {
            p_type: tpl.0,
            p_offset: tpl.1,
            p_vaddr: tpl.2,
            p_paddr: tpl.3,
            p_filesz: tpl.4,
            p_memsz: tpl.5,
            p_flags: tpl.6,
            p_align: tpl.7,
        }
    }
}

} // verus!
