use crate::definitions::errors::{HeaderError, HeaderErrorView};
use crate::definitions::relf_headers::{file_header, program_header, RelfHeader32, SectionHeader32};
use vstd::prelude::*;
use vstd::string::StringExecFns;

verus! {

/// What is to be copied from an executable image, and where execution starts.
#[derive(Debug, Clone, Copy, PartialEq, Eq, Structural)]
pub struct LoadPlan {
    /// The entry address.
    pub entry: u32,
    /// Where the text segment goes in memory.
    pub text_paddr: u32,
    /// Where the text segment starts in the image.
    pub text_start: usize,
    /// How many bytes the text segment has.
    pub text_len: usize,
    /// Where the data segment goes in memory.
    pub data_paddr: u32,
    /// Where the data segment starts in the image.
    pub data_start: usize,
    /// How many bytes the data segment has.
    pub data_len: usize,
}

impl LoadPlan {
    /// The number of bytes by which memory is extended before the segments
    /// are copied: the higher of the two segments' ends.
    pub open spec fn extent(self) -> nat {
        let text_end = self.text_paddr + self.text_len;
        let data_end = self.data_paddr + self.data_len;
        if text_end >= data_end {
            text_end as nat
        } else {
            data_end as nat
        }
    }

    /// The bytes of the text segment.
    pub open spec fn text(self, image: Seq<u8>) -> Seq<u8> {
        image.subrange(self.text_start as int, self.text_start + self.text_len)
    }

    /// The bytes of the data segment.
    pub open spec fn data(self, image: Seq<u8>) -> Seq<u8> {
        image.subrange(self.data_start as int, self.data_start + self.data_len)
    }

    /// Both segments lie inside an image of `len` bytes.
    pub open spec fn within(self, len: nat) -> bool {
        &&& self.text_start + self.text_len <= len
        &&& self.data_start + self.data_len <= len
    }
}

pub open spec fn truncated() -> HeaderErrorView {
    HeaderErrorView::IOError("The file ends before its contents do"@)
}

pub open spec fn unsupported_header_size() -> HeaderErrorView {
    HeaderErrorView::IOError("The program headers do not have 32 bytes each"@)
}

pub open spec fn too_large() -> HeaderErrorView {
    HeaderErrorView::IOError("The segments do not fit in memory"@)
}

/// The verdict on the two program headers of an image whose file header
/// was accepted.
pub open spec fn segments_verdict(image: Seq<u8>, entry: u32) -> Result<LoadPlan, HeaderErrorView> {
    let text = program_header(image, 52);
    let data = program_header(image, 84);
    if image.len() < 84 {
        Err(truncated())
    } else if text.p_flags != 0x05000000 {
        Err(
            HeaderErrorView::PermExecError("The text segment is not Readable and Executable"@),
        )
    } else if text.p_type != 1 {
        Err(HeaderErrorView::PermExecError("The text segment is not Loadable"@))
    } else if image.len() < 116 {
        Err(truncated())
    } else if data.p_flags != 0x06000000 {
        Err(HeaderErrorView::PermExecError("The data segment is not Readable and Writeable"@))
    } else if data.p_type != 1 {
        Err(HeaderErrorView::PermExecError("The data segment is not Loadable"@))
    } else if data.p_memsz > 0 && 52 + data.p_offset + data.p_offset > image.len() {
        Err(truncated())
    } else if 52 + text.p_offset + text.p_memsz > image.len() {
        Err(truncated())
    } else {
        let data_start = if data.p_memsz > 0 {
            52 + data.p_offset + data.p_offset
        } else {
            image.len() as int
        };
        Ok(
            LoadPlan {
                entry,
                text_paddr: text.p_paddr,
                text_start: (52 + text.p_offset) as usize,
                text_len: text.p_memsz as usize,
                data_paddr: data.p_paddr,
                data_start: data_start as usize,
                data_len: (image.len() - data_start) as usize,
            },
        )
    }
}

/// The verdict on an image: the plan for loading it, or the first check
/// that it fails.
pub open spec fn verdict(image: Seq<u8>) -> Result<LoadPlan, HeaderErrorView> {
    let h = file_header(image);
    if image.len() < 52 {
        Err(truncated())
    } else if h.e_ident_MAG != 0x7f454c46 {
        Err(HeaderErrorView::MagicError)
    } else if h.e_ident_CLASS != 0x01 {
        Err(HeaderErrorView::ArchError)
    } else if h.e_type != 0x02 {
        Err(HeaderErrorView::PermExecError("This file is not an executable"@))
    } else if h.e_machine != 0x08 {
        Err(HeaderErrorView::ArchError)
    } else if h.e_phentsize != 32 {
        Err(unsupported_header_size())
    } else {
        segments_verdict(image, h.e_entry)
    }
}

/// Whether `res` is what the verdict `v` asks for.
pub open spec fn agrees(res: Result<LoadPlan, HeaderError>, v: Result<LoadPlan, HeaderErrorView>)
    -> bool {
    match (res, v) {
        (Ok(p), Ok(q)) => p == q,
        (Err(e), Err(f)) => e@ == f,
        _ => false,
    }
}

fn fail_truncated() -> (res: Result<LoadPlan, HeaderError>)
    ensures
        agrees(res, Err(truncated())),
{
    Err(HeaderError::IOError(String::from_str("The file ends before its contents do")))
}

fn fail_permission(text: &str) -> (res: Result<LoadPlan, HeaderError>)
    ensures
        agrees(res, Err(HeaderErrorView::PermExecError(text@))),
{
    Err(HeaderError::PermExecError(String::from_str(text)))
}

/// Checks the two program headers and lays out the plan.
fn plan_segments(image: &[u8], entry: u32) -> (res: Result<LoadPlan, HeaderError>)
    ensures
        agrees(res, segments_verdict(image@, entry)),
        res matches Ok(plan) ==> plan.within(image@.len()),
{
    let len: usize = image.len();
    if len < 84 {
        return fail_truncated();
    }
    let text = SectionHeader32::unpack(image, 52);
    if text.p_flags != 0x05000000 {
        return fail_permission("The text segment is not Readable and Executable");
    }
    if text.p_type != 0x1 {
        return fail_permission("The text segment is not Loadable");
    }
    if len < 116 {
        return fail_truncated();
    }
    let data = SectionHeader32::unpack(image, 84);
    if data.p_flags != 0x06000000 {
        return fail_permission("The data segment is not Readable and Writeable");
    }
    if data.p_type != 0x1 {
        return fail_permission("The data segment is not Loadable");
    }
    let data_at: u64 = 52 + data.p_offset as u64 + data.p_offset as u64;
    if data.p_memsz > 0 && data_at > len as u64 {
        return fail_truncated();
    }
    let text_end: u64 = 52 + text.p_offset as u64 + text.p_memsz as u64;
    if text_end > len as u64 {
        return fail_truncated();
    }
    let data_start: usize = if data.p_memsz > 0 {
        data_at as usize
    } else {
        len
    };
    Ok(
        LoadPlan {
            entry,
            text_paddr: text.p_paddr,
            text_start: (52 + text.p_offset as u64) as usize,
            text_len: text.p_memsz as usize,
            data_paddr: data.p_paddr,
            data_start,
            data_len: len - data_start,
        },
    )
}

/// Validates an executable image and says what is to be loaded from it.
///
/// The checks are made in the order of the file: the magic number, the
/// class, the type, the machine, then the text segment's header and the data
/// segment's. The first one that fails decides the error.
pub fn plan_load(image: &[u8]) -> (res: Result<LoadPlan, HeaderError>)
    ensures
        agrees(res, verdict(image@)),
        res matches Ok(plan) ==> plan.within(image@.len()),
{
    if image.len() < 52 {
        return fail_truncated();
    }
    let header = RelfHeader32::unpack(image);
    if header.e_ident_MAG != 0x7f454c46 {
        return Err(HeaderError::MagicError);
    }
    if header.e_ident_CLASS != 0x01 {
        return Err(HeaderError::ArchError);
    }
    if header.e_type != 0x02 {
        return fail_permission("This file is not an executable");
    }
    if header.e_machine != 0x08 {
        return Err(HeaderError::ArchError);
    }
    if header.e_phentsize != 32 {
        return Err(
            HeaderError::IOError(
                String::from_str("The program headers do not have 32 bytes each"),
            ),
        );
    }
    plan_segments(image, header.e_entry)
}

} // verus!
