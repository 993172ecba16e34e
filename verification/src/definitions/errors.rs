use super::text::{decimal, decimal_text, hex, hex_text, zero_padded};
use vstd::prelude::*;
use vstd::string::StringExecFns;

verus! {

/// Why an executable image was refused.
#[derive(Debug)]
pub enum HeaderError {
    MagicError,
    ArchError,
    PermExecError(String),
    IOError(String),
}

pub enum HeaderErrorView {
    MagicError,
    ArchError,
    PermExecError(Seq<char>),
    IOError(Seq<char>),
}

impl View for HeaderError {
    type V = HeaderErrorView;

    open spec fn view(&self) -> HeaderErrorView {
        match self {
            HeaderError::MagicError => HeaderErrorView::MagicError,
            HeaderError::ArchError => HeaderErrorView::ArchError,
            HeaderError::PermExecError(m) => HeaderErrorView::PermExecError(m@),
            HeaderError::IOError(m) => HeaderErrorView::IOError(m@),
        }
    }
}

impl HeaderErrorView {
    /// The text shown to the user for this error.
    pub open spec fn message(self) -> Seq<char> {
        match self {
            HeaderErrorView::MagicError => "ELF Magic Number not found"@,
            HeaderErrorView::ArchError => "This file's Architecture is not compatible with the machine"@,
            HeaderErrorView::PermExecError(m) => m,
            HeaderErrorView::IOError(m) => m,
        }
    }
}

impl HeaderError {
    pub fn to_string(&self) -> (s: String)
        ensures
            s@ == self@.message(),
    {
        match self {
            HeaderError::MagicError => String::from_str("ELF Magic Number not found"),
            HeaderError::ArchError => String::from_str(
                "This file's Architecture is not compatible with the machine",
            ),
            HeaderError::PermExecError(m) => m.clone(),
            HeaderError::IOError(m) => m.clone(),
        }
    }
}

/// The standard library's `std::io::Error`, which is carried through and
/// never looked into.
#[verifier::external_type_specification]
#[verifier::external_body]
pub struct ExIoError(std::io::Error);

/// The text that an I/O error displays, by the standard library's
/// `to_string`. It may come from the operating system, so nothing is said
/// of it.
#[verifier::external_body]
fn io_error_text(e: &std::io::Error) -> (s: String) {
    e.to_string()
}

impl From<std::io::Error> for HeaderError {
    /// An I/O error becomes a header error that says where it comes from
    /// and then what the I/O error displays.
    fn from(e: std::io::Error) -> (res: HeaderError)
        ensures
            exists|text: Seq<char>|
                res@ == HeaderErrorView::IOError(#[trigger] ("Propagated io::Error: "@ + text)),
    {
        let text = io_error_text(&e);
        let res = HeaderError::IOError(
            String::from_str("Propagated io::Error: ").concat(text.as_str()),
        );
        assert(res@ == HeaderErrorView::IOError("Propagated io::Error: "@ + text@));
        res
    }
}

impl vstd::std_specs::convert::FromSpecImpl<std::io::Error> for HeaderError {
    open spec fn obeys_from_spec() -> bool {
        false
    }

    open spec fn from_spec(e: std::io::Error) -> HeaderError {
        arbitrary()
    }
}

/// Why memory refused an access.
#[derive(Debug)]
pub enum MemError {
    /// The protected range `[lo, hi)` and the address that fell inside it.
    PermError(u32, u32, usize),
    MappedDeviceError(String),
}

pub enum MemErrorView {
    PermError(u32, u32, usize),
    MappedDeviceError(Seq<char>),
}

impl View for MemError {
    type V = MemErrorView;

    open spec fn view(&self) -> MemErrorView {
        match self {
            MemError::PermError(lo, hi, addr) => MemErrorView::PermError(*lo, *hi, *addr),
            MemError::MappedDeviceError(m) => MemErrorView::MappedDeviceError(m@),
        }
    }
}

impl MemErrorView {
    pub open spec fn message(self) -> Seq<char> {
        match self {
            MemErrorView::PermError(lo, hi, addr) => "Tried to access protected region range [0x"@
                + zero_padded(hex_text(lo as nat), 8) + "..0x"@ + zero_padded(
                hex_text(hi as nat),
                8,
            ) + "] at address 0x"@ + zero_padded(hex_text(addr as nat), 8),
            MemErrorView::MappedDeviceError(m) => m,
        }
    }
}

impl MemError {
    pub fn to_string(&self) -> (s: String)
        ensures
            s@ == self@.message(),
    {
        match self {
            MemError::PermError(lo, hi, addr) => {
                let mut s = String::from_str("Tried to access protected region range [0x");
                s.append(hex(*lo as u64, 8).as_str());
                s.append("..0x");
                s.append(hex(*hi as u64, 8).as_str());
                s.append("] at address 0x");
                s.append(hex(*addr as u64, 8).as_str());
                s
            },
            MemError::MappedDeviceError(m) => m.clone(),
        }
    }
}

/// What the scoreboard answers when a register cannot be had.
#[derive(Debug, Copy, Clone, PartialEq, Eq, Structural)]
pub enum RegisterError {
    /// The register is busy: its owner's handle, and the register's number.
    LockedWithHandle(usize, u32),
    /// A write by an instruction that does not own the register: the owner's
    /// handle, and the register's number.
    NotOwned(usize, u32),
}

impl RegisterError {
    pub open spec fn message(self) -> Seq<char> {
        match self {
            RegisterError::LockedWithHandle(owner, regno) => "The register "@ + decimal_text(
                regno as nat,
            ) + " is locked by owner instruction with timestamp "@ + decimal_text(owner as nat),
            RegisterError::NotOwned(owner, regno) =>
                "The instruction tried to write to register "@ + decimal_text(regno as nat)
                    + ", which is owned by the instruction with timestamp "@ + decimal_text(
                    owner as nat,
                ),
        }
    }

    pub fn to_string(&self) -> (s: String)
        ensures
            s@ == self.message(),
    {
        match self {
            RegisterError::LockedWithHandle(owner, regno) => {
                let mut s = String::from_str("The register ");
                s.append(decimal(*regno as u64).as_str());
                s.append(" is locked by owner instruction with timestamp ");
                s.append(decimal(*owner as u64).as_str());
                s
            },
            RegisterError::NotOwned(owner, regno) => {
                let mut s = String::from_str("The instruction tried to write to register ");
                s.append(decimal(*regno as u64).as_str());
                s.append(", which is owned by the instruction with timestamp ");
                s.append(decimal(*owner as u64).as_str());
                s
            },
        }
    }
}

/// Why execution stopped.
#[derive(Debug)]
pub enum ExecutionError {
    /// A privileged instruction, by name, outside privileged mode.
    PrivilegeError(String),
    UnrecognizedOPError(String),
    MemError(String),
    RegisterError(String),
    /// A division, by name, whose divisor was zero.
    DivisionByZero(String),
}

pub enum ExecutionErrorView {
    PrivilegeError(Seq<char>),
    UnrecognizedOPError(Seq<char>),
    MemError(Seq<char>),
    RegisterError(Seq<char>),
    DivisionByZero(Seq<char>),
}

impl View for ExecutionError {
    type V = ExecutionErrorView;

    open spec fn view(&self) -> ExecutionErrorView {
        match self {
            ExecutionError::PrivilegeError(m) => ExecutionErrorView::PrivilegeError(m@),
            ExecutionError::UnrecognizedOPError(m) => ExecutionErrorView::UnrecognizedOPError(m@),
            ExecutionError::MemError(m) => ExecutionErrorView::MemError(m@),
            ExecutionError::RegisterError(m) => ExecutionErrorView::RegisterError(m@),
            ExecutionError::DivisionByZero(m) => ExecutionErrorView::DivisionByZero(m@),
        }
    }
}

impl ExecutionErrorView {
    pub open spec fn message(self) -> Seq<char> {
        match self {
            ExecutionErrorView::PrivilegeError(iname) => "Tried to use privileged instruction "@
                + iname + " but the mode bitflag was not set"@,
            ExecutionErrorView::UnrecognizedOPError(m) => m,
            ExecutionErrorView::MemError(m) => m,
            ExecutionErrorView::RegisterError(m) => m,
            ExecutionErrorView::DivisionByZero(iname) => "Division by zero in instruction "@
                + iname,
        }
    }

    /// The error for an instruction of the class `class` whose function
    /// `func` is not known: it names the function in hexadecimal, with at
    /// least `width` digits.
    pub open spec fn unrecognized(class: Seq<char>, func: u32, width: nat) -> ExecutionErrorView {
        ExecutionErrorView::UnrecognizedOPError(
            "Unrecognized "@ + class + " type func "@ + zero_padded(hex_text(func as nat), width),
        )
    }

    /// What a memory error becomes when execution stops on it.
    pub open spec fn of_mem_error(e: MemErrorView) -> ExecutionErrorView {
        ExecutionErrorView::MemError("Propagated MemError: "@ + e.message())
    }

    /// What a scoreboard error becomes when execution stops on it.
    pub open spec fn of_register_error(e: RegisterError) -> ExecutionErrorView {
        ExecutionErrorView::RegisterError("Propagated RegisterError: "@ + e.message())
    }
}

impl ExecutionError {
    /// Makes the error for an instruction whose function is not known.
    pub fn unrecognized(class: &str, func: u32, width: usize) -> (e: ExecutionError)
        ensures
            e@ == ExecutionErrorView::unrecognized(class@, func, width as nat),
    {
        let mut s = String::from_str("Unrecognized ");
        s.append(class);
        s.append(" type func ");
        s.append(hex(func as u64, width).as_str());
        ExecutionError::UnrecognizedOPError(s)
    }

    pub fn to_string(&self) -> (s: String)
        ensures
            s@ == self@.message(),
    {
        match self {
            ExecutionError::PrivilegeError(iname) => {
                let mut s = String::from_str("Tried to use privileged instruction ");
                s.append(iname.as_str());
                s.append(" but the mode bitflag was not set");
                s
            },
            ExecutionError::UnrecognizedOPError(m) => m.clone(),
            ExecutionError::MemError(m) => m.clone(),
            ExecutionError::RegisterError(m) => m.clone(),
            ExecutionError::DivisionByZero(iname) => {
                let mut s = String::from_str("Division by zero in instruction ");
                s.append(iname.as_str());
                s
            },
        }
    }
}

impl From<MemError> for ExecutionError {
    fn from(e: MemError) -> (res: ExecutionError)
        ensures
            res@ == ExecutionErrorView::of_mem_error(e@),
    {
        let mut s = String::from_str("Propagated MemError: ");
        s.append(e.to_string().as_str());
        ExecutionError::MemError(s)
    }
}

impl vstd::std_specs::convert::FromSpecImpl<MemError> for ExecutionError {
    open spec fn obeys_from_spec() -> bool {
        false
    }

    open spec fn from_spec(e: MemError) -> ExecutionError {
        arbitrary()
    }
}

impl From<RegisterError> for ExecutionError {
    fn from(e: RegisterError) -> (res: ExecutionError)
        ensures
            res@ == ExecutionErrorView::of_register_error(e),
    {
        let mut s = String::from_str("Propagated RegisterError: ");
        s.append(e.to_string().as_str());
        ExecutionError::RegisterError(s)
    }
}

impl vstd::std_specs::convert::FromSpecImpl<RegisterError> for ExecutionError {
    open spec fn obeys_from_spec() -> bool {
        false
    }

    open spec fn from_spec(e: RegisterError) -> ExecutionError {
        arbitrary()
    }
}

} // verus!
