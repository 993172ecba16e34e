use vstd::prelude::*;

pub mod op;
pub mod reg_names;

verus! {

// Flag word layout, from the least significant bit:
//   Z | S | INTERR | IENABLE | MODE | FIN
pub const Z_FLAG: u32 = 1;

pub const S_FLAG: u32 = 2;

pub const INTERR_FLAG: u32 = 4;

pub const IENABLE_FLAG: u32 = 8;

pub const MODE_FLAG: u32 = 16;

pub const FIN_FLAG: u32 = 32;

/// Size of the protected stack, in bytes.
pub const STACKSIZE: u32 = 512;

/// The default handler. It serves the syscall whose code is in V0: it sets
/// the console's mode for the codes 1 (integer), 2 (float), 3 (double) and
/// 4 or 11 (string), prints the word that A0 points to and returns; for the
/// code 10 it halts.
pub const DEFAULT_IRQH: [u8; 172] = [
    0x24, 0x1a, 0x00, 0x01,  // addiu 26, 0, 1
    0x10, 0x5a, 0x00, 0x0a,  // beq 2, 26, printint
    0x24, 0x1a, 0x00, 0x02,  // addiu 26, 0, 2
    0x10, 0x5a, 0x00, 0x0d,  // beq 2, 26, printfloat
    0x24, 0x1a, 0x00, 0x03,  // addiu 26, 0, 3
    0x10, 0x5a, 0x00, 0x11,  // beq 2, 26, printdouble
    0x24, 0x1a, 0x00, 0x04,  // addiu 26, 0, 4
    0x10, 0x5a, 0x00, 0x15,  // beq 2, 26, printstring
    0x24, 0x1a, 0x00, 0x0a,  // addiu 26, 0, 10
    0x10, 0x5a, 0x00, 0x20,  // beq 2, 26, stop
    0x24, 0x1a, 0x00, 0x0b,  // addiu 26, 0, 11
    0x10, 0x5a, 0x00, 0x11,  // beq 2, 26, printstring
    0x24, 0x01, 0x80, 0x00,  // addiu 1, 0, 32768
    0x00, 0x01, 0x0c, 0x00,  // sll 1, 1, 16
    0x34, 0x3a, 0x00, 0x00,  // ori 26, 1, 0
    0xa3, 0x40, 0x00, 0x04,  // sb 0, 4(26)
    0x08, 0x00, 0x00, 0x23,  // j print
    0x24, 0x01, 0x80, 0x00,  // addiu 1, 0, 32768
    0x00, 0x01, 0x0c, 0x00,  // sll 1, 1, 16
    0x34, 0x3a, 0x00, 0x00,  // ori 26, 1, 0
    0x24, 0x1b, 0x00, 0x01,  // addiu 27, 0, 1
    0xa3, 0x5b, 0x00, 0x04,  // sb 27, 4(26)
    0x08, 0x00, 0x00, 0x23,  // j print
    0x24, 0x01, 0x80, 0x00,  // addiu 1, 0, 32768
    0x00, 0x01, 0x0c, 0x00,  // sll 1, 1, 16
    0x34, 0x3a, 0x00, 0x00,  // ori 26, 1, 0
    0x24, 0x1b, 0x00, 0x02,  // addiu 27, 0, 2
    0xa3, 0x5b, 0x00, 0x04,  // sb 27, 4(26)
    0x08, 0x00, 0x00, 0x23,  // j print
    0x24, 0x01, 0x80, 0x00,  // addiu 1, 0, 32768
    0x00, 0x01, 0x0c, 0x00,  // sll 1, 1, 16
    0x34, 0x3a, 0x00, 0x00,  // ori 26, 1, 0
    0x24, 0x1b, 0x00, 0x03,  // addiu 27, 0, 3
    0xa3, 0x5b, 0x00, 0x04,  // sb 27, 4(26)
    0x08, 0x00, 0x00, 0x23,  // j print
    0x24, 0x01, 0x80, 0x00,  // addiu 1, 0, 32768
    0x00, 0x01, 0x0c, 0x00,  // sll 1, 1, 16
    0x34, 0x3a, 0x00, 0x00,  // ori 26, 1, 0
    0x8c, 0x9b, 0x00, 0x00,  // lw 27, 0(4)
    0xaf, 0x5b, 0x00, 0x00,  // sw 27, 0(26)
    0x08, 0x00, 0x00, 0x29,  // j exitirq
    0x42, 0x00, 0x00, 0x01,  // rfe
    0x42, 0x00, 0x00, 0x10,  // hlt
];

/// Whether `flag` is set in `flags`.
pub open spec fn flag_on(flags: u32, flag: u32) -> bool {
    flags & flag != 0
}

/// `flags` with `flag` set or cleared.
pub open spec fn with_flag(flags: u32, set: bool, flag: u32) -> u32 {
    if set {
        flags | flag
    } else {
        flags & !flag
    }
}

} // verus!
