use crate::definitions::arch::op;
use vstd::prelude::*;

verus! {

// ---------------------------------------------------------------------------
// Instruction fields
// ---------------------------------------------------------------------------
/// The primary opcode: bits 31 to 26.
pub open spec fn opcode_field(code: u32) -> u32 {
    (code & 0xfc000000) >> 26
}

/// The first source register: bits 25 to 21.
pub open spec fn rs_field(code: u32) -> u32 {
    (code & 0x03e00000) >> 21
}

/// The second source register: bits 20 to 16.
pub open spec fn rt_field(code: u32) -> u32 {
    (code & 0x001f0000) >> 16
}

/// The destination register: bits 15 to 11.
pub open spec fn rd_field(code: u32) -> u32 {
    (code & 0x0000f800) >> 11
}

/// The shift amount: bits 10 to 6.
pub open spec fn sham_field(code: u32) -> u32 {
    (code & 0x000007c0) >> 6
}

/// The function of an R-type instruction: bits 5 to 0.
pub open spec fn func_field(code: u32) -> u32 {
    code & 0x0000003f
}

/// The immediate of an I-type instruction: bits 15 to 0.
pub open spec fn imm_field(code: u32) -> u32 {
    code & 0x0000ffff
}

/// The target of a J-type instruction: bits 25 to 0, shifted left by two.
pub open spec fn target_field(code: u32) -> u32 {
    (code & 0x03ffffff) << 2
}

pub fn opcode_of(code: u32) -> (f: u32)
    ensures
        f == opcode_field(code),
        f < 64,
{
    assert(((code & 0xfc000000) >> 26) < 64) by (bit_vector);
    (code & 0xfc000000) >> 26
}

pub fn rs_of(code: u32) -> (f: u32)
    ensures
        f == rs_field(code),
        f < 32,
{
    assert(((code & 0x03e00000) >> 21) < 32) by (bit_vector);
    (code & 0x03e00000) >> 21
}

pub fn rt_of(code: u32) -> (f: u32)
    ensures
        f == rt_field(code),
        f < 32,
{
    assert(((code & 0x001f0000) >> 16) < 32) by (bit_vector);
    (code & 0x001f0000) >> 16
}

pub fn rd_of(code: u32) -> (f: u32)
    ensures
        f == rd_field(code),
        f < 32,
{
    assert(((code & 0x0000f800) >> 11) < 32) by (bit_vector);
    (code & 0x0000f800) >> 11
}

pub fn sham_of(code: u32) -> (f: u32)
    ensures
        f == sham_field(code),
        f < 32,
{
    assert(((code & 0x000007c0) >> 6) < 32) by (bit_vector);
    (code & 0x000007c0) >> 6
}

pub fn func_of(code: u32) -> (f: u32)
    ensures
        f == func_field(code),
        f < 64,
{
    assert((code & 0x0000003f) < 64) by (bit_vector);
    code & 0x0000003f
}

pub fn imm_of(code: u32) -> (f: u32)
    ensures
        f == imm_field(code),
        f <= 0xffff,
{
    assert((code & 0x0000ffff) <= 0xffff) by (bit_vector);
    code & 0x0000ffff
}

pub fn target_of(code: u32) -> (f: u32)
    ensures
        f == target_field(code),
{
    (code & 0x03ffffff) << 2
}

/// The encoding class of an instruction word: R where the primary opcode is
/// zero, J for the three jump opcodes, I for every other.
pub open spec fn class_of(code: u32) -> op::InstructionType {
    let opcode = opcode_field(code);
    if opcode == 0 {
        op::InstructionType::R
    } else if opcode == 0b000010 || opcode == 0b000011 || opcode == 0b011010 {
        op::InstructionType::J
    } else {
        op::InstructionType::I
    }
}

pub fn classify(code: u32) -> (class: op::InstructionType)
    ensures
        class == class_of(code),
{
    let opcode = opcode_of(code);
    if opcode == 0 {
        op::InstructionType::R
    } else if opcode == 0b000010 || opcode == 0b000011 || opcode == 0b011010 {
        op::InstructionType::J
    } else {
        op::InstructionType::I
    }
}

// ---------------------------------------------------------------------------
// Arithmetic
// ---------------------------------------------------------------------------
/// The number that `x` stands for in two's complement.
pub open spec fn signed(x: u32) -> int {
    if x >= 0x8000_0000 {
        x - 0x1_0000_0000
    } else {
        x as int
    }
}

/// The 16-bit immediate `imm`, sign-extended to 32 bits.
pub open spec fn sign_extended(imm: u32) -> u32 {
    if imm >= 0x8000 {
        (imm + 0xffff_0000) as u32
    } else {
        imm
    }
}

/// The displacement of a branch: the sign-extended immediate times four.
pub open spec fn displacement(imm: u32) -> u32 {
    if imm >= 0x8000 {
        (imm * 4 + 0xfffc_0000) as u32
    } else {
        (imm * 4) as u32
    }
}

/// The quotient of `a` by `b` as signed numbers, rounded toward zero, and
/// kept to 32 bits.
pub open spec fn signed_quotient(a: u32, b: u32) -> u32 {
    let (x, d) = (signed(a), signed(b));
    let q = if x >= 0 && d > 0 {
        x / d
    } else if x < 0 && d < 0 {
        (-x) / (-d)
    } else if x < 0 {
        -((-x) / d)
    } else {
        -(x / (-d))
    };
    (q % 0x1_0000_0000) as u32
}

/// The remainder that goes with `signed_quotient`: it has the sign of `a`.
pub open spec fn signed_remainder(a: u32, b: u32) -> u32 {
    let (x, d) = (signed(a), signed(b));
    let r = if x >= 0 && d > 0 {
        x % d
    } else if x < 0 && d < 0 {
        -((-x) % (-d))
    } else if x < 0 {
        -((-x) % d)
    } else {
        x % (-d)
    };
    (r % 0x1_0000_0000) as u32
}

/// The result that an R-type arithmetic or logical function writes to its
/// destination, for those that write one. Sums and differences wrap. `ADD`
/// adds `rt` where `rt` is not negative and subtracts it where it is. The
/// variable shifts go by the low five bits of `rs`.
pub open spec fn r_value(func: u32, rs: u32, rt: u32, sham: u32) -> Option<u32> {
    if func == op::r::ADD {
        Some(
            if rt < 0x8000_0000 {
                rs.wrapping_add(rt)
            } else {
                rs.wrapping_sub(rt)
            },
        )
    } else if func == op::r::ADDU {
        Some(rs.wrapping_add(rt))
    } else if func == op::r::AND {
        Some(rs & rt)
    } else if func == op::r::NOR {
        Some(!(rs | rt))
    } else if func == op::r::OR {
        Some(rs | rt)
    } else if func == op::r::SUB || func == op::r::SUBU {
        Some(rs.wrapping_sub(rt))
    } else if func == op::r::XOR {
        Some(rs ^ rt)
    } else if func == op::r::SLT {
        Some(
            if signed(rs) < signed(rt) {
                1u32
            } else {
                0u32
            },
        )
    } else if func == op::r::SLTU {
        Some(
            if rs < rt {
                1u32
            } else {
                0u32
            },
        )
    } else if func == op::r::SLL {
        Some(rt << sham)
    } else if func == op::r::SRA {
        Some(((rt as i32) >> sham) as u32)
    } else if func == op::r::SRAV {
        Some(((rt as i32) >> (rs % 32)) as u32)
    } else if func == op::r::SRLV {
        Some(rt >> (rs % 32))
    } else {
        None
    }
}

/// The pair (HI, LO) that a multiplication or a division leaves, for a
/// divisor that is not zero: the high and the low word of the 64-bit
/// product, or the remainder and the quotient.
pub open spec fn r_pair(func: u32, rs: u32, rt: u32) -> Option<(u32, u32)> {
    if func == op::r::DIV {
        Some((signed_remainder(rs, rt), signed_quotient(rs, rt)))
    } else if func == op::r::DIVU {
        Some((rs % rt, rs / rt))
    } else if func == op::r::MULT {
        let product = (signed(rs) * signed(rt)) % 0x1_0000_0000_0000_0000;
        Some(((product / 0x1_0000_0000) as u32, (product % 0x1_0000_0000) as u32))
    } else if func == op::r::MULTU {
        let product = rs * rt;
        Some(((product / 0x1_0000_0000) as u32, (product % 0x1_0000_0000) as u32))
    } else {
        None
    }
}

/// Whether `func` is one of the two divisions.
pub open spec fn divides(func: u32) -> bool {
    func == op::r::DIV || func == op::r::DIVU
}

/// The result that an I-type arithmetic or logical operation writes to its
/// destination, for those that write one. The additions take the
/// immediate sign-extended, and wrap; the logical operations and the
/// comparisons take it zero-extended.
pub open spec fn i_value(opcode: u32, rs: u32, imm: u32) -> Option<u32> {
    if opcode == op::i::ADDI || opcode == op::i::ADDIU {
        Some(rs.wrapping_add(sign_extended(imm)))
    } else if opcode == op::i::ANDI {
        Some(rs & imm)
    } else if opcode == op::i::ORI {
        Some(rs | imm)
    } else if opcode == op::i::XORI {
        Some(rs ^ imm)
    } else if opcode == op::i::SLTI || opcode == op::i::SLTIU {
        Some(
            if rs < imm {
                1u32
            } else {
                0u32
            },
        )
    } else {
        None
    }
}

/// Whether `opcode` is one of the four branches.
pub open spec fn is_branch(opcode: u32) -> bool {
    opcode == op::i::BEQ || opcode == op::i::BNE || opcode == op::i::BGTZ || opcode == op::i::BLEZ
}

/// Whether a branch is taken on the operands `rs` and `rt`, which are
/// compared as unsigned numbers.
pub open spec fn branch_taken(opcode: u32, rs: u32, rt: u32) -> bool {
    if opcode == op::i::BEQ {
        rs == rt
    } else if opcode == op::i::BNE {
        rs != rt
    } else if opcode == op::i::BGTZ {
        rs > 0
    } else if opcode == op::i::BLEZ {
        rs <= rt
    } else {
        false
    }
}

/// The number of bytes that a load or a store moves, for the opcodes that are one.
pub open spec fn access_size(opcode: u32) -> Option<usize> {
    if opcode == op::i::LB || opcode == op::i::LBU || opcode == op::i::SB {
        Some(1usize)
    } else if opcode == op::i::LH || opcode == op::i::LHU || opcode == op::i::SH {
        Some(2usize)
    } else if opcode == op::i::LW || opcode == op::i::SW {
        Some(4usize)
    } else {
        None
    }
}

pub open spec fn is_load(opcode: u32) -> bool {
    opcode == op::i::LB || opcode == op::i::LBU || opcode == op::i::LH || opcode == op::i::LHU
        || opcode == op::i::LW
}

pub open spec fn is_store(opcode: u32) -> bool {
    opcode == op::i::SB || opcode == op::i::SH || opcode == op::i::SW
}

pub fn sign_extend(imm: u32) -> (res: u32)
    requires
        imm <= 0xffff,
    ensures
        res == sign_extended(imm),
{
    if imm >= 0x8000 {
        imm + 0xffff_0000
    } else {
        imm
    }
}

pub fn branch_displacement(imm: u32) -> (res: u32)
    requires
        imm <= 0xffff,
    ensures
        res == displacement(imm),
{
    if imm >= 0x8000 {
        imm * 4 + 0xfffc_0000
    } else {
        imm * 4
    }
}

pub fn is_negative(x: u32) -> (res: bool)
    ensures
        res == (signed(x) < 0),
{
    x >= 0x8000_0000
}

/// Compares two words as signed numbers.
pub fn signed_less(a: u32, b: u32) -> (res: bool)
    ensures
        res == (signed(a) < signed(b)),
{
    let a_negative = a >= 0x8000_0000;
    let b_negative = b >= 0x8000_0000;
    if a_negative == b_negative {
        a < b
    } else {
        a_negative
    }
}

/// Computes what an R-type arithmetic or logical function writes.
pub fn compute_r_value(func: u32, rs: u32, rt: u32, sham: u32) -> (res: Option<u32>)
    requires
        sham < 32,
    ensures
        res == r_value(func, rs, rt, sham),
{
    if func == op::r::ADD {
        Some(
            if rt < 0x8000_0000 {
                rs.wrapping_add(rt)
            } else {
                rs.wrapping_sub(rt)
            },
        )
    } else if func == op::r::ADDU {
        Some(rs.wrapping_add(rt))
    } else if func == op::r::AND {
        Some(rs & rt)
    } else if func == op::r::NOR {
        Some(!(rs | rt))
    } else if func == op::r::OR {
        Some(rs | rt)
    } else if func == op::r::SUB || func == op::r::SUBU {
        Some(rs.wrapping_sub(rt))
    } else if func == op::r::XOR {
        Some(rs ^ rt)
    } else if func == op::r::SLT {
        Some(
            if signed_less(rs, rt) {
                1
            } else {
                0
            },
        )
    } else if func == op::r::SLTU {
        Some(
            if rs < rt {
                1
            } else {
                0
            },
        )
    } else if func == op::r::SLL {
        Some(rt << sham)
    } else if func == op::r::SRA {
        Some(((rt as i32) >> sham) as u32)
    } else if func == op::r::SRAV {
        let by: u32 = rs % 32;
        Some(((rt as i32) >> by) as u32)
    } else if func == op::r::SRLV {
        let by: u32 = rs % 32;
        Some(rt >> by)
    } else {
        None
    }
}

/// The magnitude of the number that `x` stands for in two's complement.
fn magnitude(x: u32) -> (m: u64)
    ensures
        m == if signed(x) < 0 {
            -signed(x)
        } else {
            signed(x)
        },
        m <= 0x8000_0000,
{
    if x >= 0x8000_0000 {
        0x1_0000_0000u64 - x as u64
    } else {
        x as u64
    }
}

/// The word that stands for the number of magnitude `m`, negative where `negative` holds.
fn with_sign(m: u64, negative: bool) -> (w: u32)
    requires
        m <= 0x8000_0000,
    ensures
        w == ((if negative {
            -(m as int)
        } else {
            m as int
        }) % 0x1_0000_0000) as u32,
{
    if negative && m != 0 {
        (0x1_0000_0000u64 - m) as u32
    } else {
        m as u32
    }
}

proof fn lemma_product_mod(x: int, y: int, i: int, j: int, m: int)
    requires
        m > 0,
    ensures
        ((x + m * i) * (y + m * j)) % m == (x * y) % m,
{
    assert((x + m * i) * (y + m * j) == m * (i * y + j * x + m * i * j) + x * y)
        by (nonlinear_arith);
    vstd::arithmetic::div_mod::lemma_mod_multiples_vanish(i * y + j * x + m * i * j, x * y, m);
}

/// The word `x` sign-extended to 64 bits.
fn sign_extend_64(x: u32) -> (s: u64)
    ensures
        s == if x >= 0x8000_0000 {
            signed(x) + 0x1_0000_0000_0000_0000
        } else {
            signed(x)
        },
{
    if x >= 0x8000_0000 {
        x as u64 + 0xffff_ffff_0000_0000u64
    } else {
        x as u64
    }
}

/// The high and the low word of `p`.
fn halves(p: u64) -> (res: (u32, u32))
    ensures
        res.0 == p / 0x1_0000_0000,
        res.1 == p % 0x1_0000_0000,
{
    assert((p >> 32) == p / 0x1_0000_0000 && (p & 0xffff_ffff) == p % 0x1_0000_0000 && (p >> 32)
        <= 0xffff_ffff) by (bit_vector);
    ((p >> 32) as u32, (p & 0xffff_ffff) as u32)
}

/// Computes the pair (HI, LO) that a multiplication or a division leaves.
pub fn compute_r_pair(func: u32, rs: u32, rt: u32) -> (res: Option<(u32, u32)>)
    requires
        divides(func) ==> rt != 0,
    ensures
        res == r_pair(func, rs, rt),
{
    if func == op::r::DIV {
        let (ma, mb) = (magnitude(rs), magnitude(rt));
        let quotient = with_sign(ma / mb, is_negative(rs) != is_negative(rt));
        let remainder = with_sign(ma % mb, is_negative(rs));
        Some((remainder, quotient))
    } else if func == op::r::DIVU {
        Some((rs % rt, rs / rt))
    } else if func == op::r::MULT {
        let (sx, sy) = (sign_extend_64(rs), sign_extend_64(rt));
        let product: u64 = sx.wrapping_mul(sy);
        proof {
            let i: int = if rs >= 0x8000_0000 {
                1
            } else {
                0
            };
            let j: int = if rt >= 0x8000_0000 {
                1
            } else {
                0
            };
            lemma_product_mod(signed(rs), signed(rt), i, j, 0x1_0000_0000_0000_0000);
            assert(sx as int == signed(rs) + 0x1_0000_0000_0000_0000 * i);
            assert(sy as int == signed(rt) + 0x1_0000_0000_0000_0000 * j);
            assert((sx as nat) * (sy as nat) == (sx as int) * (sy as int));
        }
        Some(halves(product))
    } else if func == op::r::MULTU {
        assert(rs * rt <= 0xffff_ffff * 0xffff_ffff) by (nonlinear_arith)
            requires
                rs <= 0xffff_ffff,
                rt <= 0xffff_ffff,
        ;
        let product: u64 = (rs as u64) * (rt as u64);
        Some(halves(product))
    } else {
        None
    }
}

/// Computes what an I-type arithmetic or logical operation writes.
pub fn compute_i_value(opcode: u32, rs: u32, imm: u32) -> (res: Option<u32>)
    requires
        imm <= 0xffff,
    ensures
        res == i_value(opcode, rs, imm),
{
    if opcode == op::i::ADDI || opcode == op::i::ADDIU {
        Some(rs.wrapping_add(sign_extend(imm)))
    } else if opcode == op::i::ANDI {
        Some(rs & imm)
    } else if opcode == op::i::ORI {
        Some(rs | imm)
    } else if opcode == op::i::XORI {
        Some(rs ^ imm)
    } else if opcode == op::i::SLTI || opcode == op::i::SLTIU {
        Some(
            if rs < imm {
                1
            } else {
                0
            },
        )
    } else {
        None
    }
}

/// Decides a branch.
pub fn decide_branch(opcode: u32, rs: u32, rt: u32) -> (taken: bool)
    ensures
        taken == branch_taken(opcode, rs, rt),
{
    if opcode == op::i::BEQ {
        rs == rt
    } else if opcode == op::i::BNE {
        rs != rt
    } else if opcode == op::i::BGTZ {
        rs > 0
    } else if opcode == op::i::BLEZ {
        rs <= rt
    } else {
        false
    }
}

/// The size of the access that a load or a store makes.
pub fn size_of_access(opcode: u32) -> (res: Option<usize>)
    ensures
        res == access_size(opcode),
{
    if opcode == op::i::LB || opcode == op::i::LBU || opcode == op::i::SB {
        Some(1)
    } else if opcode == op::i::LH || opcode == op::i::LHU || opcode == op::i::SH {
        Some(2)
    } else if opcode == op::i::LW || opcode == op::i::SW {
        Some(4)
    } else {
        None
    }
}

/// Among the operand pairs of a branch, `BEQ` is taken on exactly those on
/// which `BNE` is not, and a displacement and its negative cancel.
pub proof fn lemma_branch_symmetry(a: u32, b: u32, k: u32, pc: u32)
    requires
        0 < k <= 0x7fff,
    ensures
        branch_taken(op::i::BEQ, a, b) <==> !branch_taken(op::i::BNE, a, b),
        displacement(k) == 4 * k,
        displacement((0x1_0000 - k) as u32) == 0x1_0000_0000 - 4 * k,
        pc.wrapping_add(displacement(k)).wrapping_add(displacement((0x1_0000 - k) as u32)) == pc,
{
}

} // verus!
