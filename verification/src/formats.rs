//! Decoders for the six RV32I instruction formats.
//!
//! Each decoder is a pure function from a raw 32-bit instruction word to a
//! record of its bit-packed fields, with the immediate sign-extended where
//! the format calls for it. Any 32-bit word decodes; semantic validity
//! (undefined opcode or function selectors) is the interpreter's concern.

use vstd::arithmetic::power2::pow2;
use vstd::bits::low_bits_mask;
use vstd::prelude::*;

verus! {

/// The value of the low `len` bits of `val`, read as a two's-complement
/// number of `len` bits.
pub open spec fn sext(val: u64, len: nat) -> int
    recommends
        1 <= len <= 32,
{
    let m = (val as int) % (pow2(len) as int);
    if m >= pow2((len - 1) as nat) {
        m - pow2(len)
    } else {
        m
    }
}

/// A left shift followed by an arithmetic right shift by the same amount
/// recovers the low `len` bits of `val` as a two's-complement number.
proof fn lemma_shift_pair_is_sext(val: u64, len: u32, sh: u32, r: i64)
    requires
        1 <= len <= 32,
        sh == 64 - len,
        r == (#[verifier::truncate] ((val << sh) as i64)) >> sh,
    ensures
        r == sext(val, len as nat),
{
    let n = len as nat;
    vstd::bits::lemma_u64_pow2_no_overflow(n);
    vstd::bits::lemma_u64_pow2_no_overflow((n - 1) as nat);
    let lowmask = low_bits_mask(n) as u64;
    vstd::bits::lemma_u64_low_bits_mask_is_mod(val, n);
    vstd::bits::lemma_u64_shl_is_mul(1u64, len as u64);
    vstd::bits::lemma_u64_shl_is_mul(1u64, (len - 1) as u64);
    vstd::arithmetic::power2::lemma_pow2_strictly_increases((n - 1) as nat, n);
    let modl: u64 = 1u64 << len;
    let lm1: u32 = (len - 1) as u32;
    let hhalf: u64 = 1u64 << lm1;
    assert(modl == pow2(n));
    assert(hhalf == pow2((n - 1) as nat));
    assert(lowmask == ((1u64 << len) - 1) as u64);
    assert(r == (if (val & lowmask) >= hhalf {
        (val & lowmask) - modl
    } else {
        (val & lowmask) as int
    })) by (bit_vector)
        requires
            1 <= len <= 32,
            sh == 64 - len,
            r == (#[verifier::truncate] ((val << sh) as i64)) >> sh,
            lowmask == ((1u64 << len) - 1) as u64,
            modl == 1u64 << len,
            hhalf == 1u64 << lm1,
            lm1 == len - 1,
    ;
    assert((val & lowmask) == val % (pow2(n) as u64));
    assert(val % (pow2(n) as u64) == (val as int) % (pow2(n) as int));
}

/// Sign-extends the low `len` bits of `val` into a 64-bit signed value.
pub fn sign_extend(val: u64, len: u32) -> (r: i64)
    requires
        1 <= len <= 32,
    ensures
        r == sext(val, len as nat),
{
    let shift_amount = 64 - len;
    let r = (#[verifier::truncate] ((val << shift_amount) as i64)) >> shift_amount;
    proof {
        lemma_shift_pair_is_sext(val, len, shift_amount, r);
    }
    r
}

/// The opcode: the low seven bits of the instruction word.
pub open spec fn opcode_of(ins: u32) -> u32 {
    ins & 0b1111111
}

/// The destination register field, bits 11:7.
pub open spec fn rd_of(ins: u32) -> u8 {
    ((ins >> 7) & 0b11111) as u8
}

/// The funct3 selector field, bits 14:12.
pub open spec fn funct3_of(ins: u32) -> u8 {
    ((ins >> 12) & 0b111) as u8
}

/// The first source register field, bits 19:15.
pub open spec fn rs1_of(ins: u32) -> u8 {
    ((ins >> 15) & 0b11111) as u8
}

/// The second source register field, bits 24:20.
pub open spec fn rs2_of(ins: u32) -> u8 {
    ((ins >> 20) & 0b11111) as u8
}

/// The funct7 selector field, bits 31:25.
pub open spec fn funct7_of(ins: u32) -> u8 {
    (ins >> 25) as u8
}

/// The I-format immediate: bits 31:20, sign-extended from 12 bits.
pub open spec fn imm_i_of(ins: u32) -> int {
    sext((ins >> 20) as u64, 12)
}

/// The S-format immediate: bits 31:25 over bits 11:7, sign-extended from 12
/// bits.
pub open spec fn imm_s_of(ins: u32) -> int {
    sext((((ins >> 25) << 5) | ((ins >> 7) & 0b11111)) as u64, 12)
}

/// The B-format immediate: bit 31, bit 7, bits 30:25, bits 11:8, then a zero
/// bit, sign-extended from 13 bits.
pub open spec fn imm_b_of(ins: u32) -> int {
    sext(
        ((((ins >> 31) & 1) << 12) | (((ins >> 7) & 1) << 11) | (((ins >> 25) & 0b111111) << 5) | (
        ((ins >> 8) & 0b1111) << 1)) as u64,
        13,
    )
}

/// The U-format immediate: bits 31:12 in place, low twelve bits zero, read
/// as a signed 32-bit value.
pub open spec fn imm_u_of(ins: u32) -> int {
    sext((ins & 0xFFFFF000) as u64, 32)
}

/// The J-format immediate: bit 31, bits 19:12, bit 20, bits 30:21, then a
/// zero bit, sign-extended from 21 bits.
pub open spec fn imm_j_of(ins: u32) -> int {
    sext(
        ((((ins >> 31) & 1) << 20) | (((ins >> 12) & 0xFF) << 12) | (((ins >> 20) & 1) << 11) | (
        ((ins >> 21) & 0x3FF) << 1)) as u64,
        21,
    )
}

/// Sign law for the I-format immediate: when the top immediate bit (bit 31
/// of the word) is set, the immediate is the negative value whose low twelve
/// bits are the raw field; when it is clear, the immediate equals the raw
/// field and is non-negative.
pub proof fn lemma_imm_i_sign(ins: u32)
    ensures
        ins >> 31 == 1 ==> imm_i_of(ins) < 0 && imm_i_of(ins) == (ins >> 20) - 4096,
        ins >> 31 == 0 ==> imm_i_of(ins) >= 0 && imm_i_of(ins) == ins >> 20,
{
    let raw = (ins >> 20) as u64;
    vstd::arithmetic::power2::lemma2_to64();
    assert(raw < 4096 && ((ins >> 31 == 1) <==> raw >= 2048) && (ins >> 31 == 0 || ins >> 31 == 1))
        by (bit_vector)
        requires
            raw == (ins >> 20) as u64,
    ;
    assert((raw as int) % (pow2(12) as int) == raw);
}

/// Sign law for the S-format immediate, over the raw split field.
pub proof fn lemma_imm_s_sign(ins: u32)
    ensures
        ins >> 31 == 1 ==> imm_s_of(ins) < 0 && imm_s_of(ins) == (((ins >> 25) << 5) | ((ins >> 7)
            & 0b11111)) - 4096,
        ins >> 31 == 0 ==> imm_s_of(ins) >= 0 && imm_s_of(ins) == (((ins >> 25) << 5) | ((ins >> 7)
            & 0b11111)),
{
    let raw = ((((ins >> 25) << 5) | ((ins >> 7) & 0b11111))) as u64;
    vstd::arithmetic::power2::lemma2_to64();
    assert(raw < 4096 && ((ins >> 31 == 1) <==> raw >= 2048) && (ins >> 31 == 0 || ins >> 31 == 1))
        by (bit_vector)
        requires
            raw == ((((ins >> 25) << 5) | ((ins >> 7) & 0b11111))) as u64,
    ;
    assert((raw as int) % (pow2(12) as int) == raw);
}

/// Sign law for the B-format immediate, over the raw assembled field.
pub proof fn lemma_imm_b_sign(ins: u32)
    ensures
        ins >> 31 == 1 ==> imm_b_of(ins) < 0 && imm_b_of(ins) == ((((ins >> 31) & 1) << 12) | (((
        ins >> 7) & 1) << 11) | (((ins >> 25) & 0b111111) << 5) | (((ins >> 8) & 0b1111) << 1))
            - 8192,
        ins >> 31 == 0 ==> imm_b_of(ins) >= 0 && imm_b_of(ins) == ((((ins >> 31) & 1) << 12) | (((
        ins >> 7) & 1) << 11) | (((ins >> 25) & 0b111111) << 5) | (((ins >> 8) & 0b1111) << 1)),
{
    let raw = (((((ins >> 31) & 1) << 12) | (((ins >> 7) & 1) << 11) | (((ins >> 25) & 0b111111)
        << 5) | (((ins >> 8) & 0b1111) << 1))) as u64;
    vstd::arithmetic::power2::lemma2_to64();
    assert(raw < 8192 && ((ins >> 31 == 1) <==> raw >= 4096) && (ins >> 31 == 0 || ins >> 31 == 1))
        by (bit_vector)
        requires
            raw == (((((ins >> 31) & 1) << 12) | (((ins >> 7) & 1) << 11) | (((ins >> 25)
                & 0b111111) << 5) | (((ins >> 8) & 0b1111) << 1))) as u64,
    ;
    assert((raw as int) % (pow2(13) as int) == raw);
}

/// Sign law for the J-format immediate, over the raw assembled field.
pub proof fn lemma_imm_j_sign(ins: u32)
    ensures
        ins >> 31 == 1 ==> imm_j_of(ins) < 0 && imm_j_of(ins) == ((((ins >> 31) & 1) << 20) | (((
        ins >> 12) & 0xFF) << 12) | (((ins >> 20) & 1) << 11) | (((ins >> 21) & 0x3FF) << 1))
            - 2097152,
        ins >> 31 == 0 ==> imm_j_of(ins) >= 0 && imm_j_of(ins) == ((((ins >> 31) & 1) << 20) | (((
        ins >> 12) & 0xFF) << 12) | (((ins >> 20) & 1) << 11) | (((ins >> 21) & 0x3FF) << 1)),
{
    let raw = (((((ins >> 31) & 1) << 20) | (((ins >> 12) & 0xFF) << 12) | (((ins >> 20) & 1)
        << 11) | (((ins >> 21) & 0x3FF) << 1))) as u64;
    vstd::arithmetic::power2::lemma2_to64();
    assert(raw < 2097152 && ((ins >> 31 == 1) <==> raw >= 1048576) && (ins >> 31 == 0 || ins >> 31
        == 1)) by (bit_vector)
        requires
            raw == (((((ins >> 31) & 1) << 20) | (((ins >> 12) & 0xFF) << 12) | (((ins >> 20) & 1)
                << 11) | (((ins >> 21) & 0x3FF) << 1))) as u64,
    ;
    assert((raw as int) % (pow2(21) as int) == raw);
}

/// R-format fields: register-register operations.
#[derive(Clone, Copy, Debug, PartialEq, Eq, Structural)]
pub struct RType {
    pub rd: u8,
    pub funct3: u8,
    pub rs1: u8,
    pub rs2: u8,
    pub funct7: u8,
}

impl RType {
    /// Extracts the R-format fields of `ins`.
    pub fn decode(ins: u32) -> (r: RType)
        ensures
            r.rd == rd_of(ins) && r.rd < 32,
            r.funct3 == funct3_of(ins) && r.funct3 < 8,
            r.rs1 == rs1_of(ins) && r.rs1 < 32,
            r.rs2 == rs2_of(ins) && r.rs2 < 32,
            r.funct7 == funct7_of(ins) && r.funct7 < 128,
    {
        proof {
            assert(((ins >> 7) & 0b11111) < 32 && ((ins >> 12) & 0b111) < 8 && ((ins >> 15)
                & 0b11111) < 32 && ((ins >> 20) & 0b11111) < 32 && (ins >> 25) < 128)
                by (bit_vector);
        }
        RType {
            rd: ((ins >> 7) & 0b11111) as u8,
            funct3: ((ins >> 12) & 0b111) as u8,
            rs1: ((ins >> 15) & 0b11111) as u8,
            rs2: ((ins >> 20) & 0b11111) as u8,
            funct7: (ins >> 25) as u8,
        }
    }
}

/// I-format fields: register-immediate operations, loads, JALR, SYSTEM.
#[derive(Clone, Copy, Debug, PartialEq, Eq, Structural)]
pub struct IType {
    pub rd: u8,
    pub funct3: u8,
    pub rs1: u8,
    pub imm: i64,
}

impl IType {
    /// Extracts the I-format fields of `ins`, sign-extending the immediate.
    pub fn decode(ins: u32) -> (r: IType)
        ensures
            r.rd == rd_of(ins) && r.rd < 32,
            r.funct3 == funct3_of(ins) && r.funct3 < 8,
            r.rs1 == rs1_of(ins) && r.rs1 < 32,
            r.imm == imm_i_of(ins),
    {
        proof {
            assert(((ins >> 7) & 0b11111) < 32 && ((ins >> 12) & 0b111) < 8 && ((ins >> 15)
                & 0b11111) < 32) by (bit_vector);
        }
        IType {
            rd: ((ins >> 7) & 0b11111) as u8,
            funct3: ((ins >> 12) & 0b111) as u8,
            rs1: ((ins >> 15) & 0b11111) as u8,
            imm: sign_extend((ins >> 20) as u64, 12),
        }
    }
}

/// S-format fields: stores.
#[derive(Clone, Copy, Debug, PartialEq, Eq, Structural)]
pub struct SType {
    pub funct3: u8,
    pub rs1: u8,
    pub rs2: u8,
    pub imm: i64,
}

impl SType {
    /// Extracts the S-format fields of `ins`, assembling and sign-extending
    /// the split immediate.
    pub fn decode(ins: u32) -> (r: SType)
        ensures
            r.funct3 == funct3_of(ins) && r.funct3 < 8,
            r.rs1 == rs1_of(ins) && r.rs1 < 32,
            r.rs2 == rs2_of(ins) && r.rs2 < 32,
            r.imm == imm_s_of(ins),
    {
        proof {
            assert(((ins >> 12) & 0b111) < 8 && ((ins >> 15) & 0b11111) < 32 && ((ins >> 20)
                & 0b11111) < 32) by (bit_vector);
        }
        let raw = ((ins >> 25) << 5) | ((ins >> 7) & 0b11111);
        SType {
            funct3: ((ins >> 12) & 0b111) as u8,
            rs1: ((ins >> 15) & 0b11111) as u8,
            rs2: ((ins >> 20) & 0b11111) as u8,
            imm: sign_extend(raw as u64, 12),
        }
    }
}

/// B-format fields: conditional branches.
#[derive(Clone, Copy, Debug, PartialEq, Eq, Structural)]
pub struct BType {
    pub imm: i64,
    pub funct3: u8,
    pub rs1: u8,
    pub rs2: u8,
}

impl BType {
    /// Extracts the B-format fields of `ins`, assembling and sign-extending
    /// the split immediate.
    pub fn decode(ins: u32) -> (r: BType)
        ensures
            r.funct3 == funct3_of(ins) && r.funct3 < 8,
            r.rs1 == rs1_of(ins) && r.rs1 < 32,
            r.rs2 == rs2_of(ins) && r.rs2 < 32,
            r.imm == imm_b_of(ins),
    {
        proof {
            assert(((ins >> 12) & 0b111) < 8 && ((ins >> 15) & 0b11111) < 32 && ((ins >> 20)
                & 0b11111) < 32) by (bit_vector);
        }
        let raw = (((ins >> 31) & 1) << 12) | (((ins >> 7) & 1) << 11) | (((ins >> 25) & 0b111111)
            << 5) | (((ins >> 8) & 0b1111) << 1);
        BType {
            imm: sign_extend(raw as u64, 13),
            funct3: ((ins >> 12) & 0b111) as u8,
            rs1: ((ins >> 15) & 0b11111) as u8,
            rs2: ((ins >> 20) & 0b11111) as u8,
        }
    }
}

/// U-format fields: LUI and AUIPC.
#[derive(Clone, Copy, Debug, PartialEq, Eq, Structural)]
pub struct UType {
    pub rd: u8,
    pub imm: i64,
}

impl UType {
    /// Extracts the U-format fields of `ins`; the immediate occupies bits
    /// 31:12 in place.
    pub fn decode(ins: u32) -> (r: UType)
        ensures
            r.rd == rd_of(ins) && r.rd < 32,
            r.imm == imm_u_of(ins),
    {
        proof {
            assert(((ins >> 7) & 0b11111) < 32) by (bit_vector);
        }
        UType {
            rd: ((ins >> 7) & 0b11111) as u8,
            imm: sign_extend((ins & 0xFFFFF000) as u64, 32),
        }
    }
}

/// J-format fields: JAL.
#[derive(Clone, Copy, Debug, PartialEq, Eq, Structural)]
pub struct JType {
    pub rd: u8,
    pub imm: i64,
}

impl JType {
    /// Extracts the J-format fields of `ins`, assembling and sign-extending
    /// the split immediate.
    pub fn decode(ins: u32) -> (r: JType)
        ensures
            r.rd == rd_of(ins) && r.rd < 32,
            r.imm == imm_j_of(ins),
    {
        proof {
            assert(((ins >> 7) & 0b11111) < 32) by (bit_vector);
        }
        let raw = (((ins >> 31) & 1) << 20) | (((ins >> 12) & 0xFF) << 12) | (((ins >> 20) & 1)
            << 11) | (((ins >> 21) & 0x3FF) << 1);
        JType {
            rd: ((ins >> 7) & 0b11111) as u8,
            imm: sign_extend(raw as u64, 21),
        }
    }
}

} // verus!
