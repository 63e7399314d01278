//! Decoding of the eight-byte instruction slots of a program's text, as the
//! disassembly listing reads them.
use vstd::prelude::*;

verus! {

/// The fields of one instruction slot.
#[derive(Clone, Copy, Debug, PartialEq, Eq, Structural)]
pub struct DecodedInsn {
    /// Byte offset of the slot in the text.
    pub ptr: usize,
    /// Operation code: the slot's first byte.
    pub opc: u8,
    /// Destination register: the low half of the second byte.
    pub dst: u8,
    /// Source register: the high half of the second byte.
    pub src: u8,
    /// Offset: bytes 2 and 3, little-endian, as a signed 16-bit number.
    pub off: i16,
    /// Immediate: bytes 4 to 7, little-endian, as an unsigned 32-bit number.
    pub imm: i64,
}

/// The 16-bit pattern `v` read as a two's complement number.
pub open spec fn as_signed16(v: int) -> int {
    if v < 0x8000 {
        v
    } else {
        v - 0x10000
    }
}

/// The instruction in the slot that starts at byte `pc` of `code`.
pub open spec fn decoded_at(code: Seq<u8>, pc: int) -> DecodedInsn {
    DecodedInsn {
        ptr: pc as usize,
        opc: code[pc],
        dst: (code[pc + 1] % 16) as u8,
        src: (code[pc + 1] / 16) as u8,
        off: as_signed16(code[pc + 2] + 0x100 * code[pc + 3]) as i16,
        imm: (code[pc + 4] + 0x100 * code[pc + 5] + 0x1_0000 * code[pc + 6] + 0x100_0000 * code[pc + 7]) as i64,
    }
}

/// Decodes the slot that starts at byte `pc` of `code`.
pub fn decode_insn(code: &[u8], pc: usize) -> (insn: DecodedInsn)
    requires
        pc + 8 <= code@.len(),
    ensures
        insn == decoded_at(code@, pc as int),
        insn.dst == code@[pc + 1] & 0xfu8,
        insn.src == code@[pc + 1] >> 4u8,
{
    let len = code.len();
    assert(pc + 8 <= len);
    let b1 = code[pc + 1];
    let b2 = code[pc + 2];
    let b3 = code[pc + 3];
    let b4 = code[pc + 4];
    let b5 = code[pc + 5];
    let b6 = code[pc + 6];
    let b7 = code[pc + 7];
    let off_bits: u16 = (b2 as u16) | ((b3 as u16) << 8u16);
    let imm_bits: u32 = (b4 as u32) | ((b5 as u32) << 8u32) | ((b6 as u32) << 16u32) | ((b7 as u32) << 24u32);
    proof {
        assert(b1 & 0xfu8 == b1 % 16 && b1 >> 4u8 == b1 / 16) by (bit_vector);
        assert(((b2 as u16) | ((b3 as u16) << 8u16)) == b2 + 0x100 * b3) by (bit_vector);
        assert(((b4 as u32) | ((b5 as u32) << 8u32) | ((b6 as u32) << 16u32) | ((b7 as u32) << 24u32))
            == b4 + 0x100 * b5 + 0x1_0000 * b6 + 0x100_0000 * b7) by (bit_vector);
        assert((off_bits as i16) as int == as_signed16(off_bits as int)) by (bit_vector);
    }
    proof {
        assert(b1 & 0xfu8 == (b1 % 16) as u8) by (bit_vector);
    }
    DecodedInsn {
        ptr: pc,
        opc: code[pc],
        dst: b1 & 0xf,
        src: b1 >> 4u8,
        off: #[verifier::truncate] (off_bits as i16),
        imm: imm_bits as i64,
    }
}

/// The instructions of `code`, one per complete eight-byte slot, in order; a
/// shorter tail is not an instruction and is left out.
pub fn instruction_listing(code: &[u8]) -> (insns: Vec<DecodedInsn>)
    ensures
        insns@.len() == code@.len() / 8,
        forall|i: int| 0 <= i < insns@.len() ==> #[trigger] insns@[i] == decoded_at(code@, 8 * i),
{
    let mut insns: Vec<DecodedInsn> = Vec::new();
    let mut pc: usize = 0;
    while pc < code.len()
        invariant_except_break
            pc % 8 == 0,
            pc <= code@.len(),
            insns@.len() == pc / 8,
            forall|i: int| 0 <= i < insns@.len() ==> #[trigger] insns@[i] == decoded_at(code@, 8 * i),
        ensures
            insns@.len() == code@.len() / 8,
            forall|i: int| 0 <= i < insns@.len() ==> #[trigger] insns@[i] == decoded_at(code@, 8 * i),
        decreases code@.len() - pc,
    {
        if code.len() - pc >= 8 {
            let insn = decode_insn(code, pc);
            insns.push(insn);
            pc = pc + 8;
        } else {
            break;
        }
    }
    insns
}

/// Every decoded register number names one of sixteen registers, and every
/// immediate is an unsigned 32-bit number.
pub proof fn lemma_decoded_fields_in_range(code: Seq<u8>, pc: int)
    requires
        0 <= pc,
        pc + 8 <= code.len() <= usize::MAX,
    ensures
        decoded_at(code, pc).dst < 16,
        decoded_at(code, pc).src < 16,
        0 <= decoded_at(code, pc).imm < 0x1_0000_0000,
        decoded_at(code, pc).ptr == pc,
{
}

/// Decoding loses no bit of a slot: the operation code is the first byte, the
/// two register numbers are the low and the high half of the second byte
/// (together they give the byte back, and each covers all of 0 to 15), the
/// offset's two's complement bits are bytes 2 and 3, and the immediate is
/// bytes 4 to 7, all little-endian.
pub proof fn law_decoding_keeps_every_bit(code: Seq<u8>, pc: int)
    requires
        0 <= pc,
        pc + 8 <= code.len() <= usize::MAX,
    ensures
        decoded_at(code, pc).opc == code[pc],
        decoded_at(code, pc).dst == code[pc + 1] & 0xfu8,
        decoded_at(code, pc).src == code[pc + 1] >> 4u8,
        decoded_at(code, pc).dst + 16 * decoded_at(code, pc).src == code[pc + 1],
        (decoded_at(code, pc).off + 0x10000) % 0x10000 == code[pc + 2] + 0x100 * code[pc + 3],
        decoded_at(code, pc).imm == code[pc + 4] + 0x100 * code[pc + 5] + 0x1_0000 * code[pc + 6]
            + 0x100_0000 * code[pc + 7],
        decoded_at(code, pc).ptr == pc,
{
    let b = code[pc + 1];
    assert(b & 0xfu8 == (b % 16) as u8 && b >> 4u8 == (b / 16) as u8) by (bit_vector);
}

/// Slots that differ in their second byte decode to different register pairs.
pub proof fn law_register_bytes_decode_apart(code1: Seq<u8>, code2: Seq<u8>, pc: int)
    requires
        0 <= pc,
        pc + 8 <= code1.len() <= usize::MAX,
        pc + 8 <= code2.len() <= usize::MAX,
        code1[pc + 1] != code2[pc + 1],
    ensures
        decoded_at(code1, pc).dst != decoded_at(code2, pc).dst
            || decoded_at(code1, pc).src != decoded_at(code2, pc).src,
{
    law_decoding_keeps_every_bit(code1, pc);
    law_decoding_keeps_every_bit(code2, pc);
}

} // verus!
