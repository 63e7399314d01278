//! The virtual machine configuration that a fuzzing run draws from its input.
use vstd::prelude::*;
use arbitrary::Unstructured;

verus! {

#[verifier::external_type_specification]
#[verifier::external_body]
pub struct ExUnstructured<'a>(Unstructured<'a>);

#[verifier::external_type_specification]
#[verifier::external_body]
pub struct ExArbitraryError(arbitrary::Error);

/// The raw bytes that an `Unstructured` has not handed out yet.
pub uninterp spec fn unstructured_data(u: Unstructured) -> Seq<u8>;

/// Byte `i` of `s`, or zero past its end: how `arbitrary` pads data that
/// runs out.
pub open spec fn padded_byte(s: Seq<u8>, i: int) -> u8 {
    if 0 <= i < s.len() {
        s[i]
    } else {
        0
    }
}

/// `s` after its first `n` bytes, or the empty sequence when it is shorter.
pub open spec fn consumed(s: Seq<u8>, n: int) -> Seq<u8> {
    if n <= s.len() {
        s.skip(n)
    } else {
        Seq::empty()
    }
}

/// The little-endian 16-bit number in the first two (padded) bytes of `s`.
pub open spec fn le_u16(s: Seq<u8>) -> u16 {
    (padded_byte(s, 0) as int + 256 * padded_byte(s, 1) as int) as u16
}

/// `arbitrary`'s `u8::arbitrary`: the next byte of the data, zero when the
/// data is used up; the byte is consumed. It never fails.
#[verifier::external_body]
fn arbitrary_u8(u: &mut Unstructured) -> (r: Result<u8, arbitrary::Error>)
    ensures
        r matches Ok(v) && v == padded_byte(unstructured_data(*old(u)), 0),
        unstructured_data(*final(u)) == consumed(unstructured_data(*old(u)), 1),
{
    <u8 as arbitrary::Arbitrary>::arbitrary(u)
}

/// `arbitrary`'s `u16::arbitrary`: the next two bytes of the data as a
/// little-endian number, padded with zeros when the data runs out; the bytes
/// are consumed. It never fails.
#[verifier::external_body]
fn arbitrary_u16(u: &mut Unstructured) -> (r: Result<u16, arbitrary::Error>)
    ensures
        r matches Ok(v) && v == le_u16(unstructured_data(*old(u))),
        unstructured_data(*final(u)) == consumed(unstructured_data(*old(u)), 2),
{
    <u16 as arbitrary::Arbitrary>::arbitrary(u)
}

/// Virtual machine settings that a fuzzing run varies.
#[derive(Clone, Copy, Debug, PartialEq, Eq, Structural)]
pub struct ConfigTemplate {
    pub max_call_depth: usize,
    pub instruction_meter_checkpoint_distance: usize,
    pub noop_instruction_rate: u32,
    pub enable_stack_frame_gaps: bool,
    pub enable_symbol_and_section_labels: bool,
    pub sanitize_user_provided_values: bool,
    pub optimize_rodata: bool,
}

/// Whether bit `k` of `bits` is set.
pub open spec fn bit_set(bits: u16, k: nat) -> bool {
    (bits as nat / vstd::arithmetic::power2::pow2(k)) % 2 == 1
}

/// The settings that the drawn values give: a call depth one above the drawn
/// byte (so never zero, and at most 256), the two drawn 16-bit numbers, and
/// four switches taken from bits 0, 1, 3 and 9 of the drawn flags.
pub open spec fn template_from_values(flags: u16, depth: u8, distance: u16, noop_rate: u16) -> ConfigTemplate {
    ConfigTemplate {
        max_call_depth: (depth + 1) as usize,
        instruction_meter_checkpoint_distance: distance as usize,
        noop_instruction_rate: noop_rate as u32,
        enable_stack_frame_gaps: bit_set(flags, 0),
        enable_symbol_and_section_labels: bit_set(flags, 1),
        sanitize_user_provided_values: bit_set(flags, 3),
        optimize_rodata: bit_set(flags, 9),
    }
}

/// The settings that `arbitrary` draws from the data `s`: the flags from its
/// first two bytes, then the depth from one byte, then two 16-bit numbers.
pub open spec fn template_from_data(s: Seq<u8>) -> ConfigTemplate {
    let s1 = consumed(s, 2);
    let s2 = consumed(s1, 1);
    let s3 = consumed(s2, 2);
    template_from_values(le_u16(s), padded_byte(s1, 0), le_u16(s2), le_u16(s3))
}

/// The data left after the settings are drawn from `s`.
pub open spec fn data_after_template(s: Seq<u8>) -> Seq<u8> {
    consumed(consumed(consumed(consumed(s, 2), 1), 2), 2)
}

impl ConfigTemplate {
    /// Settings within the ranges that drawing can give.
    pub open spec fn wf(&self) -> bool {
        &&& 1 <= self.max_call_depth <= 256
        &&& self.instruction_meter_checkpoint_distance <= 0xffff
        &&& self.noop_instruction_rate <= 0xffff
    }

    /// The settings that the drawn values give.
    pub fn from_values(flags: u16, depth: u8, distance: u16, noop_rate: u16) -> (t: ConfigTemplate)
        ensures
            t == template_from_values(flags, depth, distance, noop_rate),
            t.wf(),
            t.enable_stack_frame_gaps == (flags & 1u16 != 0u16),
            t.enable_symbol_and_section_labels == (flags & 2u16 != 0u16),
            t.sanitize_user_provided_values == (flags & 8u16 != 0u16),
            t.optimize_rodata == (flags & 512u16 != 0u16),
            t.max_call_depth == depth as usize + 1,
    {
        proof {
            vstd::arithmetic::power2::lemma2_to64();
            assert(((flags & 1u16) != 0u16) == (flags % 2 == 1)) by (bit_vector);
            assert(((flags & 2u16) != 0u16) == ((flags / 2) % 2 == 1)) by (bit_vector);
            assert(((flags & 8u16) != 0u16) == ((flags / 8) % 2 == 1)) by (bit_vector);
            assert(((flags & 512u16) != 0u16) == ((flags / 512) % 2 == 1)) by (bit_vector);
            assert(1u16 << 0u16 == 1u16 && 1u16 << 1u16 == 2u16 && 1u16 << 3u16 == 8u16 && 1u16 << 9u16 == 512u16) by (bit_vector);
        }
        ConfigTemplate {
            max_call_depth: depth as usize + 1,
            instruction_meter_checkpoint_distance: distance as usize,
            noop_instruction_rate: noop_rate as u32,
            enable_stack_frame_gaps: flags & (1u16 << 0u16) != 0,
            enable_symbol_and_section_labels: flags & (1u16 << 1u16) != 0,
            sanitize_user_provided_values: flags & (1u16 << 3u16) != 0,
            optimize_rodata: flags & (1u16 << 9u16) != 0,
        }
    }

    /// Draws settings from the fuzzer's data: the flags, the depth, the
    /// checkpoint distance and the no-op rate, in that order.
    pub fn arbitrary(u: &mut Unstructured) -> (r: Result<ConfigTemplate, arbitrary::Error>)
        ensures
            r matches Ok(t) && t == template_from_data(unstructured_data(*old(u))) && t.wf(),
            unstructured_data(*final(u)) == data_after_template(unstructured_data(*old(u))),
    {
        let flags = match arbitrary_u16(u) {
            Ok(v) => v,
            Err(e) => return Err(e),
        };
        let depth = match arbitrary_u8(u) {
            Ok(v) => v,
            Err(e) => return Err(e),
        };
        let distance = match arbitrary_u16(u) {
            Ok(v) => v,
            Err(e) => return Err(e),
        };
        let noop_rate = match arbitrary_u16(u) {
            Ok(v) => v,
            Err(e) => return Err(e),
        };
        Ok(ConfigTemplate::from_values(flags, depth, distance, noop_rate))
    }

    /// The size hint that the fuzzer is given for these settings: at least
    /// thirteen bytes (one byte, two 16-bit words and an eight-byte word, two
    /// more bytes), with no upper bound.
    pub fn size_hint(depth: usize) -> (r: (usize, Option<usize>))
        ensures
            r.0 == 13,
            r.1 is None,
    {
        (1 + 2 + 8 + 2, None)
    }
}

/// Each switch is one bit of the drawn flags and depends on no other: bits
/// 0, 1, 3 and 9 give the frame gaps, the symbol labels, the sanitizing and
/// the read-only optimization; the call depth is one above the drawn byte.
pub proof fn law_switches_are_single_flag_bits(flags: u16, depth: u8, distance: u16, noop_rate: u16)
    ensures
        template_from_values(flags, depth, distance, noop_rate).enable_stack_frame_gaps == (flags & 1u16 != 0u16),
        template_from_values(flags, depth, distance, noop_rate).enable_symbol_and_section_labels == (flags & 2u16 != 0u16),
        template_from_values(flags, depth, distance, noop_rate).sanitize_user_provided_values == (flags & 8u16 != 0u16),
        template_from_values(flags, depth, distance, noop_rate).optimize_rodata == (flags & 512u16 != 0u16),
        template_from_values(flags, depth, distance, noop_rate).max_call_depth == depth as int + 1,
        template_from_values(flags, depth, distance, noop_rate).instruction_meter_checkpoint_distance == distance,
        template_from_values(flags, depth, distance, noop_rate).noop_instruction_rate == noop_rate,
{
    vstd::arithmetic::power2::lemma2_to64();
    assert(((flags & 1u16) != 0u16) == (flags % 2 == 1)) by (bit_vector);
    assert(((flags & 2u16) != 0u16) == ((flags / 2) % 2 == 1)) by (bit_vector);
    assert(((flags & 8u16) != 0u16) == ((flags / 8) % 2 == 1)) by (bit_vector);
    assert(((flags & 512u16) != 0u16) == ((flags / 512) % 2 == 1)) by (bit_vector);
}

/// Setting one flag bit turns on its switch and no other.
pub proof fn law_one_flag_one_switch(depth: u8, distance: u16, noop_rate: u16)
    ensures
        template_from_values(1, depth, distance, noop_rate).enable_stack_frame_gaps,
        !template_from_values(1, depth, distance, noop_rate).enable_symbol_and_section_labels,
        template_from_values(2, depth, distance, noop_rate).enable_symbol_and_section_labels,
        !template_from_values(2, depth, distance, noop_rate).enable_stack_frame_gaps,
        template_from_values(8, depth, distance, noop_rate).sanitize_user_provided_values,
        !template_from_values(8, depth, distance, noop_rate).optimize_rodata,
        template_from_values(512, depth, distance, noop_rate).optimize_rodata,
        !template_from_values(512, depth, distance, noop_rate).sanitize_user_provided_values,
{
    law_switches_are_single_flag_bits(1, depth, distance, noop_rate);
    law_switches_are_single_flag_bits(2, depth, distance, noop_rate);
    law_switches_are_single_flag_bits(8, depth, distance, noop_rate);
    law_switches_are_single_flag_bits(512, depth, distance, noop_rate);
    assert(1u16 & 1u16 != 0u16 && 1u16 & 2u16 == 0u16 && 2u16 & 2u16 != 0u16 && 2u16 & 1u16 == 0u16) by (bit_vector);
    assert(8u16 & 8u16 != 0u16 && 8u16 & 512u16 == 0u16 && 512u16 & 512u16 != 0u16 && 512u16 & 8u16 == 0u16) by (bit_vector);
}

} // verus!
