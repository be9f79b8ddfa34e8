//! Sample formats: how one sample is laid out in the 16-bit words of the data register.
//!
//! The data register is 16 bits wide. A 16-bit sample takes one word; a 24-bit or a 32-bit
//! sample takes two, the most significant half first.
//!
//! # 24 bits in a 32-bit channel
//!
//! With the Philips, MSB justified and PCM standards the sample is left-aligned in the
//! channel: the first word carries bits 23 to 8, the second carries bits 7 to 0 in its high
//! byte and a low byte that is sent as zero and ignored when received.
//!
//! With the LSB justified standard the sample is right-aligned: the first word carries bits 23
//! to 16 in its low byte, with a high byte sent as zero and ignored when received, and the
//! second word carries bits 15 to 0.
//!
//! When transmitting, the 8 most significant bits of the 32-bit value in memory are ignored.
//! When receiving, the sample is sign-extended to 32 bits.

use vstd::prelude::*;
use crate::driver::{DataFormat, I2sStandard};
use crate::prescaler::spec_nb_channels;
use crate::registers::{spec_has_bits, Access, Recorded, Register, SR_RXNE, SR_TXE};
use crate::RegisterBlock;

verus! {

/// A 24-bit value sign-extended into 32 bits. Bits 24 to 31 of `value` are expected to be 0.
pub open spec fn spec_sign_extend_24_to_32(value: u32) -> u32 {
    if (value >> 23) & 1 == 1 {
        0xff000000 | value
    } else {
        value
    }
}

/// The 32-bit value whose low 24 bits are those of `sample` and whose other bits repeat
/// bit 23.
pub open spec fn spec_sign_extend_24(sample: i32) -> i32 {
    spec_sign_extend_24_to_32((sample as u32) & 0x00ff_ffff) as i32
}

/// The two words of a 24-bit sample, left-aligned.
pub open spec fn spec_split_sample_msb_justified(sample: i32) -> Seq<u16> {
    seq![((sample as u32) >> 8) as u16, (((sample as u32) & 0xff) << 8) as u16]
}

/// The two words of a 24-bit sample, right-aligned.
pub open spec fn spec_split_sample_lsb_justified(sample: i32) -> Seq<u16> {
    seq![(((sample as u32) >> 16) & 0xff) as u16, (sample as u32) as u16]
}

/// The 24-bit sample that two words carry left-aligned, sign-extended.
pub open spec fn spec_build_sample_msb_justified(values: Seq<u16>) -> i32
    recommends
        values.len() == 2,
{
    spec_sign_extend_24_to_32(
        ((values[0] as u32) << 8) | (((values[1] & 0xff00) as u32) >> 8),
    ) as i32
}

/// The 24-bit sample that two words carry right-aligned, sign-extended.
pub open spec fn spec_build_sample_lsb_justified(values: Seq<u16>) -> i32
    recommends
        values.len() == 2,
{
    spec_sign_extend_24_to_32((((values[0] & 0x00ff) as u32) << 16) | (values[1] as u32)) as i32
}

/// The two words of a 32-bit sample, most significant half first.
pub open spec fn spec_split_sample_32(sample: i32) -> Seq<u16> {
    seq![((sample as u32) >> 16) as u16, (sample as u32) as u16]
}

/// The 32-bit sample that two words carry, most significant half first.
pub open spec fn spec_build_sample_32(values: Seq<u16>) -> i32
    recommends
        values.len() == 2,
{
    (((values[0] as u32) << 16) | (values[1] as u32)) as i32
}

/// Sign-extends a 24-bit integer into 32 bits.
pub fn sign_extend_24_to_32(value: u32) -> (extended: u32)
    ensures
        extended == spec_sign_extend_24_to_32(value),
{
    if ((value >> 23) & 1) == 1 {
        0xff000000 | value
    } else {
        value
    }
}

/// Builds a sample from two data register reads for the Philips, MSB justified and PCM
/// standards.
pub fn build_sample_msb_justified(values: [u16; 2]) -> (sample: i32)
    ensures
        sample == spec_build_sample_msb_justified(values@),
{
    // Read 1 has the two middle bytes, read 2 has the least significant byte followed by an
    // unspecified value
    let read1: u16 = values[0];
    let read2: u16 = values[1] & 0xff00;
    let sample: u32 = ((read1 as u32) << 8) | ((read2 as u32) >> 8);
    #[verifier::truncate]
    (sign_extend_24_to_32(sample) as i32)
}

/// Builds a sample from two data register reads for the LSB justified standard.
pub fn build_sample_lsb_justified(values: [u16; 2]) -> (sample: i32)
    ensures
        sample == spec_build_sample_lsb_justified(values@),
{
    // Read 1 has the most significant byte, read 2 has the other two bytes
    let read1: u16 = values[0] & 0x00ff;
    let read2: u16 = values[1];
    let sample: u32 = ((read1 as u32) << 16) | (read2 as u32);
    #[verifier::truncate]
    (sign_extend_24_to_32(sample) as i32)
}

/// Splits a 32-bit sample into two data register writes for the Philips, MSB justified and
/// PCM standards.
pub fn split_sample_msb_justified(sample: i32) -> (words: [u16; 2])
    ensures
        words@ == spec_split_sample_msb_justified(sample),
{
    let sample: u32 = #[verifier::truncate] (sample as u32);
    // Write 1 has the two middle bytes, write 2 has the least significant byte followed by 0x00
    let write1: u16 = #[verifier::truncate] ((sample >> 8) as u16);
    let write2: u16 = #[verifier::truncate] (((sample & 0xff) << 8) as u16);
    let words: [u16; 2] = [write1, write2];
    assert(words@ =~= seq![write1, write2]);
    words
}

/// Splits a 32-bit sample into two data register writes for the LSB justified standard.
pub fn split_sample_lsb_justified(sample: i32) -> (words: [u16; 2])
    ensures
        words@ == spec_split_sample_lsb_justified(sample),
{
    let sample: u32 = #[verifier::truncate] (sample as u32);
    // Write 1 has 0x00 and the most significant byte, write 2 has the two least significant
    // bytes
    let write1: u16 = #[verifier::truncate] (((sample >> 16) & 0xff) as u16);
    let write2: u16 = #[verifier::truncate] (sample as u16);
    let words: [u16; 2] = [write1, write2];
    assert(words@ =~= seq![write1, write2]);
    words
}

/// Splits a 32-bit sample into two data register writes, most significant half first.
pub fn split_sample_32(sample: i32) -> (words: [u16; 2])
    ensures
        words@ == spec_split_sample_32(sample),
{
    let sample: u32 = #[verifier::truncate] (sample as u32);
    let msbs: u16 = #[verifier::truncate] ((sample >> 16) as u16);
    let lsbs: u16 = #[verifier::truncate] (sample as u16);
    let words: [u16; 2] = [msbs, lsbs];
    assert(words@ =~= seq![msbs, lsbs]);
    words
}

/// Builds a 32-bit sample from two data register reads, most significant half first.
pub fn build_sample_32(values: [u16; 2]) -> (sample: i32)
    ensures
        sample == spec_build_sample_32(values@),
{
    let msbs: u16 = values[0];
    let lsbs: u16 = values[1];
    #[verifier::truncate]
    ((((msbs as u32) << 16) | (lsbs as u32)) as i32)
}

/// Sending a sample left-aligned and receiving it gives its low 24 bits, sign-extended.
pub proof fn lemma_msb_justified_round_trip(sample: i32)
    ensures
        spec_build_sample_msb_justified(spec_split_sample_msb_justified(sample))
            == spec_sign_extend_24(sample),
{
    let s: u32 = sample as u32;
    let w1: u16 = (s >> 8) as u16;
    let w2: u16 = ((s & 0xff) << 8) as u16;
    assert(((w1 as u32) << 8) | (((w2 & 0xff00) as u32) >> 8) == s & 0x00ff_ffff) by (bit_vector)
        requires
            w1 == (s >> 8) as u16,
            w2 == ((s & 0xff) << 8) as u16,
    ;
}

/// Sending a sample right-aligned and receiving it gives its low 24 bits, sign-extended.
pub proof fn lemma_lsb_justified_round_trip(sample: i32)
    ensures
        spec_build_sample_lsb_justified(spec_split_sample_lsb_justified(sample))
            == spec_sign_extend_24(sample),
{
    let s: u32 = sample as u32;
    let w1: u16 = ((s >> 16) & 0xff) as u16;
    let w2: u16 = s as u16;
    assert((((w1 & 0x00ff) as u32) << 16) | (w2 as u32) == s & 0x00ff_ffff) by (bit_vector)
        requires
            w1 == ((s >> 16) & 0xff) as u16,
            w2 == s as u16,
    ;
}

/// A sample that fits in 24 bits is its own sign extension: it comes back unchanged from
/// either layout.
pub proof fn lemma_sign_extend_24_of_24_bit_value(sample: i32)
    requires
        -0x80_0000 <= sample < 0x80_0000,
    ensures
        spec_sign_extend_24(sample) == sample,
{
    let s: u32 = sample as u32;
    let v: u32 = s & 0x00ff_ffff;
    assert(-0x80_0000 <= sample < 0x80_0000 ==> (if ((sample as u32) & 0x00ff_ffff) >> 23 & 1
        == 1 {
        0xff000000 | ((sample as u32) & 0x00ff_ffff)
    } else {
        (sample as u32) & 0x00ff_ffff
    }) as i32 == sample) by (bit_vector);
}

/// Sign extension only looks at the low 24 bits, and what it gives fits in 24 bits.
pub proof fn lemma_sign_extend_24_range(sample: i32)
    ensures
        -0x80_0000 <= spec_sign_extend_24(sample) < 0x80_0000,
        (spec_sign_extend_24(sample) as u32) & 0x00ff_ffff == (sample as u32) & 0x00ff_ffff,
{
    let v: u32 = (sample as u32) & 0x00ff_ffff;
    assert(v <= 0x00ff_ffff ==> {
        let e: u32 = if (v >> 23) & 1 == 1 { 0xff000000 | v } else { v };
        &&& -0x80_0000 <= (e as i32) < 0x80_0000
        &&& ((e as i32) as u32) & 0x00ff_ffff == v
    }) by (bit_vector);
    assert(((sample as u32) & 0x00ff_ffff) <= 0x00ff_ffff) by (bit_vector);
}

/// A 32-bit sample comes back unchanged.
pub proof fn lemma_sample_32_round_trip(sample: i32)
    ensures
        spec_build_sample_32(spec_split_sample_32(sample)) == sample,
{
    let s: u32 = sample as u32;
    let w1: u16 = (s >> 16) as u16;
    let w2: u16 = s as u16;
    assert(((w1 as u32) << 16) | (w2 as u32) == s) by (bit_vector)
        requires
            w1 == (s >> 16) as u16,
            w2 == s as u16,
    ;
    assert((sample as u32) as i32 == sample) by (bit_vector);
}


/// The two words of a 24-bit sample, in the alignment of the standard.
pub open spec fn spec_split_sample_24(standard: I2sStandard, sample: i32) -> Seq<u16> {
    if standard == I2sStandard::Lsb {
        spec_split_sample_lsb_justified(sample)
    } else {
        spec_split_sample_msb_justified(sample)
    }
}

/// The 24-bit sample that two words carry in the alignment of the standard, sign-extended.
pub open spec fn spec_build_sample_24(standard: I2sStandard, values: Seq<u16>) -> i32
    recommends
        values.len() == 2,
{
    if standard == I2sStandard::Lsb {
        spec_build_sample_lsb_justified(values)
    } else {
        spec_build_sample_msb_justified(values)
    }
}

/// Splits a 24-bit sample into two data register writes, in the alignment of the standard.
pub fn split_sample_24(standard: I2sStandard, sample: i32) -> (words: [u16; 2])
    ensures
        words@ == spec_split_sample_24(standard, sample),
{
    match standard {
        I2sStandard::Lsb => split_sample_lsb_justified(sample),
        _ => split_sample_msb_justified(sample),
    }
}

/// Builds a 24-bit sample from two data register reads, in the alignment of the standard.
pub fn build_sample_24(standard: I2sStandard, values: [u16; 2]) -> (sample: i32)
    ensures
        sample == spec_build_sample_24(standard, values@),
{
    match standard {
        I2sStandard::Lsb => build_sample_lsb_justified(values),
        _ => build_sample_msb_justified(values),
    }
}

/// With every standard, sending a 24-bit sample and receiving it gives its low 24 bits,
/// sign-extended.
pub proof fn lemma_sample_24_round_trip(standard: I2sStandard, sample: i32)
    ensures
        spec_build_sample_24(standard, spec_split_sample_24(standard, sample))
            == spec_sign_extend_24(sample),
{
    lemma_msb_justified_round_trip(sample);
    lemma_lsb_justified_round_trip(sample);
}

/// Number of 16-bit words that one sample takes in the data register.
pub open spec fn spec_words_per_sample(format: DataFormat) -> nat {
    match format {
        DataFormat::Data16Channel16 | DataFormat::Data16Channel32 => 1,
        DataFormat::Data24Channel32 | DataFormat::Data32Channel32 => 2,
    }
}

/// Number of 16-bit words of a frame: one sample with the PCM standards, which are
/// monophonic, and a pair of samples with the others.
pub open spec fn spec_frame_len(standard: I2sStandard, format: DataFormat) -> nat {
    (spec_nb_channels(standard) * spec_words_per_sample(format)) as nat
}

/// Number of 16-bit words of a frame.
pub fn frame_len(standard: I2sStandard, format: DataFormat) -> (len: u8)
    ensures
        len == spec_frame_len(standard, format),
        len == 1 || len == 2 || len == 4,
{
    let words: u8 = match format {
        DataFormat::Data16Channel16 | DataFormat::Data16Channel32 => 1,
        DataFormat::Data24Channel32 | DataFormat::Data32Channel32 => 2,
    };
    match standard {
        I2sStandard::PcmShortSync | I2sStandard::PcmLongSync => words,
        _ => 2 * words,
    }
}

/// The words of one frame, in the order in which they cross the data register: one, two or
/// four of them.
#[derive(Debug, Clone, Copy)]
pub struct RawFrame {
    words: [u16; 4],
    len: u8,
}

impl View for RawFrame {
    type V = Seq<u16>;

    closed spec fn view(&self) -> Seq<u16> {
        self.words@.subrange(0, self.len as int)
    }
}

impl RawFrame {
    #[verifier::type_invariant]
    spec fn well_formed(self) -> bool {
        1 <= self.len <= 4
    }

    /// A frame of `len` words, all zero.
    pub(crate) fn zeroed(len: u8) -> (frame: Self)
        requires
            1 <= len <= 4,
        ensures
            frame@ == Seq::new(len as nat, |i: int| 0u16),
    {
        let frame = RawFrame { words: [0, 0, 0, 0], len };
        assert(frame@ =~= Seq::new(len as nat, |i: int| 0u16));
        frame
    }

    /// A frame of one word.
    pub fn from1(words: [u16; 1]) -> (frame: Self)
        ensures
            frame@ == words@,
    {
        let frame = RawFrame { words: [words[0], 0, 0, 0], len: 1 };
        assert(frame@ =~= words@);
        frame
    }

    /// A frame of two words.
    pub fn from2(words: [u16; 2]) -> (frame: Self)
        ensures
            frame@ == words@,
    {
        let frame = RawFrame { words: [words[0], words[1], 0, 0], len: 2 };
        assert(frame@ =~= words@);
        frame
    }

    /// A frame of four words.
    pub fn from4(words: [u16; 4]) -> (frame: Self)
        ensures
            frame@ == words@,
    {
        let frame = RawFrame { words, len: 4 };
        assert(frame@ =~= words@);
        frame
    }

    /// Number of words of the frame.
    pub fn len(&self) -> (len: u8)
        ensures
            len == self@.len(),
            1 <= len <= 4,
    {
        proof {
            use_type_invariant(self);
        }
        self.len
    }

    /// The word at `index`, if the frame has that many.
    pub fn get(&self, index: u8) -> (word: Option<u16>)
        ensures
            word == if index < self@.len() { Some(self@[index as int]) } else { None },
    {
        proof {
            use_type_invariant(self);
        }
        if index < self.len {
            Some(self.words[index as usize])
        } else {
            None
        }
    }

    /// The word at `index`.
    pub(crate) fn word(&self, index: u8) -> (word: u16)
        requires
            index < self@.len(),
        ensures
            word == self@[index as int],
    {
        proof {
            use_type_invariant(self);
        }
        self.words[index as usize]
    }

    /// Replaces the word at `index`.
    pub(crate) fn set(&mut self, index: u8, word: u16)
        requires
            index < old(self)@.len(),
        ensures
            final(self)@ == old(self)@.update(index as int, word),
    {
        proof {
            use_type_invariant(&*self);
        }
        let mut words = self.words;
        words[index as usize] = word;
        let frame = RawFrame { words, len: self.len };
        assert(frame@ =~= self@.update(index as int, word));
        *self = frame;
    }
}

/// What a wait for a flag of the status register adds to the accesses of a block: reads of
/// the status register, none of which but the last may show the flag, and no more than
/// `max_polls` of them.
pub open spec fn spec_is_polling(polls: Seq<Access>, flag: u32, max_polls: u32) -> bool {
    &&& polls.len() <= max_polls
    &&& forall|i: int|
        0 <= i < polls.len() ==> (#[trigger] polls[i] matches Access::Read(reg, value) && reg
            == Register::Sr && (i + 1 < polls.len() ==> !spec_has_bits(value, flag)))
}

/// Whether a wait ended because the flag showed. A wait that did not see the flag has used
/// all its polls.
pub open spec fn spec_flag_seen(polls: Seq<Access>, flag: u32) -> bool {
    polls.len() > 0 && (polls.last() matches Access::Read(reg, value) && reg == Register::Sr
        && spec_has_bits(value, flag))
}

/// The accesses of `read_one_step`: one read of the data register, answered with `raw`.
pub open spec fn spec_read_one_step(raw: u32) -> Seq<Access> {
    seq![Access::Read(Register::Dr, raw)]
}

/// The accesses of `write_two_steps`: the first word, the wait, and the second word if the
/// wait saw the register empty.
pub open spec fn spec_write_two_steps(values: Seq<u16>, polls: Seq<Access>) -> Seq<Access> {
    seq![Access::Write(Register::Dr, values[0] as u32)] + polls + (if spec_flag_seen(
        polls,
        SR_TXE,
    ) {
        seq![Access::Write(Register::Dr, values[1] as u32)]
    } else {
        Seq::<Access>::empty()
    })
}

/// The accesses of `read_two_steps`: the first word, the wait, and the second word if the
/// wait saw one appear.
pub open spec fn spec_read_two_steps(first: u32, polls: Seq<Access>, second: u32) -> Seq<Access> {
    seq![Access::Read(Register::Dr, first)] + polls + (if spec_flag_seen(polls, SR_RXNE) {
        seq![Access::Read(Register::Dr, second)]
    } else {
        Seq::<Access>::empty()
    })
}

/// Reads the status register until the flag shows, `max_polls` times at most. Returns whether
/// the flag showed, and the reads that were made.
fn wait_for_flag<R: RegisterBlock>(registers: &mut Recorded<R>, flag: u32, max_polls: u32) -> (result: (
    bool,
    Ghost<Seq<Access>>,
))
    ensures
        final(registers).accesses() == old(registers).accesses() + result.1@,
        spec_is_polling(result.1@, flag, max_polls),
        result.0 == spec_flag_seen(result.1@, flag),
        !result.0 ==> result.1@.len() == max_polls,
{
    let ghost before = registers.accesses();
    let ghost mut polls = Seq::<Access>::empty();
    let mut polled: u32 = 0;
    let mut seen: bool = false;
    assert(registers.accesses() =~= before + polls);
    while polled < max_polls && !seen
        invariant
            polled <= max_polls,
            polls.len() == polled,
            registers.accesses() == before + polls,
            spec_is_polling(polls, flag, max_polls),
            seen == spec_flag_seen(polls, flag),
        decreases max_polls - polled + (if seen { 0int } else { 1int }),
    {
        let status: u32 = registers.read_register(Register::Sr);
        seen = status & flag != 0;
        polled = polled + 1;
        proof {
            let earlier = polls;
            polls = earlier.push(Access::Read(Register::Sr, status));
            assert(registers.accesses() =~= before + polls);
            assert forall|i: int| 0 <= i < polls.len() implies (#[trigger] polls[i] matches Access::Read(
                reg,
                value,
            ) && reg == Register::Sr && (i + 1 < polls.len() ==> !spec_has_bits(value, flag))) by {
                if i < earlier.len() {
                    assert(polls[i] == earlier[i]);
                    if i + 1 == earlier.len() {
                        assert(earlier.last() == earlier[i]);
                    }
                }
            }
        }
    }
    (seen, Ghost(polls))
}

/// Writes a one-word sample to the data register.
///
/// When this function is called, the TXE bit of the status register must be set.
pub fn write_one_step<R: RegisterBlock>(registers: &mut Recorded<R>, value: u16)
    ensures
        final(registers).accesses() == old(registers).accesses().push(
            Access::Write(Register::Dr, value as u32),
        ),
{
    registers.write_register(Register::Dr, value as u32);
}

/// Reads a one-word sample from the data register: the low 16 bits of what the hardware
/// answers.
pub fn read_one_step<R: RegisterBlock>(registers: &mut Recorded<R>) -> (value: u16)
    ensures
        exists|raw: u32|
            {
                &&& final(registers).accesses() == old(registers).accesses()
                    + #[trigger] spec_read_one_step(raw)
                &&& value == raw as u16
            },
{
    let ghost before = registers.accesses();
    let raw: u32 = registers.read_register(Register::Dr);
    assert(registers.accesses() =~= before + spec_read_one_step(raw));
    #[verifier::truncate]
    (raw as u16)
}

/// Writes the first word of a two-word sample to the data register, waits for the register
/// to become empty again, and writes the second word. The wait reads the status register
/// `max_polls` times at most; when the register did not become empty in that time the second
/// word is not written, and the result is `false`.
///
/// When this function is called, the TXE bit of the status register must be set.
pub fn write_two_steps<R: RegisterBlock>(registers: &mut Recorded<R>, values: [u16; 2], max_polls: u32) -> (done: bool)
    ensures
        exists|polls: Seq<Access>|
            {
                &&& #[trigger] spec_is_polling(polls, SR_TXE, max_polls)
                &&& final(registers).accesses() == old(registers).accesses()
                    + spec_write_two_steps(values@, polls)
                &&& done == spec_flag_seen(polls, SR_TXE)
                &&& !done ==> polls.len() == max_polls
            },
{
    let ghost before = registers.accesses();
    registers.write_register(Register::Dr, values[0] as u32);
    // Wait for the register to become empty again
    let (done, Ghost(polls)) = wait_for_flag(registers, SR_TXE, max_polls);
    if done {
        registers.write_register(Register::Dr, values[1] as u32);
    }
    proof {
        assert(registers.accesses() =~= before + spec_write_two_steps(values@, polls));
    }
    done
}

/// Reads the first word of a two-word sample from the data register, waits for the second
/// word to appear, and reads it. The wait reads the status register `max_polls` times at
/// most; when no word appeared in that time the result is `None`.
pub fn read_two_steps<R: RegisterBlock>(registers: &mut Recorded<R>, max_polls: u32) -> (values: Option<[u16; 2]>)
    ensures
        exists|first: u32, polls: Seq<Access>, second: u32|
            {
                &&& spec_is_polling(polls, SR_RXNE, max_polls)
                &&& final(registers).accesses() == old(registers).accesses()
                    + #[trigger] spec_read_two_steps(first, polls, second)
                &&& values is Some == spec_flag_seen(polls, SR_RXNE)
                &&& values is None ==> polls.len() == max_polls
                &&& values matches Some(words) ==> words@ == seq![first as u16, second as u16]
            },
{
    let ghost before = registers.accesses();
    let raw1: u32 = registers.read_register(Register::Dr);
    let (seen, Ghost(polls)) = wait_for_flag(registers, SR_RXNE, max_polls);
    if seen {
        let raw2: u32 = registers.read_register(Register::Dr);
        let value1: u16 = #[verifier::truncate] (raw1 as u16);
        let value2: u16 = #[verifier::truncate] (raw2 as u16);
        let words: [u16; 2] = [value1, value2];
        proof {
            assert(registers.accesses() =~= before + spec_read_two_steps(raw1, polls, raw2));
            assert(words@ =~= seq![value1, value2]);
        }
        Some(words)
    } else {
        proof {
            assert(registers.accesses() =~= before + spec_read_two_steps(raw1, polls, 0));
        }
        None
    }
}


/// The words of one sample, in the order in which they cross the data register: the low 16
/// bits of a 16-bit sample, the two words of a 24-bit sample in the alignment of the
/// standard, or the two halves of a 32-bit sample.
pub open spec fn spec_sample_words(standard: I2sStandard, format: DataFormat, sample: i32) -> Seq<u16> {
    match format {
        DataFormat::Data16Channel16 | DataFormat::Data16Channel32 => seq![sample as u16],
        DataFormat::Data24Channel32 => spec_split_sample_24(standard, sample),
        DataFormat::Data32Channel32 => spec_split_sample_32(sample),
    }
}

/// The sample that its words carry, sign-extended to 32 bits.
pub open spec fn spec_sample_of_words(standard: I2sStandard, format: DataFormat, words: Seq<u16>) -> i32
    recommends
        words.len() == spec_words_per_sample(format),
{
    match format {
        DataFormat::Data16Channel16 | DataFormat::Data16Channel32 => (words[0] as i16) as i32,
        DataFormat::Data24Channel32 => spec_build_sample_24(standard, words),
        DataFormat::Data32Channel32 => spec_build_sample_32(words),
    }
}

/// The accesses of `write_sample`: one write for a sample of one word, and those of
/// `write_two_steps` for a sample of two.
pub open spec fn spec_write_sample(words: Seq<u16>, polls: Seq<Access>) -> Seq<Access> {
    if words.len() == 1 {
        seq![Access::Write(Register::Dr, words[0] as u32)]
    } else {
        spec_write_two_steps(words, polls)
    }
}

/// Writes one sample to the data register.
///
/// When this function is called, the TXE bit of the status register must be set.
///
/// A sample of 24 or 32 bits takes two words: after the first, this function waits for the
/// register to become empty again, reading the status register `max_polls` times at most.
/// When the register did not become empty in that time the second word is not written, and
/// the result is `false`. A sample of 16 bits is always written in full.
pub fn write_sample<R: RegisterBlock>(
    registers: &mut Recorded<R>,
    standard: I2sStandard,
    format: DataFormat,
    sample: i32,
    max_polls: u32,
) -> (done: bool)
    ensures
        exists|polls: Seq<Access>|
            {
                &&& #[trigger] spec_is_polling(polls, SR_TXE, max_polls)
                &&& final(registers).accesses() == old(registers).accesses()
                    + spec_write_sample(spec_sample_words(standard, format, sample), polls)
                &&& done == (spec_words_per_sample(format) == 1 || spec_flag_seen(polls, SR_TXE))
                &&& !done ==> polls.len() == max_polls
            },
{
    let ghost before = registers.accesses();
    match format {
        DataFormat::Data16Channel16 | DataFormat::Data16Channel32 => {
            let word: u16 = #[verifier::truncate] (sample as u16);
            write_one_step(registers, word);
            proof {
                let polls = Seq::<Access>::empty();
                assert(spec_is_polling(polls, SR_TXE, max_polls));
                assert(registers.accesses() =~= before + spec_write_sample(
                    spec_sample_words(standard, format, sample),
                    polls,
                ));
            }
            true
        },
        DataFormat::Data24Channel32 => write_two_steps(
            registers,
            split_sample_24(standard, sample),
            max_polls,
        ),
        DataFormat::Data32Channel32 => write_two_steps(
            registers,
            split_sample_32(sample),
            max_polls,
        ),
    }
}

/// Reads one sample from the data register, sign-extended to 32 bits.
///
/// When this function is called, the RXNE bit of the status register must be set.
///
/// A sample of 24 or 32 bits takes two words: after the first, this function waits for the
/// second to appear, reading the status register `max_polls` times at most. When no word
/// appeared in that time the result is `None`. A sample of 16 bits is always read in full.
pub fn read_sample<R: RegisterBlock>(
    registers: &mut Recorded<R>,
    standard: I2sStandard,
    format: DataFormat,
    max_polls: u32,
) -> (sample: Option<i32>)
    ensures
        exists|first: u32, polls: Seq<Access>, second: u32|
            {
                &&& spec_is_polling(polls, SR_RXNE, max_polls)
                &&& final(registers).accesses() == old(registers).accesses() + (
                if spec_words_per_sample(format) == 1 {
                    spec_read_one_step(first)
                } else {
                    #[trigger] spec_read_two_steps(first, polls, second)
                })
                &&& sample == if spec_words_per_sample(format) == 1 {
                    Some(spec_sample_of_words(standard, format, seq![first as u16]))
                } else if spec_flag_seen(polls, SR_RXNE) {
                    Some(
                        spec_sample_of_words(
                            standard,
                            format,
                            seq![first as u16, second as u16],
                        ),
                    )
                } else {
                    None
                }
                &&& sample is None ==> polls.len() == max_polls
            },
{
    let ghost before = registers.accesses();
    match format {
        DataFormat::Data16Channel16 | DataFormat::Data16Channel32 => {
            let raw: u32 = registers.read_register(Register::Dr);
            let word: u16 = #[verifier::truncate] (raw as u16);
            let narrow: i16 = #[verifier::truncate] (word as i16);
            proof {
                let polls = Seq::<Access>::empty();
                assert(spec_is_polling(polls, SR_RXNE, max_polls));
                assert(registers.accesses() =~= before + spec_read_one_step(raw));
                assert(seq![raw as u16][0] == word);
                assert(spec_read_two_steps(raw, polls, 0).len() > 0);
            }
            Some(narrow as i32)
        },
        DataFormat::Data24Channel32 => {
            match read_two_steps(registers, max_polls) {
                Some(words) => Some(build_sample_24(standard, words)),
                None => None,
            }
        },
        DataFormat::Data32Channel32 => {
            match read_two_steps(registers, max_polls) {
                Some(words) => Some(build_sample_32(words)),
                None => None,
            }
        },
    }
}

/// A sample that is sent and received comes back as its low bits, sign-extended: its low 16
/// bits with the 16-bit formats, its low 24 bits with the 24-bit format, and all of it with
/// the 32-bit format.
pub proof fn lemma_sample_round_trip(standard: I2sStandard, format: DataFormat, sample: i32)
    ensures
        spec_sample_of_words(standard, format, spec_sample_words(standard, format, sample))
            == match format {
            DataFormat::Data16Channel16 | DataFormat::Data16Channel32 => (sample as i16) as i32,
            DataFormat::Data24Channel32 => spec_sign_extend_24(sample),
            DataFormat::Data32Channel32 => sample,
        },
{
    lemma_sample_24_round_trip(standard, sample);
    lemma_sample_32_round_trip(sample);
    assert(((sample as u16) as i16) as i32 == (sample as i16) as i32) by (bit_vector);
}

} // verus!
