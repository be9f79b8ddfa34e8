use stm32_i2s_v12x::driver::I2sStandard;
use stm32_i2s_v12x::format::{
    build_sample_24, build_sample_32, build_sample_lsb_justified, build_sample_msb_justified,
    frame_len, sign_extend_24_to_32, split_sample_24, split_sample_32,
    split_sample_lsb_justified, split_sample_msb_justified, RawFrame,
};
use stm32_i2s_v12x::driver::DataFormat;
use stm32_i2s_v12x::marker::{Data24Channel32, Data32Channel32, Lsb, Philips, PcmLongSync};
use stm32_i2s_v12x::transfer::{FrameFormat, FromRawFrame, ToRawFrame};
use stm32_i2s_v12x::marker::{Data16Channel16, Data16Channel32, Msb, PcmShortSync};

const SAMPLES: [i32; 12] = [
    0,
    1,
    -1,
    0x7f_ffff,
    -0x80_0000,
    0x80_0000,
    0x12_3456,
    -0x12_3456,
    i32::MAX,
    i32::MIN,
    0x0134_78ae,
    0xff8e_aa33_u32 as i32,
];

fn sign_extend_24(sample: i32) -> i32 {
    (sample << 8) >> 8
}

#[test]
fn sign_extension_of_24_bits() {
    assert_eq!(sign_extend_24_to_32(0x0000_0000), 0x0000_0000);
    assert_eq!(sign_extend_24_to_32(0x007f_ffff), 0x007f_ffff);
    assert_eq!(sign_extend_24_to_32(0x0080_0000), 0xff80_0000);
    assert_eq!(sign_extend_24_to_32(0x00ff_ffff), 0xffff_ffff);
    assert_eq!(sign_extend_24_to_32(0x008e_aa33), 0xff8e_aa33);
}

#[test]
fn round_trip_of_24_bits_in_both_alignments() {
    for sample in SAMPLES {
        assert_eq!(
            build_sample_msb_justified(split_sample_msb_justified(sample)),
            sign_extend_24(sample)
        );
        assert_eq!(
            build_sample_lsb_justified(split_sample_lsb_justified(sample)),
            sign_extend_24(sample)
        );
        for standard in [
            I2sStandard::Philips,
            I2sStandard::Msb,
            I2sStandard::Lsb,
            I2sStandard::PcmShortSync,
            I2sStandard::PcmLongSync,
        ] {
            assert_eq!(
                build_sample_24(standard, split_sample_24(standard, sample)),
                sign_extend_24(sample)
            );
        }
    }
}

#[test]
fn a_24_bit_sample_comes_back_unchanged() {
    for sample in [0, 1, -1, 0x7f_ffff, -0x80_0000, 0x12_3456, -0x12_3456] {
        assert_eq!(build_sample_msb_justified(split_sample_msb_justified(sample)), sample);
        assert_eq!(build_sample_lsb_justified(split_sample_lsb_justified(sample)), sample);
    }
}

#[test]
fn unused_bytes_on_the_wire_are_ignored() {
    assert_eq!(build_sample_msb_justified([0x3478, 0xaeff]), 0x0034_78ae);
    assert_eq!(build_sample_lsb_justified([0xff34, 0x78ae]), 0x0034_78ae);
}

#[test]
fn alignment_follows_the_standard() {
    let sample = 0x0034_78ae;
    assert_eq!(split_sample_24(I2sStandard::Lsb, sample), [0x0034, 0x78ae]);
    for standard in [
        I2sStandard::Philips,
        I2sStandard::Msb,
        I2sStandard::PcmShortSync,
        I2sStandard::PcmLongSync,
    ] {
        assert_eq!(split_sample_24(standard, sample), [0x3478, 0xae00]);
        assert_eq!(build_sample_24(standard, [0x3478, 0xae00]), sample);
    }
    assert_eq!(build_sample_24(I2sStandard::Lsb, [0x0034, 0x78ae]), sample);
}

#[test]
fn samples_of_32_bits() {
    assert_eq!(split_sample_32(0x1234_5678), [0x1234, 0x5678]);
    assert_eq!(split_sample_32(-1), [0xffff, 0xffff]);
    assert_eq!(split_sample_32(i32::MIN), [0x8000, 0x0000]);
    assert_eq!(build_sample_32([0x8000, 0x0001]), 0x8000_0001_u32 as i32);
    for sample in SAMPLES {
        assert_eq!(build_sample_32(split_sample_32(sample)), sample);
    }
}

#[test]
fn length_of_a_frame() {
    assert_eq!(frame_len(I2sStandard::Philips, DataFormat::Data16Channel16), 2);
    assert_eq!(frame_len(I2sStandard::Msb, DataFormat::Data16Channel32), 2);
    assert_eq!(frame_len(I2sStandard::Lsb, DataFormat::Data24Channel32), 4);
    assert_eq!(frame_len(I2sStandard::Philips, DataFormat::Data32Channel32), 4);
    assert_eq!(frame_len(I2sStandard::PcmShortSync, DataFormat::Data16Channel16), 1);
    assert_eq!(frame_len(I2sStandard::PcmLongSync, DataFormat::Data16Channel32), 1);
    assert_eq!(frame_len(I2sStandard::PcmShortSync, DataFormat::Data24Channel32), 2);
    assert_eq!(frame_len(I2sStandard::PcmLongSync, DataFormat::Data32Channel32), 2);
    assert_eq!(<(Philips, Data32Channel32) as FrameFormat>::len(), 4);
    assert_eq!(<(PcmLongSync, Data24Channel32) as FrameFormat>::len(), 2);
    assert_eq!(<(PcmShortSync, Data16Channel16) as FrameFormat>::len(), 1);
    assert_eq!(<(Msb, Data16Channel32) as FrameFormat>::len(), 2);
}

fn words(raw: RawFrame) -> Vec<u16> {
    let mut words = Vec::new();
    let mut index = 0;
    while let Some(word) = raw.get(index) {
        words.push(word);
        index += 1;
    }
    assert_eq!(words.len(), raw.len() as usize);
    words
}

#[test]
fn raw_frames() {
    assert_eq!(words(RawFrame::from1([7])), vec![7]);
    assert_eq!(words(RawFrame::from2([7, 8])), vec![7, 8]);
    assert_eq!(words(RawFrame::from4([7, 8, 9, 10])), vec![7, 8, 9, 10]);
    assert_eq!(RawFrame::from2([7, 8]).get(2), None);
    assert_eq!(RawFrame::from4([7, 8, 9, 10]).get(4), None);
    assert_eq!(RawFrame::from4([7, 8, 9, 10]).get(255), None);
}

#[test]
fn frames_to_words_and_back() {
    let raw = <(i16, i16) as ToRawFrame<Philips, Data16Channel16>>::to_raw(&(-2, 3));
    assert_eq!(words(raw), vec![0xfffe, 3]);
    assert_eq!(
        <(i16, i16) as FromRawFrame<Philips, Data16Channel16>>::from_raw(raw),
        (-2, 3)
    );
    let raw = <(i16, i16) as ToRawFrame<Msb, Data16Channel32>>::to_raw(&(i16::MIN, i16::MAX));
    assert_eq!(words(raw), vec![0x8000, 0x7fff]);
    assert_eq!(
        <(i16, i16) as FromRawFrame<Msb, Data16Channel32>>::from_raw(raw),
        (i16::MIN, i16::MAX)
    );
    let raw = <i16 as ToRawFrame<PcmShortSync, Data16Channel16>>::to_raw(&-1);
    assert_eq!(words(raw), vec![0xffff]);
    assert_eq!(<i16 as FromRawFrame<PcmShortSync, Data16Channel16>>::from_raw(raw), -1);
    let raw = <i16 as ToRawFrame<PcmLongSync, Data16Channel32>>::to_raw(&5);
    assert_eq!(<i16 as FromRawFrame<PcmLongSync, Data16Channel32>>::from_raw(raw), 5);

    let frame = (0x1234_5678_i32, -0x1234_5678_i32);
    let raw = <(i32, i32) as ToRawFrame<Lsb, Data32Channel32>>::to_raw(&frame);
    assert_eq!(words(raw), vec![0x1234, 0x5678, 0xedcb, 0xa988]);
    assert_eq!(<(i32, i32) as FromRawFrame<Lsb, Data32Channel32>>::from_raw(raw), frame);
    let raw = <i32 as ToRawFrame<PcmLongSync, Data32Channel32>>::to_raw(&i32::MIN);
    assert_eq!(words(raw), vec![0x8000, 0]);
    assert_eq!(<i32 as FromRawFrame<PcmLongSync, Data32Channel32>>::from_raw(raw), i32::MIN);

    let frame = (0x0034_78ae_i32, 0xff8e_aa33_u32 as i32);
    let raw = <(i32, i32) as ToRawFrame<Philips, Data24Channel32>>::to_raw(&frame);
    assert_eq!(words(raw), vec![0x3478, 0xae00, 0x8eaa, 0x3300]);
    assert_eq!(<(i32, i32) as FromRawFrame<Philips, Data24Channel32>>::from_raw(raw), frame);
    let raw = <(i32, i32) as ToRawFrame<Lsb, Data24Channel32>>::to_raw(&frame);
    assert_eq!(words(raw), vec![0x0034, 0x78ae, 0x008e, 0xaa33]);
    assert_eq!(<(i32, i32) as FromRawFrame<Lsb, Data24Channel32>>::from_raw(raw), frame);
    let raw = <i32 as ToRawFrame<PcmShortSync, Data24Channel32>>::to_raw(&0x0180_0000);
    assert_eq!(words(raw), vec![0x8000, 0]);
    assert_eq!(
        <i32 as FromRawFrame<PcmShortSync, Data24Channel32>>::from_raw(raw),
        -0x80_0000
    );
}
