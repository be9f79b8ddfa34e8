use stm32_i2s_v12x::format::{
    build_sample_lsb_justified, build_sample_msb_justified, split_sample_lsb_justified,
    split_sample_msb_justified,
};
use stm32_i2s_v12x::prescaler::div_round;

#[test]
fn test_div_round() {
    let fracs = [(1, 2), (2, 2), (1, 3), (2, 3), (2, 4), (3, 5), (9, 2)];
    for (n, d) in fracs {
        let res = div_round(n, d);
        let check = f32::round((n as f32) / (d as f32)) as u32;
        assert_eq!(res, check);
    }
}

#[test]
fn build_msb() {
    assert_eq!(
        0x003478ae_u32 as i32,
        build_sample_msb_justified([0x3478, 0xae00])
    );
    assert_eq!(
        0xff8eaa33_u32 as i32,
        build_sample_msb_justified([0x8eaa, 0x3300])
    );
}

#[test]
fn build_lsb() {
    assert_eq!(
        0x003478ae_u32 as i32,
        build_sample_lsb_justified([0x0034, 0x78ae])
    );
    assert_eq!(
        0xff8eaa33_u32 as i32,
        build_sample_lsb_justified([0x008e, 0xaa33])
    );
}

#[test]
fn split_msb() {
    assert_eq!(
        [0x3478, 0xae00],
        split_sample_msb_justified(0x003478ae_u32 as i32)
    );
    assert_eq!(
        [0x8eaa, 0x3300],
        split_sample_msb_justified(0xff8eaa33_u32 as i32)
    );
    assert_eq!(
        [0x8eaa, 0x3300],
        split_sample_msb_justified(0x008eaa33_u32 as i32)
    );
}

#[test]
fn split_lsb() {
    assert_eq!(
        [0x0034, 0x78ae],
        split_sample_lsb_justified(0x003478ae_u32 as i32)
    );
    assert_eq!(
        [0x008e, 0xaa33],
        split_sample_lsb_justified(0xff8eaa33_u32 as i32)
    );
    assert_eq!(
        [0x008e, 0xaa33],
        split_sample_lsb_justified(0x008eaa33_u32 as i32)
    );
}
