use ferrobus::word_order::{Float32, Float64};
use ferrobus::{WordOrder, WordOrderError};

#[test]
fn default_is_big_endian_and_traits_work() {
    let default = WordOrder::default();
    let cloned = default;
    assert_eq!(default, WordOrder::BigEndian);
    assert_eq!(cloned, default);
    assert_eq!(format!("{default:?}"), "BigEndian");
}

#[test]
fn decodes_known_32_bit_vectors() {
    let regs = [0x1234, 0x5678];
    assert_eq!(WordOrder::BigEndian.decode_u32(regs), 0x1234_5678);
    assert_eq!(WordOrder::LittleEndian.decode_u32(regs), 0x5678_1234);
    assert_eq!(WordOrder::BigEndian.decode_i32([0xFFFF, 0xFFFF]), -1);
    assert_eq!(
        WordOrder::LittleEndian.decode_i32([0x0000, 0x8000]),
        i32::MIN
    );
    assert_eq!(
        WordOrder::BigEndian.decode_f32([0x3F80, 0x0000]).to_bits(),
        1.0f32.to_bits()
    );
    assert_eq!(
        WordOrder::LittleEndian
            .decode_f32([0x0000, 0x3F80])
            .to_bits(),
        1.0f32.to_bits()
    );
}

#[test]
fn decodes_known_64_bit_vectors() {
    let regs = [0xAAAA, 0xBBBB, 0xCCCC, 0xDDDD];
    assert_eq!(WordOrder::BigEndian.decode_u64(regs), 0xAAAA_BBBB_CCCC_DDDD);
    assert_eq!(
        WordOrder::LittleEndian.decode_u64(regs),
        0xDDDD_CCCC_BBBB_AAAA
    );
    assert_eq!(
        WordOrder::BigEndian.decode_i64([0xFFFF, 0xFFFF, 0xFFFF, 0xFFFF]),
        -1
    );
    assert_eq!(
        WordOrder::LittleEndian
            .decode_f64([0x0000, 0x0000, 0x0000, 0x3FF0])
            .to_bits(),
        1.0f64.to_bits()
    );
}

#[test]
fn block_decoding_preserves_chunk_order() {
    let regs = [0x1111, 0x2222, 0x3333, 0x4444];
    assert_eq!(
        WordOrder::LittleEndian.decode_u32_block(&regs),
        Ok(vec![0x2222_1111, 0x4444_3333])
    );
    assert_eq!(
        WordOrder::BigEndian.decode_u32_block(&regs),
        Ok(vec![0x1111_2222, 0x3333_4444])
    );
}

#[test]
fn block_helpers_accept_empty_slices() {
    assert_eq!(WordOrder::BigEndian.decode_u32_block(&[]), Ok(Vec::new()));
    assert_eq!(
        WordOrder::LittleEndian.decode_f64_block(&[]),
        Ok(Vec::new())
    );
}

#[test]
fn block_decoding_rejects_bad_lengths() {
    assert_eq!(
        WordOrder::BigEndian.decode_f32_block(&[0x0000]),
        Err(WordOrderError::InvalidBlockLength {
            len: 1,
            width: 2,
            scalar_type: "f32",
        })
    );
    assert_eq!(
        WordOrder::LittleEndian.decode_i64_block(&[0x0000, 0x0001]),
        Err(WordOrderError::InvalidBlockLength {
            len: 2,
            width: 4,
            scalar_type: "i64",
        })
    );
}

#[test]
fn all_block_variants_decode() {
    let order = WordOrder::LittleEndian;
    assert_eq!(order.decode_i32_block(&[0xFFFF, 0xFFFF]), Ok(vec![-1]));
    assert_eq!(
        order.decode_f32_block(&[0x0000, 0x3F80]).map(bits32),
        Ok(vec![1.0f32.to_bits()])
    );
    assert_eq!(
        order.decode_u64_block(&[4, 3, 2, 1]),
        Ok(vec![0x0001_0002_0003_0004])
    );
    assert_eq!(order.decode_i64_block(&[0xFFFF; 4]), Ok(vec![-1]));
    assert_eq!(
        order
            .decode_f64_block(&[0x0000, 0x0000, 0x0000, 0x3FF0])
            .map(bits64),
        Ok(vec![1.0f64.to_bits()])
    );
}

fn bits32(values: Vec<Float32>) -> Vec<u32> {
    values.into_iter().map(Float32::to_bits).collect()
}

fn bits64(values: Vec<Float64>) -> Vec<u64> {
    values.into_iter().map(Float64::to_bits).collect()
}
