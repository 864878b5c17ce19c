use vki::flags::{TEXTURE_USAGE_NONE, TEXTURE_USAGE_TRANSFER_DST, TEXTURE_USAGE_TRANSFER_SRC};
use vki::util::has_zero_or_one_bits;

#[test]
fn test_has_zero_or_one_bits() {
    assert!(has_zero_or_one_bits(TEXTURE_USAGE_NONE));
    assert!(has_zero_or_one_bits(TEXTURE_USAGE_TRANSFER_SRC));
    assert!(!has_zero_or_one_bits(TEXTURE_USAGE_TRANSFER_SRC | TEXTURE_USAGE_TRANSFER_DST));
}
