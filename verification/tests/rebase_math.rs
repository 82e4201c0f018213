use solana_stablecoin::errors::StablecoinError;
use solana_stablecoin::rebase::reference_price;
use solana_stablecoin::rebase::split_yield;

#[test]
fn reference_price_is_the_product_of_price_and_rate() {
    assert_eq!(reference_price(50_000, 1_000_000), Ok(50_000_000_000));
    assert_eq!(reference_price(50_000, 50_000), Ok(2_500_000_000));
    assert_eq!(reference_price(999, 1_000), Ok(999_000));
    assert_eq!(reference_price(0, 1_000_000), Ok(0));
}

#[test]
fn reference_price_overflow_is_reported() {
    assert_eq!(reference_price(u128::MAX, 2), Err(StablecoinError::MathOverflow));
    assert_eq!(reference_price(u128::MAX, 1), Ok(u128::MAX));
}

#[test]
fn yield_of_one_week_is_split_one_to_nine() {
    // rate = 50_000_000_000 * 604_800 / 31_536_000 / 1_000_000 = 958
    // yield = 1_000_000 * 958 / 1_000_000 = 958, fee = 95, rest = 863
    assert_eq!(split_yield(1_000_000, 50_000_000_000, 604_800), Ok((95, 863)));
    // rate = 2_500_000_000 * 604_800 / 31_536_000 / 1_000_000 = 47
    // yield = 47, fee = 4, rest = 43
    assert_eq!(split_yield(1_000_000, 2_500_000_000, 604_800), Ok((4, 43)));
}

#[test]
fn yield_rate_is_scaled_down_after_the_time_is_applied() {
    // 1_999_999 * 63_072_000 / 31_536_000 = 3_999_998, and 3_999_998 / 1_000_000 = 3
    assert_eq!(split_yield(1_000_000, 1_999_999, 63_072_000), Ok((0, 3)));
    assert_eq!(split_yield(10_000_000, 1_999_999, 63_072_000), Ok((3, 27)));
}

#[test]
fn yield_of_nothing_is_nothing() {
    assert_eq!(split_yield(0, 50_000_000_000, 604_800), Ok((0, 0)));
    assert_eq!(split_yield(1_000_000, 0, 604_800), Ok((0, 0)));
    assert_eq!(split_yield(1_000_000, 50_000_000_000, 0), Ok((0, 0)));
}

#[test]
fn split_parts_add_up_to_the_yield() {
    // rate = 10^12 * 31_536_000 / 31_536_000 / 10^6 = 10^6, yield = 12_345
    let (fee, rest) = split_yield(12_345, 1_000_000_000_000, 31_536_000).unwrap();
    assert_eq!(fee, 1_234);
    assert_eq!(rest, 11_111);
    assert_eq!(fee + rest, 12_345);
}

#[test]
fn yield_overflow_is_reported() {
    assert_eq!(split_yield(1, u128::MAX, 2), Err(StablecoinError::MathOverflow));
    assert_eq!(
        split_yield(u64::MAX, u128::MAX / 2, 1),
        Err(StablecoinError::MathOverflow)
    );
    // the parts must fit in 64 bits
    assert_eq!(
        split_yield(u64::MAX, 31_536_000_000_000_000_000, 1_000_000),
        Err(StablecoinError::MathOverflow)
    );
}
