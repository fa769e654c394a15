use voting_registrar::state::{ExchangeRateEntry, Registrar};
use voting_registrar::{Address, GovError, OpError};

fn addr(tag: u8) -> Address {
    Address { w0: tag as u64, w1: 0, w2: 0, w3: 0 }
}

fn registrar_with(rate_decimals: u8) -> Registrar {
    Registrar {
        authority: addr(1),
        realm: addr(2),
        realm_community_mint: addr(3),
        bump: 255,
        rates: vec![ExchangeRateEntry::default(), ExchangeRateEntry::default()],
        rate_decimals,
    }
}

#[test]
fn convert_identity_rate() {
    let reg = registrar_with(6);
    let er = ExchangeRateEntry { mint: addr(9), rate: 1, decimals: 6 };
    assert_eq!(reg.convert(&er, 100), Ok(100));
}

#[test]
fn convert_scales_up_by_rate_and_decimals() {
    let reg = registrar_with(6);
    let er = ExchangeRateEntry { mint: addr(9), rate: 1_000_000, decimals: 0 };
    assert_eq!(reg.convert(&er, 10), Ok(10_000_000_000_000));
}

#[test]
fn convert_exact_product() {
    let reg = registrar_with(4);
    let er = ExchangeRateEntry { mint: addr(9), rate: 7, decimals: 1 };
    // 123 * 7 * 10^(4-1) = 861_000
    assert_eq!(reg.convert(&er, 123), Ok(861_000));
}

#[test]
fn convert_rejects_lower_registrar_precision() {
    let reg = registrar_with(3);
    let er = ExchangeRateEntry { mint: addr(9), rate: 5, decimals: 4 };
    assert_eq!(
        reg.convert(&er, 1),
        Err(OpError::Gov(GovError::InvalidDecimals))
    );
    assert_eq!(
        reg.convert(&er, u64::MAX),
        Err(OpError::Gov(GovError::InvalidDecimals))
    );
    let er0 = ExchangeRateEntry { mint: addr(9), rate: 0, decimals: 200 };
    assert_eq!(
        reg.convert(&er0, 0),
        Err(OpError::Gov(GovError::InvalidDecimals))
    );
}

#[test]
fn convert_fails_on_overflow_instead_of_wrapping() {
    let reg = registrar_with(0);
    let er = ExchangeRateEntry { mint: addr(9), rate: 2, decimals: 0 };
    assert_eq!(reg.convert(&er, u64::MAX), Err(OpError::ArithmeticOverflow));
    // the power of ten alone exceeds 64 bits
    let reg30 = registrar_with(30);
    let er1 = ExchangeRateEntry { mint: addr(9), rate: 1, decimals: 0 };
    assert_eq!(reg30.convert(&er1, 1), Err(OpError::ArithmeticOverflow));
}

#[test]
fn convert_zero_amount_is_zero_even_under_huge_scale() {
    let reg = registrar_with(30);
    let er = ExchangeRateEntry { mint: addr(9), rate: 5, decimals: 0 };
    assert_eq!(reg.convert(&er, 0), Ok(0));
    let er0 = ExchangeRateEntry { mint: addr(9), rate: 0, decimals: 0 };
    assert_eq!(reg.convert(&er0, u64::MAX), Ok(0));
}

#[test]
fn convert_boundary_fits_exactly() {
    let reg = registrar_with(0);
    let er = ExchangeRateEntry { mint: addr(9), rate: 1, decimals: 0 };
    assert_eq!(reg.convert(&er, u64::MAX), Ok(u64::MAX));
}
