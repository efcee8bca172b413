use velora_ta::utils::math::is_valid_period;
use velora_ta::{indicator_name, PriceType};

#[test]
fn test_is_valid_period() {
    assert!(is_valid_period(1));
    assert!(is_valid_period(20));
    assert!(!is_valid_period(0));
}

#[test]
fn price_type_defaults_to_close() {
    assert_eq!(PriceType::default(), PriceType::Close);
    assert_ne!(PriceType::default(), PriceType::Typical);
}

#[test]
fn indicator_names_list_their_integer_parameters() {
    assert_eq!(indicator_name("SMA", &[20]), "SMA(20)");
    assert_eq!(indicator_name("MACD", &[12, 26, 9]), "MACD(12,26,9)");
    assert_eq!(indicator_name("Williams%R", &[14]), "Williams%R(14)");
    assert_eq!(indicator_name("KAMA", &[10, 2, 30]), "KAMA(10,2,30)");
    assert_eq!(indicator_name("Vortex", &[0]), "Vortex(0)");
    assert_eq!(indicator_name("Empty", &[]), "Empty()");
    assert_eq!(indicator_name("Big", &[usize::MAX]), format!("Big({})", usize::MAX));
}
