use price_ledger::errors::LedgerError;
use price_ledger::sample::{validate, PriceSample};
use price_ledger::service::AveragePrice;

fn sample_of(x: f64) -> PriceSample {
    PriceSample::from_bits(x.to_bits())
}

fn mean_of_window(window: &[PriceSample]) -> f64 {
    let mut sum: f64 = 0.0;
    let mut count: usize = 0;
    for sample in window {
        sum += f64::from_bits(sample.bits);
        count += 1;
    }
    sum / (count as f64)
}

#[test]
fn get_average() {
    let mut contract = AveragePrice::default();
    assert!(contract.set_last_price(sample_of(123.0)).is_ok());
    assert!(contract.set_last_price(sample_of(124.1)).is_ok());
    assert!(contract.set_last_price(sample_of(123.2345)).is_ok());
    assert!(contract.set_last_price(sample_of(3453.1284)).is_ok());
    assert!(contract.set_last_price(sample_of(123.23745)).is_ok());
    let window = contract.average_window().unwrap();
    assert_eq!(789.34007, mean_of_window(&window));
}

#[test]
fn record_rejects_nan() {
    let mut contract = AveragePrice::default();
    let r = contract.set_last_price(sample_of(f64::NAN));
    assert_eq!(r, Err(LedgerError::Rejected));
    assert_eq!(contract.len(), 0);
}

#[test]
fn record_rejects_neg_infinity() {
    let mut contract = AveragePrice::default();
    let r = contract.set_last_price(sample_of(f64::NEG_INFINITY));
    assert_eq!(r, Err(LedgerError::Rejected));
    assert_eq!(contract.len(), 0);
}

#[test]
fn record_rejects_infinity() {
    let mut contract = AveragePrice::default();
    let r = contract.set_last_price(sample_of(f64::INFINITY));
    assert_eq!(r, Err(LedgerError::Rejected));
    assert_eq!(contract.len(), 0);
}

#[test]
fn record_rejects_zero() {
    let mut contract = AveragePrice::default();
    let r = contract.set_last_price(sample_of(0.0));
    assert_eq!(r, Err(LedgerError::Rejected));
    assert_eq!(contract.len(), 0);
    let r = contract.set_last_price(sample_of(-0.0));
    assert_eq!(r, Err(LedgerError::Rejected));
    assert_eq!(contract.len(), 0);
}

#[test]
fn record_rejects_subnormal() {
    let mut contract = AveragePrice::default();
    let r = contract.set_last_price(sample_of(f64::MIN_POSITIVE / 2.0));
    assert_eq!(r, Err(LedgerError::Rejected));
    assert_eq!(contract.len(), 0);
}

#[test]
fn record_accepts_normal_value() {
    let mut contract = AveragePrice::default();
    let r = contract.set_last_price(sample_of(123.0));
    assert_eq!(r, Ok(()));
    assert_eq!(contract.len(), 1);
    let window = contract.average_window().unwrap();
    assert_eq!(window.len(), 1);
    assert_eq!(window[0], sample_of(123.0));
}

#[test]
fn record_accepts_negative_normal_value() {
    // Validation is sign-agnostic: a normal negative value is admitted.
    let mut contract = AveragePrice::default();
    let r = contract.set_last_price(sample_of(-1.0));
    assert_eq!(r, Ok(()));
    assert_eq!(contract.len(), 1);
}

#[test]
fn get_average_on_empty_errors() {
    let contract = AveragePrice::default();
    let r = contract.average_window();
    assert_eq!(r, Err(LedgerError::NoRecords));
    assert_eq!(
        LedgerError::NoRecords.message(),
        "No records. Unable to calculate average value."
    );
}

#[test]
fn window_keeps_only_last_five() {
    let prices: [f64; 6] = [123.0, 124.1, 123.2345, 3453.1284, 123.23745, 124.0];
    let mut contract = AveragePrice::default();
    for price in prices {
        assert!(contract.set_last_price(sample_of(price)).is_ok());
    }
    assert_eq!(contract.len(), 6);
    let window = contract.average_window().unwrap();
    assert_eq!(window.len(), 5);
    for (i, sample) in window.iter().enumerate() {
        assert_eq!(*sample, sample_of(prices[i + 1]));
    }
    let expected: f64 = (124.1 + 123.2345 + 3453.1284 + 123.23745 + 124.0) / 5.0;
    assert_eq!(expected, mean_of_window(&window));
}

#[test]
fn window_under_five_takes_all() {
    let mut contract = AveragePrice::default();
    assert!(contract.set_last_price(sample_of(2.0)).is_ok());
    assert!(contract.set_last_price(sample_of(4.0)).is_ok());
    let window = contract.average_window().unwrap();
    assert_eq!(window.len(), 2);
    assert_eq!(3.0, mean_of_window(&window));
}

#[test]
fn query_is_read_only_and_repeatable() {
    let mut contract = AveragePrice::default();
    assert!(contract.set_last_price(sample_of(10.5)).is_ok());
    assert!(contract.set_last_price(sample_of(11.5)).is_ok());
    let len_before: usize = contract.len();
    let first = contract.average_window().unwrap();
    assert_eq!(contract.len(), len_before);
    let second = contract.average_window().unwrap();
    assert_eq!(contract.len(), len_before);
    assert_eq!(first, second);
    assert_eq!(mean_of_window(&first), mean_of_window(&second));
}

#[test]
fn length_never_decreases() {
    let candidates: [f64; 8] = [
        123.0,
        f64::NAN,
        -1.0,
        0.0,
        3453.1284,
        f64::INFINITY,
        f64::MIN_POSITIVE / 2.0,
        124.1,
    ];
    let mut contract = AveragePrice::default();
    let mut last_len: usize = contract.len();
    for price in candidates {
        let _ = contract.set_last_price(sample_of(price));
        assert!(contract.len() >= last_len);
        last_len = contract.len();
        let _ = contract.average_window();
        assert!(contract.len() >= last_len);
    }
    assert_eq!(contract.len(), 4);
}

#[test]
fn validate_classifies_candidates() {
    for x in [1.0, -1.0, 123.2345, f64::MAX, f64::MIN_POSITIVE] {
        assert_eq!(validate(sample_of(x)), Ok(()));
        assert!(sample_of(x).is_normal());
        assert!(x.is_normal());
    }
    for x in [f64::NAN, f64::INFINITY, f64::NEG_INFINITY, 0.0, -0.0, 5e-324] {
        assert_eq!(validate(sample_of(x)), Err(LedgerError::Rejected));
        assert!(!sample_of(x).is_normal());
        assert!(!x.is_normal());
    }
}

#[test]
fn rejection_message_matches() {
    assert_eq!(
        LedgerError::Rejected.message(),
        "Method set_last_price doesn't accept the number is neither zero, infinite, subnormal, or NaN"
    );
    assert_eq!(
        LedgerError::OutOfRange.message(),
        "Unexpected error: Array index out of bounds."
    );
}
