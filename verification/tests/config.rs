use price_ledger::config::Config;
use price_ledger::errors::LedgerError;
use price_ledger::ledger::Ledger;
use price_ledger::sample::PriceSample;

#[test]
fn every_config_is_valid() {
    let config = Config {
        cmc_api_key: String::from("test-api-key"),
        contract_id: String::from("prices.testnet"),
        signer_account_id: String::from("reporter.testnet"),
    };
    assert_eq!(config.is_valid(), Ok(()));
}

#[test]
fn ledger_get_past_end_is_out_of_range() {
    let mut ledger = Ledger::new();
    assert_eq!(ledger.len(), 0);
    assert_eq!(ledger.get(0), Err(LedgerError::OutOfRange));
    let sample = PriceSample::from_bits(123.0f64.to_bits());
    let index: usize = ledger.append(sample);
    assert_eq!(index, 0);
    assert_eq!(ledger.len(), 1);
    assert_eq!(ledger.get(0), Ok(sample));
    assert_eq!(ledger.get(1), Err(LedgerError::OutOfRange));
}
