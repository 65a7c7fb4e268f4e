use std::convert::TryFrom;

use cryptoki::slot::Slot;
use softhsm_wrap::config::{RunConfig, DEFAULT_MODULE_PATH};
use softhsm_wrap::error::{OracleCheck, RunError};
use softhsm_wrap::oracle::{bytes_equal, CipherOutcome};
use softhsm_wrap::run::run;
use softhsm_wrap::select::{first_slot, key_value, KeyAttribute};

fn outcome(w0: &[u8], w1: &[u8], e0: &[u8], e1: &[u8]) -> CipherOutcome {
    CipherOutcome {
        wrapped_first: w0.to_vec(),
        wrapped_second: w1.to_vec(),
        encrypted_first: e0.to_vec(),
        encrypted_second: e1.to_vec(),
    }
}

#[test]
fn default_config_uses_zero_and_one_ivs() {
    let cfg = RunConfig::new(DEFAULT_MODULE_PATH.to_string());
    assert_eq!(cfg.first_iv, [0u8; 16]);
    assert_eq!(cfg.second_iv, [1u8; 16]);
    assert_eq!(cfg.provider_path, "/usr/local/lib/softhsm/libsofthsm2.so");
    assert_eq!(cfg.token_label, "Test Token");
    assert_eq!(cfg.so_pin, "abcdef");
    assert_eq!(cfg.user_pin, "fedcba");
}

#[test]
fn no_slot_fails_fast() {
    let slots: Vec<Slot> = Vec::new();
    assert_eq!(first_slot(&slots), Err(RunError::SlotUnavailable));
}

#[test]
fn first_slot_is_taken() {
    let a = Slot::try_from(3u64).unwrap();
    let b = Slot::try_from(5u64).unwrap();
    let got = first_slot(&vec![a, b]).unwrap();
    assert_eq!(got.id(), 3);
}

#[test]
fn single_value_attribute_gives_key_bytes() {
    let bytes: Vec<u8> = (0u8..16).collect();
    let attrs = vec![KeyAttribute::Value(bytes.clone())];
    assert_eq!(key_value(attrs), Ok(bytes));
}

#[test]
fn no_attribute_is_a_shape_mismatch() {
    assert_eq!(key_value(Vec::new()), Err(RunError::AttributeShapeMismatch));
}

#[test]
fn two_attributes_are_a_shape_mismatch() {
    let attrs = vec![KeyAttribute::Value(vec![1u8; 16]), KeyAttribute::Value(vec![2u8; 16])];
    assert_eq!(key_value(attrs), Err(RunError::AttributeShapeMismatch));
}

#[test]
fn other_attribute_kind_is_a_shape_mismatch() {
    assert_eq!(key_value(vec![KeyAttribute::Other]), Err(RunError::AttributeShapeMismatch));
}

#[test]
fn bytes_equal_compares_contents() {
    assert!(bytes_equal(&vec![1, 2, 3], &vec![1, 2, 3]));
    assert!(!bytes_equal(&vec![1, 2, 3], &vec![1, 2, 4]));
    assert!(!bytes_equal(&vec![1, 2], &vec![1, 2, 3]));
    assert!(bytes_equal(&Vec::new(), &Vec::new()));
}

#[test]
fn matching_wraps_and_encryptions_pass() {
    let w0 = [0x11u8; 16];
    let w1 = [0x22u8; 16];
    assert_eq!(outcome(&w0, &w1, &w0, &w1).check(), Ok(()));
}

#[test]
fn first_iv_mismatch_is_reported() {
    let r = outcome(&[1u8; 16], &[2u8; 16], &[3u8; 16], &[2u8; 16]).check();
    assert_eq!(r, Err(RunError::OracleMismatch(OracleCheck::FirstIvWrapMatchesEncrypt)));
}

#[test]
fn equal_wraps_under_distinct_ivs_are_reported() {
    let r = outcome(&[1u8; 16], &[1u8; 16], &[1u8; 16], &[1u8; 16]).check();
    assert_eq!(r, Err(RunError::OracleMismatch(OracleCheck::WrapDependsOnIv)));
}

#[test]
fn second_iv_mismatch_is_reported() {
    let r = outcome(&[1u8; 16], &[2u8; 16], &[1u8; 16], &[4u8; 16]).check();
    assert_eq!(r, Err(RunError::OracleMismatch(OracleCheck::SecondIvWrapMatchesEncrypt)));
}

#[test]
fn first_failed_check_wins() {
    let r = outcome(&[1u8; 16], &[1u8; 16], &[9u8; 16], &[8u8; 16]).check();
    assert_eq!(r, Err(RunError::OracleMismatch(OracleCheck::FirstIvWrapMatchesEncrypt)));
}

#[test]
fn missing_provider_module_fails_to_load() {
    let cfg = RunConfig::new("/nonexistent/provider/libmissing.so".to_string());
    match run(&cfg) {
        Err(e) => assert_eq!(e, RunError::ProviderLoad),
        Ok(_) => panic!("a run without a provider module cannot succeed"),
    }
}
