//! The run itself: provision a token, generate two keys, wrap and encrypt
//! under two IVs, and compare.
use vstd::prelude::*;

use cryptoki::context::Pkcs11;
use cryptoki::object::ObjectHandle;
use cryptoki::session::Session;
use cryptoki::slot::Slot;

use crate::config::{RunConfig, AES_KEY_LEN};
use crate::error::RunError;
use crate::oracle::{oracle_holds, CipherOutcome};
use crate::provider::{
    encrypt_aes_cbc, finalize, generate_aes_key, init_pin, init_token, initialize_os_locking,
    load_module, login, open_rw_session, slots_with_token, value_attributes, wrap_key_aes_cbc,
    Role,
};
use crate::select::{first_slot, key_value};

verus! {

/// What a successful run saw.
pub struct RunReport {
    /// The raw value of the key that was wrapped.
    pub payload_key: Vec<u8>,
    /// The raw value of the wrapping key.
    pub wrapping_key: Vec<u8>,
    /// The wraps and encryptions under both IVs.
    pub outcome: CipherOutcome,
}

/// Sets the user PIN through a security officer session, which is closed
/// before this returns.
fn set_user_pin(ctx: &Pkcs11, slot: Slot, so_pin: &str, user_pin: &str) -> (r: Result<
    (),
    RunError,
>) {
    let session = match open_rw_session(ctx, slot) {
        Ok(s) => s,
        Err(_) => return Err(RunError::TokenSetupFailure),
    };
    if login(&session, Role::SecurityOfficer, so_pin).is_err() {
        return Err(RunError::AuthFailure);
    }
    if init_pin(&session, user_pin).is_err() {
        return Err(RunError::AuthFailure);
    }
    Ok(())
}

/// Picks the first slot with a token, initializes that token and sets its
/// user PIN. With no slot the run stops before touching any token.
fn provision_token(ctx: &Pkcs11, config: &RunConfig) -> (r: Result<Slot, RunError>) {
    let slots = match slots_with_token(ctx) {
        Ok(s) => s,
        Err(_) => return Err(RunError::SlotUnavailable),
    };
    let slot = match first_slot(&slots) {
        Ok(s) => s,
        Err(e) => return Err(e),
    };
    if init_token(ctx, slot, config.so_pin.as_str(), config.token_label.as_str()).is_err() {
        return Err(RunError::TokenSetupFailure);
    }
    match set_user_pin(ctx, slot, config.so_pin.as_str(), config.user_pin.as_str()) {
        Ok(()) => Ok(slot),
        Err(e) => Err(e),
    }
}

/// Generates an extractable, token-resident AES-128 key and reads its value.
fn generate_extractable_key(session: &Session) -> (r: Result<(ObjectHandle, Vec<u8>), RunError>) {
    let key = match generate_aes_key(session, AES_KEY_LEN, true, true) {
        Ok(k) => k,
        Err(_) => return Err(RunError::KeyGenFailure),
    };
    let attrs = match value_attributes(session, key) {
        Ok(a) => a,
        Err(_) => return Err(RunError::CryptoOperationFailure),
    };
    match key_value(attrs) {
        Ok(value) => Ok((key, value)),
        Err(e) => Err(e),
    }
}

/// Wraps `payload` under `wrapping` with `iv`, and encrypts `payload_value`
/// under `wrapping` with the same `iv`.
fn wrap_and_encrypt(
    session: &Session,
    iv: [u8; 16],
    wrapping: ObjectHandle,
    payload: ObjectHandle,
    payload_value: &Vec<u8>,
) -> (r: Result<(Vec<u8>, Vec<u8>), RunError>) {
    let wrapped = match wrap_key_aes_cbc(session, iv, wrapping, payload) {
        Ok(w) => w,
        Err(_) => return Err(RunError::CryptoOperationFailure),
    };
    match encrypt_aes_cbc(session, iv, wrapping, payload_value) {
        Ok(encrypted) => Ok((wrapped, encrypted)),
        Err(_) => Err(RunError::CryptoOperationFailure),
    }
}

/// The run on a module that is loaded and initialized.
fn run_initialized(ctx: &Pkcs11, config: &RunConfig) -> (r: Result<RunReport, RunError>)
    ensures
        r matches Ok(rep) ==> oracle_holds(rep.outcome),
{
    let slot = match provision_token(ctx, config) {
        Ok(s) => s,
        Err(e) => return Err(e),
    };
    let session = match open_rw_session(ctx, slot) {
        Ok(s) => s,
        Err(_) => return Err(RunError::TokenSetupFailure),
    };
    if login(&session, Role::User, config.user_pin.as_str()).is_err() {
        return Err(RunError::AuthFailure);
    }
    let (payload, payload_key) = match generate_extractable_key(&session) {
        Ok(k) => k,
        Err(e) => return Err(e),
    };
    let (wrapping, wrapping_key) = match generate_extractable_key(&session) {
        Ok(k) => k,
        Err(e) => return Err(e),
    };
    let (wrapped_first, encrypted_first) = match wrap_and_encrypt(
        &session,
        config.first_iv,
        wrapping,
        payload,
        &payload_key,
    ) {
        Ok(p) => p,
        Err(e) => return Err(e),
    };
    let (wrapped_second, encrypted_second) = match wrap_and_encrypt(
        &session,
        config.second_iv,
        wrapping,
        payload,
        &payload_key,
    ) {
        Ok(p) => p,
        Err(e) => return Err(e),
    };
    let outcome = CipherOutcome { wrapped_first, wrapped_second, encrypted_first, encrypted_second };
    match outcome.check() {
        Ok(()) => Ok(RunReport { payload_key, wrapping_key, outcome }),
        Err(e) => Err(e),
    }
}

/// Runs the whole check against the provider that `config` names: loads and
/// initializes it, provisions the first token, generates a payload key and a
/// wrapping key, wraps and encrypts under both IVs and compares. The module is
/// finalized on every path once it was initialized.
///
/// A successful run establishes that wrapping equals encrypting the raw key
/// bytes under each IV, and that the two IVs give different wraps.
pub fn run(config: &RunConfig) -> (r: Result<RunReport, RunError>)
    ensures
        r matches Ok(rep) ==> oracle_holds(rep.outcome),
{
    let ctx = match load_module(config.provider_path.as_str()) {
        Ok(c) => c,
        Err(_) => return Err(RunError::ProviderLoad),
    };
    if initialize_os_locking(&ctx).is_err() {
        return Err(RunError::ProviderLoad);
    }
    let r = run_initialized(&ctx, config);
    let _ = finalize(ctx);
    r
}

} // verus!
