//! The calls into the PKCS#11 binding. Each function here makes one call and
//! converts its arguments and result; what the token returns depends on the
//! token's state, so the contracts promise only what holds of every outcome.
use vstd::prelude::*;

use cryptoki::context::{CInitializeArgs, CInitializeFlags, Pkcs11};
use cryptoki::mechanism::Mechanism;
use cryptoki::object::{Attribute, AttributeType, KeyType, ObjectClass, ObjectHandle};
use cryptoki::session::{Session, UserType};
use cryptoki::slot::Slot;
use cryptoki::types::AuthPin;

use crate::select::KeyAttribute;

verus! {

/// A loaded PKCS#11 module.
#[verifier::external_type_specification]
#[verifier::external_body]
pub struct ExPkcs11(Pkcs11);

/// An open session with a token.
#[verifier::external_type_specification]
#[verifier::external_body]
pub struct ExSession(Session);

/// A slot through which a token is reached.
#[verifier::external_type_specification]
#[verifier::external_body]
pub struct ExSlot(Slot);

/// A reference to an object held by the token.
#[verifier::external_type_specification]
#[verifier::external_body]
pub struct ExObjectHandle(ObjectHandle);

/// The binding's error type.
#[verifier::external_type_specification]
#[verifier::external_body]
pub struct ExError(cryptoki::error::Error);

/// The role a session logs in as.
#[derive(Debug, Clone, Copy, PartialEq, Eq, Structural)]
pub enum Role {
    /// The security officer, who initializes the token and the user PIN.
    SecurityOfficer,
    /// The normal user.
    User,
}

/// Relies on `Pkcs11::new`: loads the module at the given path.
#[verifier::external_body]
pub(crate) fn load_module(path: &str) -> (r: Result<Pkcs11, cryptoki::error::Error>) {
    Pkcs11::new(path)
}

/// Relies on `Pkcs11::initialize`: initializes the module, allowing it to use
/// the operating system's locking.
#[verifier::external_body]
pub(crate) fn initialize_os_locking(ctx: &Pkcs11) -> (r: Result<(), cryptoki::error::Error>) {
    ctx.initialize(CInitializeArgs::new(CInitializeFlags::OS_LOCKING_OK))
}

/// Relies on `Pkcs11::finalize`: tells the module that it is no longer needed.
#[verifier::external_body]
pub(crate) fn finalize(ctx: Pkcs11) -> (r: Result<(), cryptoki::error::Error>) {
    ctx.finalize()
}

/// Relies on `Pkcs11::get_slots_with_token`: the slots that hold a token.
#[verifier::external_body]
pub(crate) fn slots_with_token(ctx: &Pkcs11) -> (r: Result<Vec<Slot>, cryptoki::error::Error>) {
    ctx.get_slots_with_token()
}

/// Relies on `Pkcs11::init_token`: initializes the token in `slot` with the
/// security officer PIN and the label.
#[verifier::external_body]
pub(crate) fn init_token(ctx: &Pkcs11, slot: Slot, so_pin: &str, label: &str) -> (r: Result<
    (),
    cryptoki::error::Error,
>) {
    ctx.init_token(slot, &AuthPin::from(so_pin), label)
}

/// Relies on `Pkcs11::open_rw_session`: a read-write session on `slot`, closed
/// when it is dropped.
#[verifier::external_body]
pub(crate) fn open_rw_session(ctx: &Pkcs11, slot: Slot) -> (r: Result<
    Session,
    cryptoki::error::Error,
>) {
    ctx.open_rw_session(slot)
}

/// Relies on `Session::login`: logs the session in under `role` with `pin`.
#[verifier::external_body]
pub(crate) fn login(session: &Session, role: Role, pin: &str) -> (r: Result<
    (),
    cryptoki::error::Error,
>) {
    let user_type = match role {
        Role::SecurityOfficer => UserType::So,
        Role::User => UserType::User,
    };
    session.login(user_type, Some(&AuthPin::from(pin)))
}

/// Relies on `Session::init_pin`: sets the normal user's PIN.
#[verifier::external_body]
pub(crate) fn init_pin(session: &Session, pin: &str) -> (r: Result<(), cryptoki::error::Error>) {
    session.init_pin(&AuthPin::from(pin))
}

/// Relies on `Session::generate_key` with the AES key generation mechanism: a
/// new AES secret key of `value_len` bytes, with the given token and
/// extractable flags.
#[verifier::external_body]
pub(crate) fn generate_aes_key(
    session: &Session,
    value_len: u64,
    on_token: bool,
    extractable: bool,
) -> (r: Result<ObjectHandle, cryptoki::error::Error>) {
    let template = [
        Attribute::Class(ObjectClass::SECRET_KEY),
        Attribute::KeyType(KeyType::AES),
        Attribute::ValueLen(value_len.into()),
        Attribute::Token(on_token),
        Attribute::Extractable(extractable),
    ];
    session.generate_key(&Mechanism::AesKeyGen, &template)
}

/// Relies on `Session::get_attributes` asked for the value attribute alone:
/// it returns the requested attributes that are available, so at most one.
/// Each is handed out as a value attribute with its bytes, or as another kind.
#[verifier::external_body]
pub(crate) fn value_attributes(session: &Session, key: ObjectHandle) -> (r: Result<
    Vec<KeyAttribute>,
    cryptoki::error::Error,
>)
    ensures
        r matches Ok(v) ==> v@.len() <= 1,
{
    let attrs = session.get_attributes(key, &[AttributeType::Value])?;
    Ok(attrs.into_iter().map(|a| match a {
        Attribute::Value(bytes) => KeyAttribute::Value(bytes),
        _ => KeyAttribute::Other,
    }).collect())
}

/// Relies on `Session::wrap_key` with the AES-CBC mechanism: `key` wrapped
/// under `wrapping_key` with the initialization vector `iv`.
#[verifier::external_body]
pub(crate) fn wrap_key_aes_cbc(
    session: &Session,
    iv: [u8; 16],
    wrapping_key: ObjectHandle,
    key: ObjectHandle,
) -> (r: Result<Vec<u8>, cryptoki::error::Error>) {
    session.wrap_key(&Mechanism::AesCbc(iv), wrapping_key, key)
}

/// Relies on `Session::encrypt` with the AES-CBC mechanism: `data` encrypted
/// under `key` with the initialization vector `iv`.
#[verifier::external_body]
pub(crate) fn encrypt_aes_cbc(
    session: &Session,
    iv: [u8; 16],
    key: ObjectHandle,
    data: &Vec<u8>,
) -> (r: Result<Vec<u8>, cryptoki::error::Error>) {
    session.encrypt(&Mechanism::AesCbc(iv), key, data)
}

} // verus!
