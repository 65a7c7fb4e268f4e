//! What a run is told: where the provider is, how to provision the token,
//! and which two initialization vectors to compare.
use vstd::prelude::*;

verus! {

/// Where the software token provider is looked for when no other path is given.
pub const DEFAULT_MODULE_PATH: &'static str = "/usr/local/lib/softhsm/libsofthsm2.so";

/// The label given to the token the run initializes.
pub const DEFAULT_TOKEN_LABEL: &'static str = "Test Token";

/// The security officer PIN the run sets on the token.
pub const DEFAULT_SO_PIN: &'static str = "abcdef";

/// The user PIN the run sets on the token.
pub const DEFAULT_USER_PIN: &'static str = "fedcba";

/// The length in bytes of the AES keys the run generates.
pub const AES_KEY_LEN: u64 = 16;

/// The settings of one run.
pub struct RunConfig {
    /// Path of the PKCS#11 module to load.
    pub provider_path: String,
    /// Label of the token to initialize.
    pub token_label: String,
    /// Security officer PIN.
    pub so_pin: String,
    /// Normal user PIN.
    pub user_pin: String,
    /// The first initialization vector.
    pub first_iv: [u8; 16],
    /// The second initialization vector.
    pub second_iv: [u8; 16],
}

/// Sixteen bytes, all equal to `b`.
pub open spec fn filled_iv(b: u8) -> Seq<u8> {
    Seq::new(16, |_i: int| b)
}

impl RunConfig {
    /// The settings of the standard run against the module at `provider_path`:
    /// the default label and PINs, an all-zero first IV and an all-one second IV.
    pub fn new(provider_path: String) -> (r: RunConfig)
        ensures
            r.provider_path@ == provider_path@,
            r.token_label@ == DEFAULT_TOKEN_LABEL@,
            r.so_pin@ == DEFAULT_SO_PIN@,
            r.user_pin@ == DEFAULT_USER_PIN@,
            r.first_iv@ == filled_iv(0),
            r.second_iv@ == filled_iv(1),
            r.first_iv@ != r.second_iv@,
    {
        let first_iv: [u8; 16] = [0u8; 16];
        let second_iv: [u8; 16] = [1u8; 16];
        assert(first_iv@ =~= filled_iv(0));
        assert(second_iv@ =~= filled_iv(1));
        assert(first_iv@[0] != second_iv@[0]);
        RunConfig {
            provider_path,
            token_label: DEFAULT_TOKEN_LABEL.to_string(),
            so_pin: DEFAULT_SO_PIN.to_string(),
            user_pin: DEFAULT_USER_PIN.to_string(),
            first_iv,
            second_iv,
        }
    }
}

} // verus!
