use vstd::prelude::*;

verus! {

/// Request to create a new account.
pub struct RegisterUser {
    pub name: String,
    pub email: String,
    pub password: String,
}

/// Request to look an account up by its credentials.
pub struct Login {
    pub email: String,
    pub password: String,
}

/// Request to give an account a fresh TOTP secret.
pub struct GenerateOTP {
    pub email: String,
    pub account_id: String,
}

/// Request to check a TOTP token against an account's secret; used both for
/// the first, enabling verification and for later validations.
pub struct VerifyOTP {
    pub account_id: String,
    pub token: String,
}

/// Request to reset an account's second factor.
pub struct DisableOTP {
    pub account_id: String,
}

} // verus!
