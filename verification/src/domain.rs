use vstd::prelude::*;
use vstd::string::StringExecFns;

use crate::trusted::{b32_encode_nopad, fresh_secret_bytes, totp_check};

verus! {

/// One registered identity. The email is stored in its lower-cased form and
/// is unique across the store; the credential is kept verbatim.
pub struct User {
    pub id: String,
    pub email: String,
    pub name: String,
    pub password: String,
}

/// The second-factor record of one account, created together with its user.
/// `otp_base32` and `otp_auth_url` are present exactly between a generation
/// step and the next disable; `otp_enabled` can only become true once a
/// token has verified against the stored secret.
pub struct Mfa {
    pub account_id: String,
    pub otp_enabled: bool,
    pub otp_verified: bool,
    pub otp_base32: Option<String>,
    pub otp_auth_url: Option<String>,
}

/// Every expected, recoverable outcome of the store and MFA operations.
#[derive(Clone, Copy, Debug, PartialEq, Eq, Structural)]
pub enum AuthError {
    DuplicateEmail,
    AccountNotFound,
    InvalidCredentials,
    SecretMissing,
    InvalidToken,
    MfaNotEnabled,
}

/// The provisioning URI handed to an authenticator application, with the
/// fixed issuer on both sides of the account label.
pub open spec fn auth_url_of(email: Seq<char>, secret: Seq<char>) -> Seq<char> {
    "otpauth://totp/"@ + "migorithm"@ + ":"@ + email + "?secret="@ + secret + "&issuer="@
        + "migorithm"@
}

/// Well-formedness of a single MFA record: an enabled record has a verified,
/// present secret, and secret and provisioning URI are present together.
pub open spec fn mfa_wf(m: Mfa) -> bool {
    &&& m.otp_enabled ==> m.otp_verified && m.otp_base32 is Some
    &&& m.otp_base32 is Some <==> m.otp_auth_url is Some
}

impl Mfa {
    /// Give the record a fresh secret and the matching provisioning URI.
    /// The enabled and verified flags are deliberately left untouched.
    pub fn set(&mut self, email: String)
        ensures
            final(self).account_id == old(self).account_id,
            final(self).otp_enabled == old(self).otp_enabled,
            final(self).otp_verified == old(self).otp_verified,
            final(self).otp_base32 matches Some(s) && s@.len() == 34
                && (final(self).otp_auth_url matches Some(u) && u@ == auth_url_of(email@, s@)),
    {
        let bytes = fresh_secret_bytes();
        let secret = b32_encode_nopad(bytes.as_slice());
        let mut url = "otpauth://totp/".to_owned();
        url.append("migorithm");
        url.append(":");
        url.append(email.as_str());
        url.append("?secret=");
        url.append(secret.as_str());
        url.append("&issuer=");
        url.append("migorithm");
        proof {
            assert(url@ =~= auth_url_of(email@, secret@));
        }
        self.otp_base32 = Some(secret);
        self.otp_auth_url = Some(url);
    }

    /// Record the outcome of a token check on a record whose secret is
    /// present: a match enables the record, a mismatch is the invalid-token
    /// failure and leaves the record as it was.
    pub fn record_check(&mut self, matched: bool) -> (r: Result<(), AuthError>)
        requires
            old(self).otp_base32 is Some,
        ensures
            matched <==> r is Ok,
            !matched ==> r == Err::<(), AuthError>(AuthError::InvalidToken),
            r is Err ==> *final(self) == *old(self),
            r is Ok ==> final(self).otp_enabled && final(self).otp_verified
                && final(self).account_id == old(self).account_id
                && final(self).otp_base32 == old(self).otp_base32
                && final(self).otp_auth_url == old(self).otp_auth_url,
    {
        if matched {
            self.otp_enabled = true;
            self.otp_verified = true;
            Ok(())
        } else {
            Err(AuthError::InvalidToken)
        }
    }

    /// Check a token against the stored secret and enable the record on
    /// success. Fails with the secret-missing error when no generation step
    /// has happened, and with the invalid-token error on any mismatch or
    /// failure of the underlying check; it never panics on a bad token.
    pub fn verify(&mut self, token: String) -> (r: Result<(), AuthError>)
        ensures
            old(self).otp_base32 is None <==> r == Err::<(), AuthError>(AuthError::SecretMissing),
            r is Err ==> *final(self) == *old(self),
            r matches Err(e) ==> e == AuthError::SecretMissing || e == AuthError::InvalidToken,
            r is Ok ==> old(self).otp_base32 is Some,
            r is Ok ==> final(self).otp_enabled && final(self).otp_verified
                && final(self).account_id == old(self).account_id
                && final(self).otp_base32 == old(self).otp_base32
                && final(self).otp_auth_url == old(self).otp_auth_url,
    {
        if self.otp_base32.is_none() {
            return Err(AuthError::SecretMissing);
        }
        let matched: bool = match &self.otp_base32 {
            Some(s) => match totp_check(s.as_str(), token.as_str()) {
                Some(m) => m,
                None => false,
            },
            None => false,
        };
        self.record_check(matched)
    }

    /// Reset the record to its initial state: flags false, secret and
    /// provisioning URI absent.
    pub fn disable(&mut self)
        ensures
            final(self).account_id == old(self).account_id,
            !final(self).otp_enabled,
            !final(self).otp_verified,
            final(self).otp_base32 is None,
            final(self).otp_auth_url is None,
    {
        self.otp_enabled = false;
        self.otp_verified = false;
        self.otp_base32 = None;
        self.otp_auth_url = None;
    }
}

} // verus!
