use vstd::prelude::*;

use crate::command::{DisableOTP, GenerateOTP, Login, RegisterUser, VerifyOTP};
use crate::domain::{auth_url_of, mfa_wf, AuthError, Mfa, User};
use crate::trusted::{fresh_account_id, lowercase, lower_of};

verus! {

/// The authoritative in-memory collection of users and their MFA records.
/// A caller that wants the operations to be atomic under concurrency holds
/// the store behind one exclusive section; the store itself guarantees that
/// each operation preserves the invariants below.
pub struct Db {
    pub user: Vec<User>,
    pub mfa: Vec<Mfa>,
}

/// Whether some stored user carries exactly this (lower-cased) email.
pub open spec fn has_email(users: Seq<User>, e: Seq<char>) -> bool {
    exists|i: int| 0 <= i < users.len() && users[i].email@ == e
}

/// The index of the first MFA record of this account, or -1 when there is
/// none.
pub open spec fn mfa_idx(mfas: Seq<Mfa>, id: Seq<char>) -> int
    decreases mfas.len(),
{
    if mfas.len() == 0 {
        -1
    } else if mfas[0].account_id@ == id {
        0
    } else if mfa_idx(mfas.subrange(1, mfas.len() as int), id) < 0 {
        -1
    } else {
        mfa_idx(mfas.subrange(1, mfas.len() as int), id) + 1
    }
}

/// What `mfa_idx` finds: -1 exactly when no record matches, and otherwise
/// the first matching index.
pub proof fn lemma_mfa_idx(mfas: Seq<Mfa>, id: Seq<char>)
    ensures
        mfa_idx(mfas, id) == -1 || 0 <= mfa_idx(mfas, id) < mfas.len(),
        mfa_idx(mfas, id) == -1 <==> (forall|i: int|
            0 <= i < mfas.len() ==> mfas[i].account_id@ != id),
        mfa_idx(mfas, id) >= 0 ==> mfas[mfa_idx(mfas, id)].account_id@ == id && (forall|j: int|
            0 <= j < mfa_idx(mfas, id) ==> mfas[j].account_id@ != id),
    decreases mfas.len(),
{
    if mfas.len() == 0 {
    } else if mfas[0].account_id@ == id {
    } else {
        let sub = mfas.subrange(1, mfas.len() as int);
        lemma_mfa_idx(sub, id);
        assert forall|i: int| 1 <= i < mfas.len() implies mfas[i] == sub[i - 1] by {}
        if mfa_idx(sub, id) == -1 {
            assert forall|i: int| 0 <= i < mfas.len() implies mfas[i].account_id@ != id by {
                if i >= 1 {
                    assert(mfas[i] == sub[i - 1]);
                }
            }
        } else {
            let k = mfa_idx(sub, id);
            assert(mfa_idx(mfas, id) == k + 1);
            assert(mfas[k + 1] == sub[k]);
            assert forall|j: int| 0 <= j < k + 1 implies mfas[j].account_id@ != id by {
                if j >= 1 {
                    assert(sub[j - 1].account_id@ != id);
                }
            }
        }
    }
}

impl Db {
    /// Every invariant of the store: users and MFA records are paired one to
    /// one by position and account id, stored emails are pairwise distinct,
    /// and every MFA record is well formed.
    pub open spec fn wf(&self) -> bool {
        &&& self.user@.len() == self.mfa@.len()
        &&& forall|i: int|
            0 <= i < self.user@.len() ==> self.mfa@[i].account_id@ == self.user@[i].id@
        &&& forall|i: int, j: int|
            0 <= i < self.user@.len() && 0 <= j < self.user@.len() && i != j
                ==> self.user@[i].email@ != self.user@[j].email@
        &&& forall|i: int| 0 <= i < self.mfa@.len() ==> mfa_wf(self.mfa@[i])
    }

    /// A fresh, empty store.
    pub fn new() -> (r: Db)
        ensures
            r.wf(),
            r.user@.len() == 0,
            r.mfa@.len() == 0,
    {
        Db { user: Vec::new(), mfa: Vec::new() }
    }

    /// Whether some stored user carries exactly this email (already
    /// lower-cased by the caller).
    fn email_taken(&self, email_lower: &String) -> (r: bool)
        ensures
            r == has_email(self.user@, email_lower@),
    {
        let n = self.user.len();
        let mut i: usize = 0;
        while i < n
            invariant
                n == self.user@.len(),
                i <= n,
                forall|j: int| 0 <= j < i ==> self.user@[j].email@ != email_lower@,
            decreases n - i,
        {
            if self.user[i].email == *email_lower {
                return true;
            }
            i += 1;
        }
        false
    }

    /// The position of this account's MFA record, if any.
    fn find_mfa_index(&self, account_id: &String) -> (r: Option<usize>)
        ensures
            r is Some <==> mfa_idx(self.mfa@, account_id@) >= 0,
            r matches Some(i) ==> i as int == mfa_idx(self.mfa@, account_id@)
                && i < self.mfa@.len(),
    {
        let n = self.mfa.len();
        let mut i: usize = 0;
        while i < n
            invariant
                n == self.mfa@.len(),
                i <= n,
                forall|j: int| 0 <= j < i ==> self.mfa@[j].account_id@ != account_id@,
            decreases n - i,
        {
            if self.mfa[i].account_id == *account_id {
                proof {
                    lemma_mfa_idx(self.mfa@, account_id@);
                }
                return Some(i);
            }
            i += 1;
        }
        proof {
            lemma_mfa_idx(self.mfa@, account_id@);
        }
        None
    }

    /// Create a new account unless a user already holds the same email under
    /// case-insensitive comparison. On success a fresh user and its initial
    /// MFA record are appended together, and the user is returned.
    pub fn register(&mut self, cmd: RegisterUser) -> (r: Result<User, AuthError>)
        requires
            old(self).wf(),
        ensures
            final(self).wf(),
            r is Err <==> has_email(old(self).user@, lower_of(cmd.email@)),
            r is Err ==> r == Err::<User, AuthError>(AuthError::DuplicateEmail)
                && final(self).user@ == old(self).user@ && final(self).mfa@ == old(self).mfa@,
            r matches Ok(u) ==> u.email@ == lower_of(cmd.email@) && u.name == cmd.name
                && u.password == cmd.password && u.id@.len() == 36
                && final(self).user@ == old(self).user@.push(u)
                && final(self).mfa@ == old(self).mfa@.push(
                    (Mfa {
                        account_id: u.id,
                        otp_enabled: false,
                        otp_verified: false,
                        otp_base32: None,
                        otp_auth_url: None,
                    }),
                ),
    {
        let low = lowercase(cmd.email.as_str());
        if self.email_taken(&low) {
            return Err(AuthError::DuplicateEmail);
        }
        let id = fresh_account_id();
        let stored = User {
            id: id.clone(),
            email: low.clone(),
            name: cmd.name.clone(),
            password: cmd.password.clone(),
        };
        let record = Mfa {
            account_id: id.clone(),
            otp_enabled: false,
            otp_verified: false,
            otp_base32: None,
            otp_auth_url: None,
        };
        self.user.push(stored);
        self.mfa.push(record);
        Ok(User { id, email: low, name: cmd.name, password: cmd.password })
    }

    /// Case-insensitive lookup of a user; the store is left untouched.
    pub fn find_user_by_email(&self, email: String) -> (r: Option<User>)
        requires
            self.wf(),
        ensures
            r is Some <==> has_email(self.user@, lower_of(email@)),
            r matches Some(u) ==> u.email@ == lower_of(email@) && (exists|i: int|
                0 <= i < self.user@.len() && self.user@[i] == u),
    {
        let low = lowercase(email.as_str());
        let n = self.user.len();
        let mut i: usize = 0;
        while i < n
            invariant
                n == self.user@.len(),
                i <= n,
                low@ == lower_of(email@),
                forall|j: int| 0 <= j < i ==> self.user@[j].email@ != low@,
            decreases n - i,
        {
            if self.user[i].email == low {
                let u = &self.user[i];
                return Some(
                    User {
                        id: u.id.clone(),
                        email: u.email.clone(),
                        name: u.name.clone(),
                        password: u.password.clone(),
                    },
                );
            }
            i += 1;
        }
        None
    }

    /// Look the user up by email; any match is a successful login. The
    /// supplied credential is kept but not compared here: credential
    /// checking and hashing live outside this core.
    pub fn login(&self, cmd: Login) -> (r: Result<User, AuthError>)
        requires
            self.wf(),
        ensures
            r is Ok <==> has_email(self.user@, lower_of(cmd.email@)),
            r matches Ok(u) ==> u.email@ == lower_of(cmd.email@) && (exists|i: int|
                0 <= i < self.user@.len() && self.user@[i] == u),
            r is Err ==> r == Err::<User, AuthError>(AuthError::InvalidCredentials),
    {
        match self.find_user_by_email(cmd.email) {
            Some(u) => Ok(u),
            None => Err(AuthError::InvalidCredentials),
        }
    }

    /// The MFA record of this account, if any; the store is left untouched.
    pub fn find_mfa_by_account(&self, account_id: String) -> (r: Option<Mfa>)
        ensures
            r is Some <==> mfa_idx(self.mfa@, account_id@) >= 0,
            r matches Some(m) ==> m == self.mfa@[mfa_idx(self.mfa@, account_id@)],
    {
        let i = match self.find_mfa_index(&account_id) {
            Some(i) => i,
            None => return None,
        };
        let m = &self.mfa[i];
        let otp_base32 = match &m.otp_base32 {
            Some(s) => Some(s.clone()),
            None => None,
        };
        let otp_auth_url = match &m.otp_auth_url {
            Some(s) => Some(s.clone()),
            None => None,
        };
        Some(
            Mfa {
                account_id: m.account_id.clone(),
                otp_enabled: m.otp_enabled,
                otp_verified: m.otp_verified,
                otp_base32,
                otp_auth_url,
            },
        )
    }

    /// Give this account a fresh secret and provisioning URI, and return
    /// both. The enabled and verified flags are left untouched.
    pub fn generate_otp(&mut self, cmd: GenerateOTP) -> (r: Result<(String, String), AuthError>)
        requires
            old(self).wf(),
        ensures
            final(self).wf(),
            final(self).user@ == old(self).user@,
            r is Err <==> mfa_idx(old(self).mfa@, cmd.account_id@) == -1,
            r is Err ==> r == Err::<(String, String), AuthError>(AuthError::AccountNotFound)
                && final(self).mfa@ == old(self).mfa@,
            r matches Ok((secret, url)) ==> ({
                let i = mfa_idx(old(self).mfa@, cmd.account_id@);
                &&& 0 <= i < old(self).mfa@.len()
                &&& secret@.len() == 34
                &&& url@ == auth_url_of(cmd.email@, secret@)
                &&& final(self).mfa@ == old(self).mfa@.update(
                    i,
                    (Mfa {
                        account_id: old(self).mfa@[i].account_id,
                        otp_enabled: old(self).mfa@[i].otp_enabled,
                        otp_verified: old(self).mfa@[i].otp_verified,
                        otp_base32: Some(secret),
                        otp_auth_url: Some(url),
                    }),
                )
            }),
    {
        proof {
            lemma_mfa_idx(old(self).mfa@, cmd.account_id@);
        }
        let i = match self.find_mfa_index(&cmd.account_id) {
            Some(i) => i,
            None => return Err(AuthError::AccountNotFound),
        };
        let m = &mut self.mfa[i];
        m.set(cmd.email);
        let secret = m.otp_base32.as_ref().unwrap().clone();
        let url = m.otp_auth_url.as_ref().unwrap().clone();
        Ok((secret, url))
    }

    /// Check a token against this account's stored secret and enable the
    /// second factor on success.
    pub fn verify_otp(&mut self, cmd: VerifyOTP) -> (r: Result<(), AuthError>)
        requires
            old(self).wf(),
        ensures
            final(self).wf(),
            final(self).user@ == old(self).user@,
            r is Err ==> final(self).mfa@ == old(self).mfa@,
            r == Err::<(), AuthError>(AuthError::AccountNotFound) <==> mfa_idx(
                old(self).mfa@,
                cmd.account_id@,
            ) == -1,
            ({
                let i = mfa_idx(old(self).mfa@, cmd.account_id@);
                i >= 0 ==> {
                    &&& (r == Err::<(), AuthError>(AuthError::SecretMissing) <==> old(
                        self,
                    ).mfa@[i].otp_base32 is None)
                    &&& (r is Ok || r == Err::<(), AuthError>(AuthError::SecretMissing) || r
                        == Err::<(), AuthError>(AuthError::InvalidToken))
                    &&& (r is Ok ==> final(self).mfa@ == old(self).mfa@.update(
                        i,
                        (Mfa {
                            account_id: old(self).mfa@[i].account_id,
                            otp_enabled: true,
                            otp_verified: true,
                            otp_base32: old(self).mfa@[i].otp_base32,
                            otp_auth_url: old(self).mfa@[i].otp_auth_url,
                        }),
                    ))
                }
            }),
    {
        proof {
            lemma_mfa_idx(old(self).mfa@, cmd.account_id@);
        }
        let i = match self.find_mfa_index(&cmd.account_id) {
            Some(i) => i,
            None => return Err(AuthError::AccountNotFound),
        };
        let m = &mut self.mfa[i];
        m.verify(cmd.token)
    }

    /// Check a token for an account whose second factor must already be
    /// enabled; an account that is not enabled is rejected before any look
    /// at the token or the secret.
    pub fn validate_otp(&mut self, cmd: VerifyOTP) -> (r: Result<(), AuthError>)
        requires
            old(self).wf(),
        ensures
            final(self).wf(),
            final(self).user@ == old(self).user@,
            r is Err ==> final(self).mfa@ == old(self).mfa@,
            r == Err::<(), AuthError>(AuthError::AccountNotFound) <==> mfa_idx(
                old(self).mfa@,
                cmd.account_id@,
            ) == -1,
            ({
                let i = mfa_idx(old(self).mfa@, cmd.account_id@);
                i >= 0 ==> {
                    &&& (r == Err::<(), AuthError>(AuthError::MfaNotEnabled) <==> !old(
                        self,
                    ).mfa@[i].otp_enabled)
                    &&& (r is Ok || r == Err::<(), AuthError>(AuthError::MfaNotEnabled) || r
                        == Err::<(), AuthError>(AuthError::InvalidToken))
                    &&& (r is Ok ==> final(self).mfa@ == old(self).mfa@)
                }
            }),
    {
        proof {
            lemma_mfa_idx(old(self).mfa@, cmd.account_id@);
        }
        let i = match self.find_mfa_index(&cmd.account_id) {
            Some(i) => i,
            None => return Err(AuthError::AccountNotFound),
        };
        if !self.mfa[i].otp_enabled {
            return Err(AuthError::MfaNotEnabled);
        }
        let ghost before = self.mfa@;
        let m = &mut self.mfa[i];
        let r = m.verify(cmd.token);
        proof {
            if r is Ok {
                assert(self.mfa@[i as int] == before[i as int]);
                assert(self.mfa@ =~= before);
            }
        }
        r
    }

    /// Reset this account's second factor to its initial state.
    pub fn disable_otp(&mut self, cmd: DisableOTP) -> (r: Result<(), AuthError>)
        requires
            old(self).wf(),
        ensures
            final(self).wf(),
            final(self).user@ == old(self).user@,
            r == Err::<(), AuthError>(AuthError::AccountNotFound) <==> mfa_idx(
                old(self).mfa@,
                cmd.account_id@,
            ) == -1,
            r is Err ==> r == Err::<(), AuthError>(AuthError::AccountNotFound)
                && final(self).mfa@ == old(self).mfa@,
            r is Ok ==> final(self).mfa@ == old(self).mfa@.update(
                mfa_idx(old(self).mfa@, cmd.account_id@),
                (Mfa {
                    account_id: old(self).mfa@[mfa_idx(old(self).mfa@, cmd.account_id@)].account_id,
                    otp_enabled: false,
                    otp_verified: false,
                    otp_base32: None,
                    otp_auth_url: None,
                }),
            ),
    {
        proof {
            lemma_mfa_idx(old(self).mfa@, cmd.account_id@);
        }
        let i = match self.find_mfa_index(&cmd.account_id) {
            Some(i) => i,
            None => return Err(AuthError::AccountNotFound),
        };
        let m = &mut self.mfa[i];
        m.disable();
        Ok(())
    }
}

/// Law: once a user whose stored email is the lower-cased form of one email
/// stands in the store, a registration with any email that lowers to the
/// same form finds a duplicate. Together with the contract of `register`
/// (success appends such a user, and a held email is refused with the
/// duplicate-email error), registering two emails that differ only in case
/// yields exactly one success and one duplicate-email failure.
pub proof fn lemma_register_duplicate_case_insensitive(
    users: Seq<User>,
    u: User,
    e1: Seq<char>,
    e2: Seq<char>,
)
    requires
        lower_of(e1) == lower_of(e2),
        u.email@ == lower_of(e1),
    ensures
        has_email(users.push(u), lower_of(e2)),
{
    assert(users.push(u)[users.len() as int] == u);
}

} // verus!
