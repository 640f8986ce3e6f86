//! Authentication: the three administrators, the limited number of login
//! attempts before the account is locked, and passenger registration and
//! login. Passwords are stored and compared only as bcrypt hashes.

use vstd::prelude::*;
use crate::text::{has_prefix, trim, trimmed, text_equals};

verus! {

#[verifier::external_type_specification]
#[verifier::external_body]
pub struct ExBcryptError(bcrypt::BcryptError);

/// What `bcrypt::verify(password, hash)` answers: `Some(b)` for `Ok(b)`,
/// `None` when it reports an error (a malformed hash or a cost out of range).
/// The answer depends on the two arguments alone: the salt and cost are read
/// from `hash`.
pub uninterp spec fn bcrypt_verdict(password: Seq<char>, hash: Seq<char>) -> Option<bool>;

/// Calls `bcrypt::verify`. Its outcome is the named verdict above.
#[verifier::external_body]
fn bcrypt_verify(password: &str, hash: &str) -> (r: Result<bool, bcrypt::BcryptError>)
    ensures
        match r {
            Ok(b) => bcrypt_verdict(password@, hash@) == Some(b),
            Err(_) => bcrypt_verdict(password@, hash@) is None,
        },
{
    bcrypt::verify(password, hash)
}

/// The shape of a hash that `bcrypt::hash` makes at the default cost: 60
/// characters beginning `$2b$12$` (version, cost, then 22 characters of salt
/// and 31 of hash), a string that `verify` parses, so that checking any
/// password against it gives an answer rather than an error.
pub open spec fn is_default_cost_hash(h: Seq<char>) -> bool {
    &&& h.len() == 60
    &&& has_prefix(h, "$2b$12$"@)
    &&& forall|q: Seq<char>| #[trigger] bcrypt_verdict(q, h) is Some
}

/// Calls `bcrypt::hash` at `bcrypt::DEFAULT_COST`. The salt is drawn from the
/// operating system, so the hash itself is not determined. What is claimed:
/// the result has the `$2b$12$` shape above (`HashParts::format` writes it,
/// and `split_hash` accepts it, the cost 12 being in range), and it verifies
/// against the password it was made from (`verify` re-derives the hash with
/// the salt and cost the string carries). When drawing the salt fails, the
/// error is returned; nothing says when.
#[verifier::external_body]
fn bcrypt_hash(password: &str) -> (r: Result<String, bcrypt::BcryptError>)
    ensures
        r matches Ok(h) ==> is_default_cost_hash(h@) && bcrypt_verdict(password@, h@) == Some(
            true,
        ),
{
    bcrypt::hash(password, bcrypt::DEFAULT_COST)
}

/// Failures of the password machinery.
#[derive(Debug, Clone, Copy, PartialEq, Eq, Structural)]
pub enum AuthError {
    /// A password could not be hashed.
    HashingFailed,
    /// A stored hash could not be checked (it is malformed).
    VerificationFailed,
}

/// Hashes a password for storage.
pub fn hash_password(password: &str) -> (r: Result<String, AuthError>)
    ensures
        r matches Ok(h) ==> is_default_cost_hash(h@) && bcrypt_verdict(password@, h@) == Some(
            true,
        ),
        r matches Err(e) ==> e == AuthError::HashingFailed,
{
    match bcrypt_hash(password) {
        Ok(h) => Ok(h),
        Err(_) => Err(AuthError::HashingFailed),
    }
}

pub open spec fn verification_of(password: Seq<char>, hash: Seq<char>) -> Result<bool, AuthError> {
    match bcrypt_verdict(password, hash) {
        Some(b) => Ok(b),
        None => Err(AuthError::VerificationFailed),
    }
}

/// Checks a password against a stored hash.
pub fn verify_password(password: &str, hash: &str) -> (r: Result<bool, AuthError>)
    ensures
        r == verification_of(password@, hash@),
{
    match bcrypt_verify(password, hash) {
        Ok(b) => Ok(b),
        Err(_) => Err(AuthError::VerificationFailed),
    }
}

// ---------------------------------------------------------------------------
// Administrators

/// The hashed passwords of the three administrators, in the order
/// Abolaji, Kazeem, Biola.
pub struct AdminCredentials {
    pub abolaji_hash: String,
    pub kazeem_hash: String,
    pub biola_hash: String,
}

/// The stored hash of the administrator called `username`, if there is one.
pub open spec fn admin_hash_of(creds: AdminCredentials, username: Seq<char>) -> Option<Seq<char>> {
    if username == "Abolaji"@ {
        Some(creds.abolaji_hash@)
    } else if username == "Kazeem"@ {
        Some(creds.kazeem_hash@)
    } else if username == "Biola"@ {
        Some(creds.biola_hash@)
    } else {
        None
    }
}

/// Whether `username` and `password` identify an administrator.
pub open spec fn admin_check_of(creds: AdminCredentials, username: Seq<char>, password: Seq<char>) -> Result<bool, AuthError> {
    match admin_hash_of(creds, username) {
        Some(h) => verification_of(password, h),
        None => Ok(false),
    }
}

/// All three stored hashes are well-formed bcrypt hashes.
pub open spec fn credentials_well_formed(creds: AdminCredentials) -> bool {
    &&& is_default_cost_hash(creds.abolaji_hash@)
    &&& is_default_cost_hash(creds.kazeem_hash@)
    &&& is_default_cost_hash(creds.biola_hash@)
}

/// The three configured passwords hash to the stored credentials.
pub open spec fn credentials_match(creds: AdminCredentials, p1: Seq<char>, p2: Seq<char>, p3: Seq<char>) -> bool {
    &&& credentials_well_formed(creds)
    &&& bcrypt_verdict(p1, creds.abolaji_hash@) == Some(true)
    &&& bcrypt_verdict(p2, creds.kazeem_hash@) == Some(true)
    &&& bcrypt_verdict(p3, creds.biola_hash@) == Some(true)
}

impl AdminCredentials {
    /// Hashes the three configured administrator passwords.
    pub fn from_passwords(p1: &str, p2: &str, p3: &str) -> (r: Result<AdminCredentials, AuthError>)
        ensures
            r matches Ok(c) ==> credentials_match(c, p1@, p2@, p3@),
            r matches Err(e) ==> e == AuthError::HashingFailed,
    {
        let h1 = hash_password(p1)?;
        let h2 = hash_password(p2)?;
        let h3 = hash_password(p3)?;
        Ok(AdminCredentials { abolaji_hash: h1, kazeem_hash: h2, biola_hash: h3 })
    }
}

/// Checks an administrator's username (already trimmed) and password.
/// Only the stored hash of the named administrator is consulted.
pub fn check_admin_credentials(creds: &AdminCredentials, username: &str, password: &str) -> (r: Result<bool, AuthError>)
    ensures
        r == admin_check_of(*creds, username@, password@),
{
    if text_equals(username, "Abolaji") {
        verify_password(password, creds.abolaji_hash.as_str())
    } else if text_equals(username, "Kazeem") {
        verify_password(password, creds.kazeem_hash.as_str())
    } else if text_equals(username, "Biola") {
        verify_password(password, creds.biola_hash.as_str())
    } else {
        Ok(false)
    }
}

/// Each administrator logs in with the password their credentials were made
/// from.
pub proof fn lemma_configured_admins_log_in(creds: AdminCredentials, p1: Seq<char>, p2: Seq<char>, p3: Seq<char>)
    requires
        credentials_match(creds, p1, p2, p3),
    ensures
        admin_check_of(creds, "Abolaji"@, p1) == Ok::<bool, AuthError>(true),
        admin_check_of(creds, "Kazeem"@, p2) == Ok::<bool, AuthError>(true),
        admin_check_of(creds, "Biola"@, p3) == Ok::<bool, AuthError>(true),
{
    reveal_strlit("Abolaji");
    reveal_strlit("Kazeem");
    reveal_strlit("Biola");
    assert("Kazeem"@.len() != "Abolaji"@.len());
    assert("Biola"@.len() != "Abolaji"@.len());
    assert("Biola"@.len() != "Kazeem"@.len());
}

/// Checking credentials against well-formed hashes never fails: every
/// username and password gets a yes or a no.
pub proof fn lemma_admin_check_never_fails(creds: AdminCredentials, username: Seq<char>, password: Seq<char>)
    requires
        credentials_well_formed(creds),
    ensures
        admin_check_of(creds, username, password) is Ok,
{
    assert(bcrypt_verdict(password, creds.abolaji_hash@) is Some);
    assert(bcrypt_verdict(password, creds.kazeem_hash@) is Some);
    assert(bcrypt_verdict(password, creds.biola_hash@) is Some);
}

/// A stored bcrypt hash is never the password itself, unless the password
/// is itself a 60-character text beginning `$2b$12$`.
pub proof fn lemma_hash_is_not_the_password(password: Seq<char>, hash: Seq<char>)
    requires
        is_default_cost_hash(hash),
        password.len() != 60 || !has_prefix(password, "$2b$12$"@),
    ensures
        hash != password,
{
}

/// The administration menu opens only for one of the three administrators,
/// and only when bcrypt accepts the password against that administrator's
/// stored hash.
pub proof fn lemma_granted_only_for_admins(creds: AdminCredentials, username: Seq<char>, password: Seq<char>)
    requires
        admin_check_of(creds, username, password) == Ok::<bool, AuthError>(true),
    ensures
        (username == "Abolaji"@ && bcrypt_verdict(password, creds.abolaji_hash@) == Some(true))
            || (username == "Kazeem"@ && bcrypt_verdict(password, creds.kazeem_hash@) == Some(true))
            || (username == "Biola"@ && bcrypt_verdict(password, creds.biola_hash@) == Some(true)),
{
}

/// Nobody but the three administrators can log in, whatever the password.
pub proof fn lemma_unknown_user_refused(creds: AdminCredentials, username: Seq<char>, password: Seq<char>)
    requires
        username != "Abolaji"@,
        username != "Kazeem"@,
        username != "Biola"@,
    ensures
        admin_check_of(creds, username, password) == Ok::<bool, AuthError>(false),
{
}


// ---------------------------------------------------------------------------
// Login attempts

/// Failed administrator logins allowed before the account is locked.
pub const MAX_ATTEMPT: u8 = 3;

/// What the console says after a failed login that did not lock the account.
#[derive(Debug, Clone, Copy, PartialEq, Eq, Structural)]
pub enum AttemptWarning {
    /// "You have 2 more attempts to login"
    TwoAttemptsLeft,
    /// "Last attempt to login"
    LastAttempt,
}

/// The result of one administrator login attempt.
#[derive(Debug, Clone, Copy, PartialEq, Eq, Structural)]
pub enum LoginOutcome {
    /// The credentials were right: the administration menu opens.
    Granted,
    /// The credentials were wrong; the administrator may try again.
    Denied(AttemptWarning),
    /// The credentials were wrong for the last allowed time: the account is
    /// locked and the console ends.
    Locked,
}

/// The failed-attempt counter of an administrator session. It survives a
/// successful login: a later return to the administration interface goes on
/// with the attempts that are left.
pub struct AdminLogin {
    failed: u8,
}

impl View for AdminLogin {
    type V = nat;

    /// The number of failed attempts so far.
    closed spec fn view(&self) -> nat {
        self.failed as nat
    }
}

/// The outcome of a failed attempt that brings the count of failures to `n`.
pub open spec fn outcome_after_failures(n: nat) -> LoginOutcome {
    if n >= MAX_ATTEMPT {
        LoginOutcome::Locked
    } else if n == 1 {
        LoginOutcome::Denied(AttemptWarning::TwoAttemptsLeft)
    } else {
        LoginOutcome::Denied(AttemptWarning::LastAttempt)
    }
}

impl AdminLogin {
    #[verifier::type_invariant]
    spec fn within_limit(self) -> bool {
        self.failed <= MAX_ATTEMPT
    }

    /// A session with no failed attempt.
    pub fn new() -> (r: AdminLogin)
        ensures
            r@ == 0,
    {
        AdminLogin { failed: 0 }
    }

    /// The number of failed attempts so far; it never exceeds the limit.
    pub fn failed_attempts(&self) -> (r: u8)
        ensures
            r == self@,
            r <= MAX_ATTEMPT,
    {
        proof {
            use_type_invariant(self);
        }
        self.failed
    }

    /// Whether another attempt may be made (the account is not locked).
    pub fn can_attempt(&self) -> (r: bool)
        ensures
            r == (self@ < MAX_ATTEMPT),
    {
        self.failed < MAX_ATTEMPT
    }

    /// Records the result of one attempt: a success leaves the count as it
    /// is, a failure adds one and warns or locks.
    pub fn record_attempt(&mut self, credentials_valid: bool) -> (r: LoginOutcome)
        requires
            old(self)@ < MAX_ATTEMPT,
        ensures
            credentials_valid ==> r == LoginOutcome::Granted && final(self)@ == old(self)@,
            !credentials_valid ==> final(self)@ == old(self)@ + 1 && r == outcome_after_failures(
                final(self)@,
            ),
    {
        if credentials_valid {
            LoginOutcome::Granted
        } else {
            self.failed = self.failed + 1;
            if self.failed >= MAX_ATTEMPT {
                LoginOutcome::Locked
            } else if self.failed == 1 {
                LoginOutcome::Denied(AttemptWarning::TwoAttemptsLeft)
            } else {
                LoginOutcome::Denied(AttemptWarning::LastAttempt)
            }
        }
    }

    /// One administrator login attempt: checks the credentials and records
    /// the result. When the stored hash cannot be checked, nothing is
    /// recorded and the error is returned.
    pub fn attempt_login(&mut self, creds: &AdminCredentials, username: &str, password: &str) -> (r: Result<LoginOutcome, AuthError>)
        requires
            old(self)@ < MAX_ATTEMPT,
        ensures
            match admin_check_of(*creds, username@, password@) {
                Ok(true) => r == Ok::<LoginOutcome, AuthError>(LoginOutcome::Granted) && final(self)@ == old(self)@,
                Ok(false) => final(self)@ == old(self)@ + 1 && r == Ok::<LoginOutcome, AuthError>(outcome_after_failures(final(self)@)),
                Err(e) => r == Err::<LoginOutcome, AuthError>(e) && final(self)@ == old(self)@,
            },
    {
        match check_admin_credentials(creds, username, password) {
            Ok(valid) => Ok(self.record_attempt(valid)),
            Err(e) => Err(e),
        }
    }
}

/// A failed attempt locks the account exactly when it is the last one
/// allowed; otherwise the administrator is warned and may try again.
pub proof fn lemma_lock_on_last_failure(n: nat)
    requires
        1 <= n <= MAX_ATTEMPT,
    ensures
        (outcome_after_failures(n) == LoginOutcome::Locked) <==> n == MAX_ATTEMPT,
{
}

// ---------------------------------------------------------------------------
// Passengers

/// A passenger account as stored: trimmed name and e-mail and the bcrypt
/// hash of the password.
pub struct PassengerRegistration {
    pub name: String,
    pub email: String,
    pub password_hash: String,
}

/// Prepares a passenger account from the answers to the registration
/// prompts.
pub fn register_passenger(name: &str, email: &str, password: &str) -> (r: Result<PassengerRegistration, AuthError>)
    ensures
        r matches Ok(reg) ==> {
            &&& reg.name@ == trimmed(name@)
            &&& reg.email@ == trimmed(email@)
            &&& is_default_cost_hash(reg.password_hash@)
            &&& bcrypt_verdict(password@, reg.password_hash@) == Some(true)
            &&& (password@.len() != 60 || !has_prefix(password@, "$2b$12$"@))
                ==> reg.password_hash@ != password@
        },
        r matches Err(e) ==> e == AuthError::HashingFailed,
{
    let password_hash = hash_password(password)?;
    Ok(PassengerRegistration { name: trim(name), email: trim(email), password_hash })
}

/// The result of a passenger's login.
#[derive(Debug, Clone, Copy, PartialEq, Eq, Structural)]
pub enum PassengerLogin {
    /// "Login successful! Welcome back."
    Success,
    /// "Incorrect password. Please try again."
    IncorrectPassword,
    /// "No account found with this email. Please register first."
    NoAccount,
}

pub open spec fn passenger_login_of(stored_hash: Option<Seq<char>>, password: Seq<char>) -> Result<PassengerLogin, AuthError> {
    match stored_hash {
        None => Ok(PassengerLogin::NoAccount),
        Some(h) => match verification_of(password, h) {
            Ok(true) => Ok(PassengerLogin::Success),
            Ok(false) => Ok(PassengerLogin::IncorrectPassword),
            Err(e) => Err(e),
        },
    }
}

/// Decides a passenger login from the password hash stored for the e-mail
/// (`None` when no account has that e-mail) and the password entered.
pub fn passenger_login(stored_hash: Option<&str>, password: &str) -> (r: Result<PassengerLogin, AuthError>)
    ensures
        r == passenger_login_of(
            match stored_hash {
                Some(h) => Some(h@),
                None => None,
            },
            password@,
        ),
{
    match stored_hash {
        None => Ok(PassengerLogin::NoAccount),
        Some(h) => match verify_password(password, h) {
            Ok(true) => Ok(PassengerLogin::Success),
            Ok(false) => Ok(PassengerLogin::IncorrectPassword),
            Err(e) => Err(e),
        },
    }
}

/// A passenger who registered with a password logs in with that password.
pub proof fn lemma_registered_passenger_logs_in(reg: PassengerRegistration, password: Seq<char>)
    requires
        bcrypt_verdict(password, reg.password_hash@) == Some(true),
    ensures
        passenger_login_of(Some(reg.password_hash@), password) == Ok::<PassengerLogin, AuthError>(
            PassengerLogin::Success,
        ),
{
}

} // verus!
