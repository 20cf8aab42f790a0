//! Accounts, pending sign-ups, and the records that update them.
use vstd::prelude::*;
use vstd::string::*;

use crate::common::{CLOCK_MAX_MILLIS, get_code, is_lower_alphanumeric, is_uuid_v4_text, new_document_id, now_millis, ACCOUNTS, SIGNUPS};
use crate::entity::{Entity, EntityUpdate};
use crate::password::{hash_password, spec_bcrypt_verify};

verus! {

#[derive(Debug, Clone, Copy, PartialEq, Eq, Structural)]
pub enum Role {
    Admin,
    User,
}

#[derive(Debug, Clone, Copy, PartialEq, Eq, Structural)]
pub enum AccountType {
    Member,
    SilverMember,
    GoldMember,
    PlatinumMember,
}

impl AccountType {
    /// The account type of a stored account that records none.
    pub fn member() -> (r: Self)
        ensures
            r == AccountType::Member,
    {
        AccountType::Member
    }
}

#[derive(Debug, Clone, Copy, PartialEq, Eq, Structural)]
pub enum SomeType {
    TypeA,
    TypeB,
    TypeC,
}

/// A stored account.
#[derive(Debug)]
pub struct Account {
    pub _id: String,
    pub _rev: String,
    pub mobile_no: String,
    pub role: Role,
    pub password: String,
    pub reset_token: Option<String>,
    pub entity_type: String,
    pub account_type: AccountType,
}

impl Account {
    /// A copy of the account, field for field.
    pub fn duplicate(&self) -> (r: Account)
        ensures
            r == *self,
    {
        Account {
            _id: self._id.clone(),
            _rev: self._rev.clone(),
            mobile_no: self.mobile_no.clone(),
            role: self.role,
            password: self.password.clone(),
            reset_token: match &self.reset_token {
                Some(t) => Some(t.clone()),
                None => None,
            },
            entity_type: self.entity_type.clone(),
            account_type: self.account_type,
        }
    }
}

/// A mobile number and a password.
#[derive(Debug)]
pub struct Credentials {
    pub mobile_no: String,
    pub password: String,
}

/// The id of a pending sign-up and the activation code sent for it.
#[derive(Debug)]
pub struct SignupResult {
    pub id: String,
    pub code: String,
}

/// The number a reset code was sent to, and the code.
#[derive(Debug)]
pub struct ForgotPassResult {
    pub mobile_no: String,
    pub code: String,
}

/// A logged-in account, its access token and the token's lifetime.
#[derive(Debug)]
pub struct LoginResult {
    pub account: Account,
    pub access_token: String,
    pub ttl_ms: i64,
}

/// A sign-up waiting for its activation code.
#[derive(Debug)]
pub struct SignUp {
    pub credentials: Credentials,
    pub activation_code: String,
    pub last_sent_on: i64,
    pub entity_type: String,
    pub _id: String,
    pub _rev: String,
}

impl SignUp {
    /// The sign-up for `cred` with activation code `code`, sent at `now`,
    /// stored under `id`.
    pub fn pending(cred: Credentials, code: String, now: i64, id: String) -> (r: SignUp)
        ensures
            r.credentials == cred,
            r.activation_code == code,
            r.last_sent_on == now,
            r.entity_type@ == SIGNUPS@,
            r._id == id,
            r._rev@ == Seq::<char>::empty(),
    {
        SignUp {
            credentials: cred,
            activation_code: code,
            last_sent_on: now,
            entity_type: String::from_str(SIGNUPS),
            _id: id,
            _rev: String::new(),
        }
    }

    /// A new sign-up for `cred`: a fresh five-character activation code, the
    /// current time as the time it was sent, and a fresh id.
    pub fn from_credentials(cred: Credentials) -> (r: SignUp)
        ensures
            r.credentials == cred,
            r.activation_code@.len() == 5,
            forall|i: int|
                0 <= i < r.activation_code@.len() ==> is_lower_alphanumeric(
                    #[trigger] r.activation_code@[i],
                ),
            0 <= r.last_sent_on <= CLOCK_MAX_MILLIS,
            r.entity_type@ == SIGNUPS@,
            is_uuid_v4_text(r._id@),
            r._rev@ == Seq::<char>::empty(),
    {
        let code = get_code(5);
        let now = now_millis();
        let id = new_document_id();
        SignUp::pending(cred, code, now, id)
    }
}

/// `r` is the account that the verified sign-up `na` becomes: the sign-up's
/// number, a bcrypt hash of its password, role `User`, type `Member`, no
/// reset token, the `accounts` entity type, a fresh id and no revision.
pub open spec fn is_account_of_signup(na: SignUp, r: Account) -> bool {
    &&& r.mobile_no == na.credentials.mobile_no
    &&& spec_bcrypt_verify(na.credentials.password@, r.password@) == Some(true)
    &&& r.password@.len() == 60
    &&& r.role == Role::User
    &&& r.reset_token is None
    &&& r.entity_type@ == ACCOUNTS@
    &&& r.account_type == AccountType::Member
    &&& is_uuid_v4_text(r._id@)
    &&& r._rev@ == Seq::<char>::empty()
}

impl Account {
    /// The account that a verified sign-up becomes: the sign-up's number, its
    /// password hashed, role `User`, type `Member`, no reset token, a fresh
    /// id.
    pub fn from_signup(na: SignUp) -> (r: Account)
        ensures
            is_account_of_signup(na, r),
    {
        let hashed_pwd = hash_password(na.credentials.password.as_str());
        Account {
            mobile_no: na.credentials.mobile_no,
            password: hashed_pwd,
            _id: new_document_id(),
            _rev: String::new(),
            reset_token: None,
            role: Role::User,
            entity_type: String::from_str(ACCOUNTS),
            account_type: AccountType::Member,
        }
    }
}

impl Entity for Account {
    open spec fn entity_type_of(&self) -> Seq<char> {
        self.entity_type@
    }

    open spec fn agrees_apart_from_entity_type(&self, other: &Self) -> bool {
        &&& self._id == other._id
        &&& self._rev == other._rev
        &&& self.mobile_no == other.mobile_no
        &&& self.role == other.role
        &&& self.password == other.password
        &&& self.reset_token == other.reset_token
        &&& self.account_type == other.account_type
    }

    fn get_entity_type(&self) -> (r: String) {
        self.entity_type.clone()
    }

    fn set_entity_type(&mut self, entity_type: &str) {
        self.entity_type = String::from_str(entity_type);
    }
}

impl Entity for SignUp {
    open spec fn entity_type_of(&self) -> Seq<char> {
        self.entity_type@
    }

    open spec fn agrees_apart_from_entity_type(&self, other: &Self) -> bool {
        &&& self.credentials == other.credentials
        &&& self.activation_code == other.activation_code
        &&& self.last_sent_on == other.last_sent_on
        &&& self._id == other._id
        &&& self._rev == other._rev
    }

    fn get_entity_type(&self) -> (r: String) {
        self.entity_type.clone()
    }

    fn set_entity_type(&mut self, entity_type: &str) {
        self.entity_type = String::from_str(entity_type);
    }
}

/// An update of a pending sign-up. Only the activation code is applied; the
/// time it was sent is carried but not written.
#[derive(Debug)]
pub struct SignUpUpdate {
    pub activation_code: Option<String>,
    pub last_sent_on: Option<i64>,
}

impl EntityUpdate<SignUp> for SignUpUpdate {
    open spec fn applied(&self, before: SignUp, after: SignUp) -> bool {
        &&& after.credentials == before.credentials
        &&& after.last_sent_on == before.last_sent_on
        &&& after.entity_type == before.entity_type
        &&& after._id == before._id
        &&& after._rev == before._rev
        &&& after.activation_code == match self.activation_code {
            Some(code) => code,
            None => before.activation_code,
        }
    }

    fn apply_update<'c>(&self, stale: &'c mut SignUp) -> (r: &'c mut SignUp) {
        if let Some(code) = &self.activation_code {
            stale.activation_code = code.clone();
        }
        stale
    }
}

/// A request to change a password, given the old one.
#[derive(Debug)]
pub struct ModifyPassword {
    pub account_id: String,
    pub newpassword: String,
    pub oldpassword: String,
}

impl ModifyPassword {
    /// The request as made by the logged-in account `caller`: whatever
    /// account id it named, it changes the caller's own password.
    pub fn for_caller(self, caller: String) -> (r: ModifyPassword)
        ensures
            r.account_id == caller,
            r.newpassword == self.newpassword,
            r.oldpassword == self.oldpassword,
    {
        ModifyPassword { account_id: caller, ..self }
    }
}

/// A request to set a new password with a reset token.
#[derive(Debug)]
pub struct ResetPassword {
    pub reset_token: String,
    pub newpassword: String,
}

/// An update of an account: a new password (stored hashed), a new role, a
/// new reset token; each only when given.
#[derive(Debug)]
pub struct AccountUpdate {
    pub password: Option<String>,
    pub role: Option<Role>,
    pub reset_token: Option<String>,
}

impl EntityUpdate<Account> for AccountUpdate {
    open spec fn applied(&self, before: Account, after: Account) -> bool {
        &&& after._id == before._id
        &&& after._rev == before._rev
        &&& after.mobile_no == before.mobile_no
        &&& after.entity_type == before.entity_type
        &&& after.account_type == before.account_type
        &&& match self.password {
            Some(p) => spec_bcrypt_verify(p@, after.password@) == Some(true) && after.password@.len()
                == 60,
            None => after.password == before.password,
        }
        &&& after.role == match self.role {
            Some(role) => role,
            None => before.role,
        }
        &&& after.reset_token == match self.reset_token {
            Some(token) => Some(token),
            None => before.reset_token,
        }
    }

    fn apply_update<'c>(&self, stale: &'c mut Account) -> (r: &'c mut Account) {
        if let Some(password) = &self.password {
            let hashed_pwd = hash_password(password.as_str());
            stale.password = hashed_pwd;
        }
        if let Some(role) = &self.role {
            stale.role = *role;
        }
        if let Some(token) = &self.reset_token {
            stale.reset_token = Some(token.clone());
        }
        stale
    }
}

impl Default for AccountUpdate {
    fn default() -> (r: Self)
        ensures
            r.password is None,
            r.role is None,
            r.reset_token is None,
    {
        Self { password: None, role: None, reset_token: None }
    }
}

/// Sending a sign-up update twice has the effect of sending it once.
pub proof fn lemma_signup_update_idempotent(u: SignUpUpdate, a: SignUp, b: SignUp, c: SignUp)
    requires
        u.applied(a, b),
        u.applied(b, c),
    ensures
        c == b,
{
}

/// An account update that sets no password has the same effect whether it
/// is applied once or twice. (A password is hashed under a fresh salt each
/// time, so its stored text differs between applications.)
pub proof fn lemma_account_update_idempotent(u: AccountUpdate, a: Account, b: Account, c: Account)
    requires
        u.password is None,
        u.applied(a, b),
        u.applied(b, c),
    ensures
        c == b,
{
}

/// The empty account update changes nothing.
pub proof fn lemma_empty_account_update(u: AccountUpdate, a: Account, b: Account)
    requires
        u.password is None,
        u.role is None,
        u.reset_token is None,
        u.applied(a, b),
    ensures
        b == a,
{
}

/// Each field of an account update is applied on its own: a given reset
/// token is stored whatever the update says of the password, a given role is
/// taken, a given password is the one the stored hash accepts; a field the
/// update leaves out stays as it was.
pub proof fn lemma_account_update_writes_given_fields(u: AccountUpdate, before: Account, after: Account)
    requires
        u.applied(before, after),
    ensures
        u.reset_token matches Some(t) ==> after.reset_token == Some(t),
        u.reset_token is None ==> after.reset_token == before.reset_token,
        u.role matches Some(r) ==> after.role == r,
        u.role is None ==> after.role == before.role,
        u.password matches Some(p) ==> spec_bcrypt_verify(p@, after.password@) == Some(true),
        u.password is None ==> after.password == before.password,
        after._id == before._id && after.mobile_no == before.mobile_no,
{
}

} // verus!
