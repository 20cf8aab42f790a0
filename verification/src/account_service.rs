//! Sign-up, login and password decisions of the account service. Reading and
//! writing the store and sending text messages are left to the caller, which
//! hands each decision what the store returned.
use vstd::prelude::*;
use vstd::string::*;

use crate::account::{
    is_account_of_signup, Account, AccountUpdate, Credentials, ForgotPassResult, LoginResult, ModifyPassword, SignUp,
    SignUpUpdate,
};
use crate::common::{get_code, is_lower_alphanumeric, now_millis, ACCOUNTS, CLOCK_MAX_MILLIS, SIGNUPS};
use crate::errors::AuthError;
use crate::json::{single_member_object, JsonValue};
use crate::jwt_auth::{generate_token, role_name_spec, spec_login_token, TOKEN_SECRET};
use crate::password::{spec_bcrypt_verify, verify_password};
use crate::repository::Repository;

verus! {

/// How long an access token stays valid: one week, in milliseconds.
pub const ONE_WEEK: i64 = 604800000;

/// How long a sign-up must wait before its code is sent again, in
/// milliseconds.
pub const RESEND_INTERVAL: i64 = 300000;

pub const SIGNUP_NOT_FOUND: &'static str = "Signup Not Found";
pub const TRY_AGAIN_LATER: &'static str = "Try agin later";
pub const CODE_MISMATCH: &'static str = "Code Mismatch";
pub const PASSWORD_MISMATCH: &'static str = "Password mismatch";
pub const SOMETHING_WENT_WRONG: &'static str = "something went wrong";
pub const USER_NOT_FOUND: &'static str = "User Not Found";
pub const ACCOUNT_DOES_NOT_EXIST: &'static str = "account does not exist";
pub const ACCOUNT_EXISTS: &'static str = "account exists";
pub const NOT_FOUND: &'static str = "Not Found";

/// The repositories of accounts and of pending sign-ups.
#[derive(Debug)]
pub struct AccountService {
    pub repo: Repository<Account, AccountUpdate>,
    pub signup_repo: Repository<SignUp, SignUpUpdate>,
}

impl AccountService {
    pub fn new(repo: Repository<Account, AccountUpdate>) -> (r: Self)
        ensures
            r.repo == repo,
            r.signup_repo.collection@ == SIGNUPS@,
    {
        AccountService { repo, signup_repo: Repository::new(String::from_str(SIGNUPS)) }
    }

    pub fn repo(&self) -> (r: &Repository<Account, AccountUpdate>)
        ensures
            r == &self.repo,
    {
        &self.repo
    }

    pub fn signup_repo(&self) -> (r: &Repository<SignUp, SignUpUpdate>)
        ensures
            r == &self.signup_repo,
    {
        &self.signup_repo
    }
}

/// The account service over the `accounts` and `signups` collections.
pub fn account_service_factory() -> (r: AccountService)
    ensures
        r.repo.collection@ == ACCOUNTS@,
        r.signup_repo.collection@ == SIGNUPS@,
{
    AccountService::new(Repository::new(String::from_str(ACCOUNTS)))
}

/// `v` is the object with the single member `key` whose value is the string
/// `value`.
pub open spec fn is_single_string_selector(v: JsonValue, key: Seq<char>, value: Seq<char>) -> bool {
    &&& v matches JsonValue::Object(m)
    &&& m@.len() == 1
    &&& m@[0].0@ == key
    &&& m@[0].1 matches JsonValue::Str(s)
    &&& s@ == value
}

/// The object with the single member `key` set to the string `value`.
pub fn string_selector(key: &str, value: String) -> (r: JsonValue)
    ensures
        is_single_string_selector(r, key@, value@),
{
    single_member_object(String::from_str(key), JsonValue::Str(value))
}

/// The selector of the accounts registered with `mobile_no`.
pub fn mobile_no_selector(mobile_no: String) -> (r: JsonValue)
    ensures
        is_single_string_selector(r, "mobile_no"@, mobile_no@),
{
    string_selector("mobile_no", mobile_no)
}

/// The selector of the accounts holding `reset_token`.
pub fn reset_token_selector(reset_token: String) -> (r: JsonValue)
    ensures
        is_single_string_selector(r, "reset_token"@, reset_token@),
{
    string_selector("reset_token", reset_token)
}

/// The selector of the sign-up `id` with activation code `code`:
/// `{"_id": id, "activation_code": code}`.
pub fn signup_code_selector(id: String, code: String) -> (r: JsonValue)
    ensures
        r matches JsonValue::Object(m) && m@.len() == 2 && m@[0].0@ == "_id"@ && (m@[0].1 matches JsonValue::Str(
            i,
        ) && i@ == id@) && m@[1].0@ == "activation_code"@ && (m@[1].1 matches JsonValue::Str(c) && c@
            == code@),
{
    let mut members: Vec<(String, JsonValue)> = Vec::new();
    members.push((String::from_str("_id"), JsonValue::Str(id)));
    members.push((String::from_str("activation_code"), JsonValue::Str(code)));
    JsonValue::Object(members)
}

/// A login succeeds exactly when the account exists and the password
/// matches its stored hash.
pub open spec fn login_accepts(found: Option<Account>, password: Seq<char>) -> bool {
    found matches Some(acc) && spec_bcrypt_verify(password, acc.password@) == Some(true)
}

/// `r` is a login result for `acc`: the account itself, a week-long token
/// for it issued at some instant the clock can report, and the token's
/// lifetime.
pub open spec fn is_login_result_for(r: LoginResult, acc: Account) -> bool {
    &&& r.account == acc
    &&& r.ttl_ms == ONE_WEEK
    &&& exists|now: i64|
        0 <= now <= CLOCK_MAX_MILLIS && r.access_token@ == #[trigger] spec_login_token(
            now as int,
            now + ONE_WEEK,
            acc._id@,
            role_name_spec(acc.role),
            TOKEN_SECRET.spec_bytes(),
        )
}

/// The result of logging in `acc`: the account, a token valid for a week,
/// and the week's length.
pub fn login_result(acc: Account) -> (r: LoginResult)
    ensures
        is_login_result_for(r, acc),
{
    let token = generate_token(acc.duplicate(), ONE_WEEK);
    LoginResult { access_token: token, ttl_ms: ONE_WEEK, account: acc }
}

/// Logs in with `cred`, given the account found under its mobile number.
pub fn login_with(found: Option<Account>, cred: Credentials) -> (r: Result<LoginResult, AuthError>)
    ensures
        r is Ok <==> login_accepts(found, cred.password@),
        match r {
            Ok(res) => found matches Some(acc) && is_login_result_for(res, acc),
            Err(e) => e is InvalidLogin && e.msg() == match found {
                None => USER_NOT_FOUND@,
                Some(acc) => if spec_bcrypt_verify(cred.password@, acc.password@) == Some(false) {
                    PASSWORD_MISMATCH@
                } else {
                    SOMETHING_WENT_WRONG@
                },
            },
        },
{
    match found {
        Some(acc) => {
            match verify_password(cred.password.as_str(), acc.password.as_str()) {
                Ok(val) => {
                    if val == true {
                        Ok(login_result(acc))
                    } else {
                        Err(AuthError::InvalidLogin(String::from_str(PASSWORD_MISMATCH)))
                    }
                },
                Err(_e) => Err(AuthError::InvalidLogin(String::from_str(SOMETHING_WENT_WRONG))),
            }
        },
        None => Err(AuthError::InvalidLogin(String::from_str(USER_NOT_FOUND))),
    }
}

/// The code of a pending sign-up matches exactly when it equals the one
/// given.
pub open spec fn activation_matches(found: Option<SignUp>, code: Seq<char>) -> bool {
    found matches Some(si) && si.activation_code@ == code
}

/// Checks the activation code of the sign-up found for it; when it matches,
/// the account the sign-up becomes.
pub fn check_activation(found: Option<SignUp>, code: &str) -> (r: Result<Account, AuthError>)
    ensures
        r is Ok <==> activation_matches(found, code@),
        match r {
            Ok(acc) => found matches Some(si) && is_account_of_signup(si, acc),
            Err(e) => e is InvalidLogin && e.msg() == CODE_MISMATCH@,
        },
{
    let wanted = String::from_str(code);
    match found {
        Some(si) => {
            if si.activation_code == wanted {
                Ok(Account::from_signup(si))
            } else {
                Err(AuthError::InvalidLogin(String::from_str(CODE_MISMATCH)))
            }
        },
        None => Err(AuthError::InvalidLogin(String::from_str(CODE_MISMATCH))),
    }
}

/// A new account may be created only when none exists under its number.
pub fn ensure_no_account(existing: Option<Account>) -> (r: Result<(), AuthError>)
    ensures
        r is Ok <==> existing is None,
        r matches Err(e) ==> e is AccountExists && e.msg() == ACCOUNT_EXISTS@,
{
    match existing {
        Some(_ac) => Err(AuthError::AccountExists(String::from_str(ACCOUNT_EXISTS))),
        None => Ok(()),
    }
}

/// What to do to send a sign-up's code again: the update to store, the
/// number to text, and the new code.
#[derive(Debug)]
pub struct ResendPlan {
    pub update: SignUpUpdate,
    pub mobile_no: String,
    pub code: String,
}

/// The code may be sent again once more than `RESEND_INTERVAL` has passed
/// since it was last sent.
pub open spec fn may_resend(last_sent_on: i64, now: i64) -> bool {
    now - last_sent_on > RESEND_INTERVAL
}

/// What resending the code of the sign-up `s` at time `now` gives: a plan
/// that records `now` as the sending time and a fresh five-character code,
/// to be texted to the sign-up's number, once more than `RESEND_INTERVAL`
/// has passed since the last sending; before that, the answer to try again
/// later.
pub open spec fn resend_outcome(s: SignUp, now: i64, r: Result<ResendPlan, AuthError>) -> bool {
    if may_resend(s.last_sent_on, now) {
        r matches Ok(plan) && plan.update.last_sent_on == Some(now) && plan.update.activation_code
            == Some(plan.code) && plan.mobile_no == s.credentials.mobile_no && plan.code@.len() == 5
            && (forall|i: int|
            0 <= i < plan.code@.len() ==> is_lower_alphanumeric(#[trigger] plan.code@[i]))
    } else {
        r matches Err(e) && e is RsendCodeTooSoon && e.msg() == TRY_AGAIN_LATER@
    }
}

/// Decides, at time `now`, whether the code of the sign-up found for an id
/// is sent again; if so, with a fresh five-character code.
pub fn plan_resend_at(found: Option<SignUp>, now: i64) -> (r: Result<ResendPlan, AuthError>)
    ensures
        match found {
            None => r matches Err(e) && e is AccountNotFound && e.msg() == SIGNUP_NOT_FOUND@,
            Some(s) => resend_outcome(s, now, r),
        },
{
    match found {
        Some(s) => {
            let elapsed: i128 = now as i128 - s.last_sent_on as i128;
            if elapsed > RESEND_INTERVAL as i128 {
                let code = get_code(5);
                let plan_code = code.clone();
                let update = SignUpUpdate { last_sent_on: Some(now), activation_code: Some(code) };
                Ok(ResendPlan { update, mobile_no: s.credentials.mobile_no, code: plan_code })
            } else {
                Err(AuthError::RsendCodeTooSoon(String::from_str(TRY_AGAIN_LATER)))
            }
        },
        None => Err(AuthError::AccountNotFound(String::from_str(SIGNUP_NOT_FOUND))),
    }
}

/// Decides, now, whether the code of the sign-up found for an id is sent
/// again: what `plan_resend_at` gives at the instant the clock reads.
pub fn plan_resend(found: Option<SignUp>) -> (r: Result<ResendPlan, AuthError>)
    ensures
        found is None ==> (r matches Err(e) && e is AccountNotFound && e.msg() == SIGNUP_NOT_FOUND@),
        found matches Some(s) ==> exists|now: i64|
            0 <= now <= CLOCK_MAX_MILLIS && #[trigger] resend_outcome(s, now, r),
{
    let ghost f = found;
    let now = now_millis();
    let r = plan_resend_at(found, now);
    proof {
        if let Some(s) = f {
            assert(resend_outcome(s, now, r));
        }
    }
    r
}

/// The update that sets a new password, and nothing else.
pub fn password_update(newpassword: String) -> (r: AccountUpdate)
    ensures
        r.password == Some(newpassword),
        r.role is None,
        r.reset_token is None,
{
    AccountUpdate { password: Some(newpassword), ..AccountUpdate::default() }
}

/// Resetting a password: the id of the account found for the reset token and
/// the update that sets the new password.
pub fn plan_reset_password(found: Option<Account>, newpassword: String) -> (r: Result<(String, AccountUpdate), AuthError>)
    ensures
        match found {
            None => r matches Err(e) && e is AccountNotFound && e.msg() == ACCOUNT_DOES_NOT_EXIST@,
            Some(ac) => r matches Ok(p) && p.0 == ac._id && p.1.password == Some(newpassword)
                && p.1.role is None && p.1.reset_token is None,
        },
{
    match found {
        Some(ac) => Ok((ac._id, password_update(newpassword))),
        None => Err(AuthError::AccountNotFound(String::from_str(ACCOUNT_DOES_NOT_EXIST))),
    }
}

/// Changing a password: allowed when the old password matches the stored
/// hash of `acc`; then the id to update and the update that sets the new
/// password.
pub fn plan_modify_password(acc: &Account, payload: ModifyPassword) -> (r: Result<(String, AccountUpdate), AuthError>)
    ensures
        match spec_bcrypt_verify(payload.oldpassword@, acc.password@) {
            Some(true) => r matches Ok(p) && p.0 == payload.account_id && p.1.password == Some(
                payload.newpassword,
            ) && p.1.role is None && p.1.reset_token is None,
            Some(false) => r matches Err(e) && e is InvalidLogin && e.msg() == NOT_FOUND@,
            None => r matches Err(e) && e is InvalidLogin && e.msg() == crate::errors::INVALID_CREDENTIALS@,
        },
{
    match verify_password(payload.oldpassword.as_str(), acc.password.as_str()) {
        Ok(matches) => {
            if matches == true {
                Ok((payload.account_id, password_update(payload.newpassword)))
            } else {
                Err(AuthError::InvalidLogin(String::from_str(NOT_FOUND)))
            }
        },
        Err(e) => Err(AuthError::from_bcrypt(e)),
    }
}

/// What a forgotten password sets off: the selector of the accounts under
/// the number, the update that gives them a reset token, and the result to
/// answer with.
#[derive(Debug)]
pub struct ForgotPasswordPlan {
    pub selector: JsonValue,
    pub update: AccountUpdate,
    pub result: ForgotPassResult,
}

/// A forgotten password for `mobile_no`: a fresh sixteen-character reset
/// token for the accounts under that number.
pub fn plan_forgot_password(mobile_no: String) -> (r: ForgotPasswordPlan)
    ensures
        is_single_string_selector(r.selector, "mobile_no"@, mobile_no@),
        r.update.password is None,
        r.update.role is None,
        r.update.reset_token matches Some(t) && t@ == r.result.code@,
        r.result.mobile_no@ == mobile_no@,
        r.result.code@.len() == 16,
        forall|i: int| 0 <= i < r.result.code@.len() ==> is_lower_alphanumeric(#[trigger] r.result.code@[i]),
{
    let code = get_code(16);
    let acc_update = AccountUpdate { reset_token: Some(code.clone()), password: None, role: None };
    let selector = mobile_no_selector(mobile_no.clone());
    ForgotPasswordPlan { selector, update: acc_update, result: ForgotPassResult { mobile_no, code } }
}

/// A password given to an account update is one that logs in afterwards:
/// once the update is applied, logging in to the updated account with that
/// password succeeds.
pub proof fn lemma_updated_password_logs_in(u: AccountUpdate, before: Account, after: Account, p: String)
    requires
        u.password == Some(p),
        crate::entity::EntityUpdate::applied(&u, before, after),
    ensures
        login_accepts(Some(after), p@),
{
}

/// A sign-up's password is one that logs in: the account a sign-up becomes
/// accepts the password the sign-up was made with.
pub proof fn lemma_signup_password_logs_in(si: SignUp, acc: Account)
    requires
        is_account_of_signup(si, acc),
    ensures
        login_accepts(Some(acc), si.credentials.password@),
{
}

/// A forgotten password leaves a way back in: once the update it plans is
/// applied to an account, the account holds the reset token that was texted
/// (the plan's code), and its password is untouched.
pub proof fn lemma_forgot_password_stores_code(plan: ForgotPasswordPlan, before: Account, after: Account)
    requires
        plan.update.reset_token matches Some(t) && t@ == plan.result.code@,
        plan.update.password is None,
        crate::entity::EntityUpdate::applied(&plan.update, before, after),
    ensures
        after.reset_token matches Some(t) && t@ == plan.result.code@,
        after.password == before.password,
        after._id == before._id,
{
}

} // verus!
