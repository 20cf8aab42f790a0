use backend::account::{
    Account, AccountType, AccountUpdate, Credentials, ModifyPassword, Role, SignUp, SignUpUpdate,
};
use backend::account_service::{
    account_service_factory, check_activation, ensure_no_account, login_with, plan_forgot_password,
    plan_modify_password, plan_reset_password, plan_resend, plan_resend_at, signup_code_selector, ONE_WEEK,
};
use backend::common::{gen_hash, get_code};
use backend::entity::{Entity, EntityUpdate};
use backend::errors::AuthError;
use backend::json::JsonValue;

fn cred(mobile: &str, password: &str) -> Credentials {
    Credentials { mobile_no: mobile.to_string(), password: password.to_string() }
}

fn account_with_password(password: &str) -> Account {
    Account {
        _id: "acc-1".to_string(),
        _rev: "".to_string(),
        mobile_no: "9861152662".to_string(),
        role: Role::User,
        password: bcrypt::hash(password, 4).unwrap(),
        reset_token: None,
        entity_type: "accounts".to_string(),
        account_type: AccountType::Member,
    }
}

fn pending(last_sent_on: i64) -> SignUp {
    SignUp::pending(cred("9861152662", "somepassword"), "abcde".to_string(), last_sent_on, "s-1".to_string())
}

#[test]
fn codes_are_lowercase_alphanumeric() {
    for n in [0u8, 1, 5, 16, 40] {
        let c = get_code(n);
        assert_eq!(c.chars().count(), n as usize);
        assert!(c.chars().all(|ch| ch.is_ascii_lowercase() || ch.is_ascii_digit()));
    }
    gen_hash("some value".to_string());
}

#[test]
fn signup_from_credentials() {
    let s = SignUp::from_credentials(cred("9861152662", "somepassword"));
    assert_eq!(s.credentials.mobile_no, "9861152662");
    assert_eq!(s.activation_code.len(), 5);
    assert_eq!(s.entity_type, "signups");
    assert_eq!(s._id.len(), 36);
    let c: Vec<char> = s._id.chars().collect();
    assert_eq!((c[8], c[13], c[14], c[18], c[23]), ('-', '-', '4', '-', '-'));
    assert!("89ab".contains(c[19]));
    assert_eq!(s._id, s._id.to_lowercase());
    assert_eq!(s._rev, "");
    assert!(s.last_sent_on > 1_600_000_000_000);
}

#[test]
fn account_from_signup_hashes_password() {
    let acc = Account::from_signup(pending(0));
    assert_eq!(acc.mobile_no, "9861152662");
    assert_ne!(acc.password, "somepassword");
    assert_eq!(acc.password.len(), 60);
    assert!(bcrypt::verify("somepassword", &acc.password).unwrap());
    assert_eq!(acc.role, Role::User);
    assert_eq!(acc.account_type, AccountType::Member);
    assert_eq!(acc.entity_type, "accounts");
    assert!(acc.reset_token.is_none());
    assert_eq!(AccountType::member(), AccountType::Member);
}

#[test]
fn signup_update_only_writes_code() {
    let mut s = pending(7);
    let u = SignUpUpdate { activation_code: Some("zzzzz".to_string()), last_sent_on: Some(99) };
    u.apply_update(&mut s);
    assert_eq!(s.activation_code, "zzzzz");
    assert_eq!(s.last_sent_on, 7);
    let none = SignUpUpdate { activation_code: None, last_sent_on: None };
    none.apply_update(&mut s);
    assert_eq!(s.activation_code, "zzzzz");
}

#[test]
fn account_update_applies_given_fields() {
    let mut acc = account_with_password("old");
    let u = AccountUpdate { password: Some("new".to_string()), role: Some(Role::Admin), reset_token: Some("tok".to_string()) };
    u.apply_update(&mut acc);
    assert!(bcrypt::verify("new", &acc.password).unwrap());
    assert_eq!(acc.role, Role::Admin);
    assert_eq!(acc.reset_token.as_deref(), Some("tok"));
    let before = acc.password.clone();
    AccountUpdate::default().apply_update(&mut acc);
    assert_eq!(acc.password, before);
    assert_eq!(acc.role, Role::Admin);
    acc.set_entity_type("archive");
    assert_eq!(acc.get_entity_type(), "archive");
}

#[test]
fn login_decisions() {
    let ok = login_with(Some(account_with_password("pw")), cred("9861152662", "pw")).unwrap();
    assert_eq!(ok.ttl_ms, ONE_WEEK);
    assert_eq!(ok.account._id, "acc-1");
    assert_eq!(ok.access_token.split('.').count(), 3);
    match login_with(Some(account_with_password("pw")), cred("9861152662", "other")) {
        Err(AuthError::InvalidLogin(m)) => assert_eq!(m, "Password mismatch"),
        _ => panic!("expected a mismatch"),
    }
    match login_with(None, cred("9861152662", "pw")) {
        Err(AuthError::InvalidLogin(m)) => assert_eq!(m, "User Not Found"),
        _ => panic!("expected not found"),
    }
    let mut broken = account_with_password("pw");
    broken.password = "not a hash".to_string();
    match login_with(Some(broken), cred("9861152662", "pw")) {
        Err(AuthError::InvalidLogin(m)) => assert_eq!(m, "something went wrong"),
        _ => panic!("expected an error"),
    }
}

#[test]
fn verified_signup_can_log_in() {
    let acc = check_activation(Some(pending(0)), "abcde").unwrap();
    assert!(login_with(Some(acc), cred("9861152662", "somepassword")).is_ok());
    match check_activation(Some(pending(0)), "abcdf") {
        Err(AuthError::InvalidLogin(m)) => assert_eq!(m, "Code Mismatch"),
        _ => panic!("expected a mismatch"),
    }
    assert!(matches!(check_activation(None, "abcde"), Err(AuthError::InvalidLogin(_))));
    assert!(ensure_no_account(None).is_ok());
    assert!(matches!(ensure_no_account(Some(account_with_password("x"))), Err(AuthError::AccountExists(_))));
}

#[test]
fn resend_is_throttled_for_five_minutes() {
    let now = 1_700_000_000_000i64;
    match plan_resend_at(Some(pending(now - 300_000)), now) {
        Err(AuthError::RsendCodeTooSoon(m)) => assert_eq!(m, "Try agin later"),
        _ => panic!("expected throttling"),
    }
    let plan = plan_resend_at(Some(pending(now - 300_001)), now).ok().unwrap();
    assert_eq!(plan.mobile_no, "9861152662");
    assert_eq!(plan.code.len(), 5);
    assert_eq!(plan.update.last_sent_on, Some(now));
    assert_eq!(plan.update.activation_code.as_deref(), Some(plan.code.as_str()));
    match plan_resend_at(None, now) {
        Err(AuthError::AccountNotFound(m)) => assert_eq!(m, "Signup Not Found"),
        _ => panic!("expected not found"),
    }
    let plan = plan_resend(Some(pending(0))).ok().unwrap();
    assert_eq!(plan.mobile_no, "9861152662");
    assert!(plan.update.last_sent_on.unwrap() > 1_600_000_000_000);
    assert_eq!(plan.update.activation_code.as_deref(), Some(plan.code.as_str()));
    assert!(matches!(plan_resend(Some(pending(i64::MAX))), Err(AuthError::RsendCodeTooSoon(_))));
    match plan_resend(None) {
        Err(AuthError::AccountNotFound(m)) => assert_eq!(m, "Signup Not Found"),
        _ => panic!("expected not found"),
    }
}

#[test]
fn password_reset_and_change() {
    let (id, u) = plan_reset_password(Some(account_with_password("a")), "b".to_string()).ok().unwrap();
    assert_eq!(id, "acc-1");
    assert_eq!(u.password.as_deref(), Some("b"));
    assert!(u.role.is_none() && u.reset_token.is_none());
    match plan_reset_password(None, "b".to_string()) {
        Err(AuthError::AccountNotFound(m)) => assert_eq!(m, "account does not exist"),
        _ => panic!("expected not found"),
    }
    let acc = account_with_password("old");
    let change = ModifyPassword { account_id: "acc-1".to_string(), newpassword: "new".to_string(), oldpassword: "old".to_string() };
    let (id, u) = plan_modify_password(&acc, change).ok().unwrap();
    assert_eq!(id, "acc-1");
    assert_eq!(u.password.as_deref(), Some("new"));
    let wrong = ModifyPassword { account_id: "acc-1".to_string(), newpassword: "new".to_string(), oldpassword: "bad".to_string() };
    match plan_modify_password(&acc, wrong) {
        Err(AuthError::InvalidLogin(m)) => assert_eq!(m, "Not Found"),
        _ => panic!("expected a mismatch"),
    }
    let mut broken = account_with_password("old");
    broken.password = "$2b$xx$broken".to_string();
    let change = ModifyPassword { account_id: "acc-1".to_string(), newpassword: "new".to_string(), oldpassword: "old".to_string() };
    match plan_modify_password(&broken, change) {
        Err(AuthError::InvalidLogin(m)) => assert_eq!(m, "Invalid Credentials"),
        _ => panic!("expected invalid credentials"),
    }
}

#[test]
fn forgot_password_plan() {
    let plan = plan_forgot_password("9861152662".to_string());
    assert_eq!(plan.result.mobile_no, "9861152662");
    assert_eq!(plan.result.code.len(), 16);
    assert_eq!(plan.update.reset_token.as_deref(), Some(plan.result.code.as_str()));
    assert!(plan.update.password.is_none());
    match plan.selector {
        JsonValue::Object(m) => {
            assert_eq!(m.len(), 1);
            assert_eq!(m[0].0, "mobile_no");
            assert!(matches!(&m[0].1, JsonValue::Str(s) if s == "9861152662"));
        }
        _ => panic!("expected an object"),
    }
}

#[test]
fn service_collections() {
    let svc = account_service_factory();
    assert_eq!(svc.repo().collection(), "accounts");
    assert_eq!(svc.signup_repo().collection(), "signups");
    match signup_code_selector("s-1".to_string(), "abcde".to_string()) {
        JsonValue::Object(m) => {
            assert_eq!(m.len(), 2);
            assert_eq!(m[0].0, "_id");
            assert_eq!(m[1].0, "activation_code");
        }
        _ => panic!("expected an object"),
    }
}

#[test]
fn password_change_is_the_callers() {
    let req = ModifyPassword { account_id: "someone-else".to_string(), newpassword: "n".to_string(), oldpassword: "o".to_string() };
    let mine = req.for_caller("acc-1".to_string());
    assert_eq!(mine.account_id, "acc-1");
    assert_eq!(mine.newpassword, "n");
    assert_eq!(mine.oldpassword, "o");
}
