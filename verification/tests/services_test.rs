use backend::account::{Account, AccountType, Role};
use backend::apps::App;
use backend::infra::{get_presigned_url, sms_proxy_request, sms_service_request};
use backend::jwt_auth::{bearer_token, generate_token, login_from_claims, login_from_header, role_from_name, token_at, AdminUser, LoginInfo};
use backend::resolvers::{AppId, AppResolver, IResolver, MasterResolver};
use backend::text::{contains, starts_with, trim};
use backend::users::{user_service_factory, Address, Gender, IdentityType, NewUser, User, UserService, UserUpdate};
use backend::api::new_user_for;
use backend::entity::EntityUpdate;

fn account(role: Role) -> Account {
    Account {
        _id: "acc-9".to_string(),
        _rev: "".to_string(),
        mobile_no: "1".to_string(),
        role,
        password: "h".to_string(),
        reset_token: None,
        entity_type: "accounts".to_string(),
        account_type: AccountType::Member,
    }
}

fn claims_of(token: &str) -> serde_json::Value {
    let mut validation = jsonwebtoken::Validation::default();
    validation.validate_exp = false;
    validation.required_spec_claims.clear();
    let data = jsonwebtoken::decode::<serde_json::Value>(
        token,
        &jsonwebtoken::DecodingKey::from_secret("secret".as_bytes()),
        &validation,
    )
    .unwrap();
    data.claims
}

#[test]
fn tokens_carry_the_claims() {
    let t = token_at(account(Role::Admin), 1000, 5000);
    let c = claims_of(&t);
    assert_eq!(c["iat"], 5000);
    assert_eq!(c["exp"], 6000);
    assert_eq!(c["account_id"], "acc-9");
    assert_eq!(c["role"], "Admin");
    let t = generate_token(account(Role::User), 604800000);
    let c = claims_of(&t);
    assert_eq!(c["exp"].as_i64().unwrap() - c["iat"].as_i64().unwrap(), 604800000);
    assert_eq!(c["role"], "User");
}

fn claims_value(exp: i64, role: &str) -> serde_json::Value {
    let mut m = serde_json::Map::new();
    m.insert("iat".to_string(), serde_json::Value::from(1i64));
    m.insert("exp".to_string(), serde_json::Value::from(exp));
    m.insert("account_id".to_string(), serde_json::Value::from("acc-1"));
    m.insert("role".to_string(), serde_json::Value::from(role));
    serde_json::Value::Object(m)
}

fn signed(claims: serde_json::Value, secret: &str) -> String {
    jsonwebtoken::encode(
        &jsonwebtoken::Header::default(),
        &claims,
        &jsonwebtoken::EncodingKey::from_secret(secret.as_bytes()),
    )
    .unwrap()
}

#[test]
fn issued_tokens_log_in() {
    let t = generate_token(account(Role::Admin), 604800000);
    let l = login_from_header(Some(&format!("Bearer {}", t))).unwrap();
    assert_eq!(l.account_id, "acc-9");
    assert_eq!(l.role, Role::Admin);
    assert_eq!(l.exp - l.iat, 604800000);
    let t = generate_token(account(Role::User), 604800000);
    assert_eq!(login_from_header(Some(&format!("Bearer  {} ", t))).unwrap().role, Role::User);
    // issued at 5 s and expired at 6 s after the epoch: refused by the clock
    let old = token_at(account(Role::Admin), 1000, 5000);
    assert!(login_from_header(Some(&format!("Bearer {}", old))).is_none());
    assert!(login_from_header(Some(&t)).is_none());
    assert!(login_from_header(None).is_none());
    assert!(login_from_header(Some("Bearer abc.def.ghi")).is_none());
    let exp = 9_000_000_000_000i64;
    let forged = signed(claims_value(exp, "Admin"), "other");
    assert!(login_from_header(Some(&format!("Bearer {}", forged))).is_none());
    let guest = signed(claims_value(exp, "Guest"), "secret");
    assert!(login_from_header(Some(&format!("Bearer {}", guest))).is_none());
    let good = signed(claims_value(exp, "User"), "secret");
    let l = login_from_header(Some(&format!("Bearer {}", good))).unwrap();
    assert_eq!((l.iat, l.exp, l.account_id.as_str(), l.role), (1, exp, "acc-1", Role::User));
}

#[test]
fn claims_and_role_names() {
    assert_eq!(role_from_name("Admin"), Some(Role::Admin));
    assert_eq!(role_from_name("User"), Some(Role::User));
    assert_eq!(role_from_name("user"), None);
    let l = login_from_claims(Some((1, 2, "a".to_string(), "Admin".to_string()))).unwrap();
    assert_eq!((l.iat, l.exp, l.account_id.as_str(), l.role), (1, 2, "a", Role::Admin));
    assert!(login_from_claims(Some((1, 2, "a".to_string(), "Root".to_string()))).is_none());
    assert!(login_from_claims(None).is_none());
}

#[test]
fn bearer_tokens() {
    assert_eq!(bearer_token(Some("Bearer  abc.def \t")), Some("abc.def".to_string()));
    assert_eq!(bearer_token(Some("Bearerxyz")), Some("xyz".to_string()));
    assert_eq!(bearer_token(Some("Basic abc")), None);
    assert_eq!(bearer_token(None), None);
    assert_eq!(trim("\u{3000} a b \u{2029}"), "a b");
    assert_eq!(trim("   "), "");
    assert!(starts_with("Bearer x", "Bearer"));
    assert!(!starts_with("Bear", "Bearer"));
    assert!(contains("https://x", "http"));
    assert!(!contains("x.org", "http"));
    assert!(contains("abc", ""));
}

#[test]
fn admins_only() {
    let admin = AdminUser::from_login(LoginInfo { iat: 0, exp: 1, account_id: "a".to_string(), role: Role::Admin });
    assert_eq!(admin.unwrap().account_id, "a");
    let user = AdminUser::from_login(LoginInfo { iat: 0, exp: 1, account_id: "a".to_string(), role: Role::User });
    assert!(user.is_none());
}

fn app(id: &str, domains: &[&str]) -> App {
    App {
        _id: id.to_string(),
        _rev: "".to_string(),
        institute_id: "i".to_string(),
        domains: domains.iter().map(|d| d.to_string()).collect(),
        created_on: 0,
        owner_id: "o".to_string(),
        entity_type: "apps".to_string(),
    }
}

#[test]
fn resolver_caches_domains() {
    let mut r = AppResolver::new();
    assert!(r.cached("a.example").is_none());
    let got = r.resolve("a.example", Some(app("app-1", &["a.example", "b.example"]))).unwrap();
    assert_eq!(got.value(), "app-1");
    assert_eq!(r.cached("b.example").unwrap().value(), "app-1");
    // A cached domain is answered from the cache; what was fetched is ignored.
    let again = r.resolve("b.example", Some(app("app-2", &["b.example"]))).unwrap();
    assert_eq!(again.value(), "app-1");
    // An app that does not list the domain does not resolve it.
    assert!(r.resolve("c.example", Some(app("app-3", &["d.example"]))).is_none());
    assert_eq!(r.cached("d.example").unwrap().value(), "app-3");
    assert!(r.resolve("e.example", None).is_none());
    r.insert("d.example".to_string(), AppId::new("app-4".to_string()));
    assert_eq!(r.cached("d.example").unwrap().value(), "app-4");
    assert_eq!(r.cached("a.example").unwrap().value(), "app-1");
    assert_eq!(r.cached("b.example").unwrap().value(), "app-1");
    assert!(r.cached("c.example").is_none());
    let mut m = MasterResolver {};
    assert_eq!(m.resolve("anything".to_string()), Some("master_db".to_string()));
    assert_eq!(AppId::get_master_id(), "57370747-2fe1-4d6f-a6fc-93a3f951b89a");
}

fn is_uuid_v4(s: &str) -> bool {
    let c: Vec<char> = s.chars().collect();
    c.len() == 36
        && c.iter().enumerate().all(|(i, ch)| {
            if i == 8 || i == 13 || i == 18 || i == 23 {
                *ch == '-'
            } else {
                ch.is_ascii_digit() || ('a'..='f').contains(ch)
            }
        })
        && c[14] == '4'
        && "89ab".contains(c[19])
}

fn new_user(is_self: bool, id: Option<&str>) -> NewUser {
    NewUser {
        id: id.map(|s| s.to_string()),
        email: Some("e@x".to_string()),
        full_name: "Full Name".to_string(),
        address: None,
        id_images: None,
        account_id: Some("ignored".to_string()),
        owner_id: None,
        is_self,
        gender: Gender::Female,
        identity_type: IdentityType::Passport,
        mobile_no: None,
        identity_id: "P1".to_string(),
        issue_date: 10,
        dob: 20,
    }
}

#[test]
fn new_profiles() {
    let u = new_user_for("acc-1".to_string(), new_user(true, Some("u-1")));
    assert_eq!(u._id, "u-1");
    assert_eq!(u.owner_id, "acc-1");
    assert_eq!(u.account_id.as_deref(), Some("acc-1"));
    assert_eq!(u.nationality, "Nepali");
    assert_eq!(u.entity_type, "users");
    let u = new_user_for("acc-1".to_string(), new_user(false, None));
    assert!(u.account_id.is_none());
    assert!(is_uuid_v4(&u._id));
    assert_eq!(u.gender, Gender::Female);
    let mut submitted = new_user(false, None);
    submitted.address = Some(Address { district: "d".to_string(), municipality_vdc: "m".to_string(), ward: "w".to_string(), tole: "t".to_string() });
    submitted.id_images = Some(vec!["front".to_string()]);
    submitted.mobile_no = Some("98".to_string());
    submitted.owner_id = Some("someone-else".to_string());
    let u = new_user_for("acc-2".to_string(), submitted);
    assert_eq!(u.owner_id, "acc-2");
    assert_eq!(u.address.as_ref().unwrap().tole, "t");
    assert_eq!(u.id_images, Some(vec!["front".to_string()]));
    assert_eq!(u.mobile_no.as_deref(), Some("98"));
    assert_eq!(u.identity_type, IdentityType::Passport);
    assert_eq!(u.identity_id, "P1");
    assert_eq!((u.issue_date, u.dob), (10, 20));
    assert_eq!(u._rev, "");
}

#[test]
fn profile_updates() {
    let mut u: User = new_user_for("acc-1".to_string(), new_user(true, Some("u-1")));
    let upd = UserUpdate {
        email: None,
        full_name: Some("New".to_string()),
        age: Some(30),
        temporary_address: Some(Address { district: "d".to_string(), municipality_vdc: "m".to_string(), ward: "w".to_string(), tole: "t".to_string() }),
        permanent_address: None,
        gender: Some(Gender::Other),
        identity_type: None,
        identity_id: Some("ignored".to_string()),
        issue_date: Some(11),
        id_images: Some(vec!["img".to_string()]),
        mobile_no: Some("98".to_string()),
        dob: None,
    };
    upd.apply_update(&mut u);
    assert_eq!(u.full_name, "New");
    assert_eq!(u.address.as_ref().unwrap().ward, "w");
    assert_eq!(u.gender, Gender::Other);
    assert_eq!(u.identity_id, "P1");
    assert_eq!(u.issue_date, 11);
    assert_eq!(u.dob, 20);
    assert_eq!(u.id_images, Some(vec!["img".to_string()]));
    assert_eq!(u.email.as_deref(), Some("e@x"));
    let svc: UserService = user_service_factory();
    assert_eq!(svc.repo().collection(), "users");
}

#[test]
fn outside_requests() {
    assert_eq!(
        sms_proxy_request("http://proxy", "98", "12345"),
        "http://proxy/?to=98&text=12345&hash=somehash"
    );
    assert_eq!(
        sms_service_request("http://sms", "tok", "98", "12345"),
        "http://sms/?token=tok&from=InfoSMS&to=98&text=12345"
    );
    let r = get_presigned_url("bucket".to_string(), "key123".to_string(), "AKIDEXAMPLE".to_string(), "SK".to_string());
    assert_eq!(r.key, "key123");
    assert!(r.url.contains("/bucket/key123"));
    assert!(r.url.contains("eu-central-1"));
    assert!(r.url.contains("AKIDEXAMPLE"));
    assert!(r.url.contains("X-Amz-Expires=300"));
    assert!(r.url.contains("X-Amz-Signature"));
}
