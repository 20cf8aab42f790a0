use backend::account::{Account, AccountUpdate, Role};
use backend::api::{hello, sms_hello, user_filter, HostHeader, HostHeaderError, Params};
use backend::apps::{App, AppUpdate};
use backend::entity::{Entity, EntityUpdate, OwnerInfo};
use backend::json::{insert_member, JsonValue};
use backend::jwt_auth::LoginInfo;
use backend::repository::{FindQuery, Repository};

fn members(v: &JsonValue) -> &Vec<(String, JsonValue)> {
    match v {
        JsonValue::Object(m) => m,
        _ => panic!("expected an object"),
    }
}

fn str_of(v: &JsonValue) -> &str {
    match v {
        JsonValue::Str(s) => s,
        _ => panic!("expected a string"),
    }
}

fn login(role: Role) -> LoginInfo {
    LoginInfo { iat: 0, exp: 1, account_id: "acc-7".to_string(), role }
}

#[test]
fn insert_replaces_or_appends() {
    let mut m: Vec<(String, JsonValue)> = Vec::new();
    insert_member(&mut m, "a".to_string(), JsonValue::Bool(true));
    insert_member(&mut m, "b".to_string(), JsonValue::Null);
    insert_member(&mut m, "a".to_string(), JsonValue::Str("x".to_string()));
    assert_eq!(m.len(), 2);
    assert_eq!(m[0].0, "a");
    assert_eq!(str_of(&m[0].1), "x");
    assert_eq!(m[1].0, "b");
}

#[test]
fn repository_queries_carry_the_collection() {
    let repo: Repository<Account, AccountUpdate> = Repository::new("accounts".to_string());
    let sel = JsonValue::Object(vec![("mobile_no".to_string(), JsonValue::Str("1".to_string()))]);
    let q = repo.find_one_query(sel);
    assert_eq!(q.limit, Some(1));
    assert_eq!(q.skip, Some(0));
    let m = members(&q.selector);
    assert_eq!(m.len(), 2);
    assert_eq!(m[1].0, "entity_type");
    assert_eq!(str_of(&m[1].1), "accounts");
    let q = repo.bulk_query(JsonValue::Null);
    assert_eq!(q.limit, Some(1000000));
    let m = members(&q.selector);
    assert_eq!(m.len(), 1);
    assert_eq!(str_of(&m[0].1), "accounts");
    let spoofed = JsonValue::Object(vec![("entity_type".to_string(), JsonValue::Str("users".to_string()))]);
    let m2 = repo.set_entity_selector(spoofed);
    assert_eq!(members(&m2).len(), 1);
    assert_eq!(str_of(&members(&m2)[0].1), "accounts");
    let all = FindQuery::find_all();
    let m = members(&all.selector);
    assert_eq!(m[0].0, "_id");
    assert!(matches!(&members(&m[0].1)[0].1, JsonValue::Null));
}

#[test]
fn params_become_pages() {
    let p = Params { query: vec![("k".to_string(), JsonValue::Number("3".to_string()))], page: 3, limit: 10 };
    let q = FindQuery::from_params(p);
    assert_eq!(q.limit, Some(10));
    assert_eq!(q.skip, Some(20));
    assert_eq!(members(&q.selector)[0].0, "k");
    let q = FindQuery::from_params(Params { query: vec![], page: 1, limit: 10 });
    assert_eq!(q.skip, Some(0));
    let dup = Params {
        query: vec![
            ("a".to_string(), JsonValue::Number("1".to_string())),
            ("b".to_string(), JsonValue::Null),
            ("a".to_string(), JsonValue::Number("2".to_string())),
        ],
        page: 2,
        limit: 7,
    };
    let q = FindQuery::from_params(dup);
    assert_eq!(q.skip, Some(7));
    let m = members(&q.selector);
    assert_eq!(m.len(), 2);
    assert_eq!(m[0].0, "a");
    assert!(matches!(&m[0].1, JsonValue::Number(n) if n == "2"));
    assert_eq!(m[1].0, "b");
    assert!(matches!(&m[1].1, JsonValue::Null));
}

#[test]
fn user_filter_restricts_users_only() {
    let sel = JsonValue::Object(vec![("x".to_string(), JsonValue::Bool(true))]);
    let admin = user_filter(login(Role::Admin), sel);
    assert_eq!(members(&admin).len(), 1);
    let sel = JsonValue::Object(vec![("x".to_string(), JsonValue::Bool(true))]);
    let user = user_filter(login(Role::User), sel);
    let m = members(&user);
    assert_eq!(m.len(), 2);
    assert_eq!(m[1].0, "owner_id");
    assert_eq!(str_of(&m[1].1), "acc-7");
    let user = user_filter(login(Role::User), JsonValue::Array(vec![]));
    assert_eq!(members(&user).len(), 1);
}

#[test]
fn host_header_reading() {
    assert!(matches!(HostHeader::from_header(None), Err(HostHeaderError::Missing)));
    let h = HostHeader::from_header(Some("example.com:8000")).ok().unwrap();
    assert_eq!(h.host.as_deref(), Some("example.com"));
    let h = HostHeader::from_header(Some("https://shop.example.org/path")).ok().unwrap();
    assert_eq!(h.host.as_deref(), Some("shop.example.org"));
    let h = HostHeader::from_header(Some("mailto:http")).ok().unwrap();
    assert_eq!(h.host, None);
    assert!(matches!(HostHeader::from_header(Some("exa mple")), Err(HostHeaderError::Invalid)));
}

#[test]
fn roots_answer() {
    assert_eq!(hello(), "{version:1.0}");
    assert_eq!(sms_hello(), "{name: sms_api , version:1.0}");
}

fn app() -> App {
    App {
        _id: "app-1".to_string(),
        _rev: "".to_string(),
        institute_id: "inst".to_string(),
        domains: vec!["a.example".to_string()],
        created_on: 5,
        owner_id: "acc-1".to_string(),
        entity_type: "apps".to_string(),
    }
}

#[test]
fn app_update_and_owner() {
    let mut a = app();
    let u = AppUpdate { domains: Some(vec!["b.example".to_string(), "c.example".to_string()]), institute_id: None };
    u.apply_update(&mut a);
    assert_eq!(a.domains, vec!["b.example".to_string(), "c.example".to_string()]);
    assert_eq!(a.institute_id, "inst");
    a.set_owner_id("acc-2");
    assert_eq!(a.get_owner_id(), "acc-2");
    assert_eq!(a.get_entity_type(), "apps");
    let sel = App::domain_selector("a.example");
    let m = members(&sel);
    assert_eq!(m[0].0, "domains");
    let inner = members(&m[0].1);
    assert_eq!(inner[0].0, "$elemMatch");
    let eq = members(&inner[0].1);
    assert_eq!(eq[0].0, "$eq");
    assert_eq!(str_of(&eq[0].1), "a.example");
    let mut other = app();
    other._id = "app-2".to_string();
    let picked = App::pick_found(vec![app(), other]).unwrap();
    assert_eq!(picked._id, "app-2");
    assert!(App::pick_found(vec![]).is_none());
}

#[test]
fn entity_type_is_the_only_field_set() {
    let mut a = app();
    a.set_entity_type("other");
    assert_eq!(a.get_entity_type(), "other");
    let b = app();
    assert_eq!(a._id, b._id);
    assert_eq!(a.domains, b.domains);
    assert_eq!(a.owner_id, b.owner_id);
    assert_eq!(a.institute_id, b.institute_id);
    assert_eq!(a.created_on, b.created_on);
}

#[test]
fn updates_twice_are_updates_once() {
    let u = AppUpdate { domains: Some(vec!["z.example".to_string()]), institute_id: Some("i2".to_string()) };
    let mut once = app();
    u.apply_update(&mut once);
    let mut twice = app();
    u.apply_update(&mut twice);
    u.apply_update(&mut twice);
    assert_eq!(once.domains, twice.domains);
    assert_eq!(once.institute_id, twice.institute_id);
    let none = AppUpdate { domains: None, institute_id: None };
    let mut same = app();
    none.apply_update(&mut same);
    assert_eq!(same.domains, app().domains);
    assert_eq!(same.institute_id, app().institute_id);
}
