//! What the HTTP handlers decide before and after calling the services:
//! list queries from request parameters, the owner filter, new profiles, the
//! `Host` header, and the fixed answers of the service roots.
use vstd::prelude::*;
use vstd::string::*;

use crate::account::Role;
use crate::json::{get_member, has_key, insert_member, key_index, last_value, lemma_members_inserted, members_inserted, unique_keys, JsonValue, Members};
use crate::jwt_auth::LoginInfo;
use crate::repository::{object_keys_unique, selector_members, set_selector_string, FindQuery};
use crate::text::{contains, contains_text};
use crate::common::{is_uuid_v4_text, USERS};
use crate::users::{NewUser, User, DEFAULT_NATIONALITY};

verus! {

/// The answer of the API root.
pub const API_VERSION: &'static str = "{version:1.0}";

/// The answer of the text-message service root.
pub const SMS_API_VERSION: &'static str = "{name: sms_api , version:1.0}";

/// The answer of the text-message service once a message is sent.
pub const SMS_SENT: &'static str = "{sent:OK}";

/// The API root's answer.
pub fn hello() -> (r: &'static str)
    ensures
        r@ == API_VERSION@,
{
    API_VERSION
}

/// The text-message service root's answer.
pub fn sms_hello() -> (r: &'static str)
    ensures
        r@ == SMS_API_VERSION@,
{
    SMS_API_VERSION
}

/// The parameters of a list request: selector members, the page (from 1),
/// and the page size.
#[derive(Debug)]
pub struct Params {
    pub query: Vec<(String, JsonValue)>,
    pub page: u32,
    pub limit: u32,
}

/// The page used when a request gives none.
pub const DEFAULT_PAGE: u32 = 1;

/// The page size used when a request gives none.
pub const DEFAULT_LIMIT: u32 = 10;

impl FindQuery {
    /// The find query of a list request: its members as the selector (a key
    /// given twice keeps its last value), the page size as the limit, and the
    /// documents of the earlier pages skipped.
    pub fn from_params(p: Params) -> (r: FindQuery)
        requires
            p.page >= 1,
            (p.page - 1) * p.limit <= u32::MAX,
        ensures
            r.selector matches JsonValue::Object(m) && unique_keys(m@) && (forall|k: Seq<char>|
                has_key(m@, k) == has_key(p.query@, k)) && (forall|k: Seq<char>|
                get_member(m@, k) == last_value(p.query@, k)) && (unique_keys(p.query@) ==> m@ == p.query@),
            r.limit == Some(p.limit as u64),
            r.skip == Some(((p.page - 1) * p.limit) as u64),
    {
        let mut q = FindQuery::find_all();
        q = q.limit(p.limit as u64);
        q = q.skip(((p.page - 1) * p.limit) as u64);
        let ghost orig = p.query@;
        let mut rest = p.query;
        assert(orig.len() == rest.len());
        let mut jsonmap: Vec<(String, JsonValue)> = Vec::new();
        let mut i: usize = 0;
        while rest.len() > 0
            invariant
                rest@ == orig.skip(i as int),
                i <= orig.len(),
                orig.len() == i + rest@.len(),
                orig.len() <= usize::MAX,
                unique_keys(jsonmap@),
                forall|k: Seq<char>| has_key(jsonmap@, k) == has_key(orig.take(i as int), k),
                forall|k: Seq<char>| get_member(jsonmap@, k) == last_value(orig.take(i as int), k),
                unique_keys(orig) ==> jsonmap@ == orig.take(i as int),
            decreases rest.len(),
        {
            let ghost before = jsonmap@;
            let (key, value) = rest.remove(0);
            let ghost k = key@;
            proof {
                assert(orig[i as int] == (key, value));
                if unique_keys(orig) {
                    if has_key(before, k) {
                        let j = key_index(orig.take(i as int), k);
                        assert(orig[j].0@ == orig[i as int].0@);
                    }
                }
            }
            insert_member(&mut jsonmap, key, value);
            proof {
                lemma_members_inserted(before, k, orig[i as int].1, jsonmap@);
                let next = orig.take(i + 1);
                assert forall|k2: Seq<char>| has_key(jsonmap@, k2) == has_key(next, k2) by {
                    if has_key(next, k2) {
                        let j = key_index(next, k2);
                        if j < i {
                            assert(orig.take(i as int)[j].0@ == k2);
                        }
                    }
                    if has_key(orig.take(i as int), k2) {
                        let j = key_index(orig.take(i as int), k2);
                        assert(next[j].0@ == k2);
                    }
                    if k2 == k {
                        assert(next[i as int].0@ == k2);
                    }
                    if has_key(jsonmap@, k2) && k2 != k {
                        assert(get_member(jsonmap@, k2) == get_member(before, k2));
                    }
                }
                assert(next.drop_last() =~= orig.take(i as int));
                assert(next.last() == orig[i as int]);
                assert forall|k2: Seq<char>| get_member(jsonmap@, k2) == last_value(next, k2) by {
                    if k2 != k {
                        assert(get_member(jsonmap@, k2) == get_member(before, k2));
                    }
                }
                if unique_keys(orig) {
                    assert(jsonmap@ =~= next);
                }
                assert(rest@ =~= orig.skip(i + 1));
            }
            i += 1;
        }
        proof {
            assert(orig.take(orig.len() as int) =~= orig);
        }
        q.selector = JsonValue::Object(jsonmap);
        q
    }
}

/// The owner member added to a user's selectors.
pub const OWNER_KEY: &'static str = "owner_id";

/// Restricts a selector to what the caller may see: an administrator sees
/// everything; a user only the documents it owns. A selector that is not an
/// object counts as the empty one.
pub fn user_filter(login: LoginInfo, selector: JsonValue) -> (r: JsonValue)
    requires
        object_keys_unique(selector),
    ensures
        r matches JsonValue::Object(m) && unique_keys(m@) && match login.role {
            Role::Admin => m@ == selector_members(selector),
            Role::User => members_inserted(
                selector_members(selector),
                OWNER_KEY@,
                JsonValue::Str(login.account_id),
                m@,
            ),
        },
{
    match login.role {
        Role::Admin => match selector {
            JsonValue::Object(m) => JsonValue::Object(m),
            _ => JsonValue::Object(Vec::new()),
        },
        Role::User => set_selector_string(selector, String::from_str(OWNER_KEY), login.account_id),
    }
}

/// The profile a caller creates: owned by the caller's account, linked to
/// it when it is the caller's own profile, and otherwise as submitted.
pub fn new_user_for(login_account_id: String, new_user: NewUser) -> (r: User)
    ensures
        r.owner_id@ == login_account_id@,
        new_user.is_self ==> r.account_id == Some(login_account_id),
        !new_user.is_self ==> r.account_id is None,
        new_user.id matches Some(i) ==> r._id == i,
        new_user.id is None ==> is_uuid_v4_text(r._id@),
        r._rev@ == Seq::<char>::empty(),
        r.entity_type@ == USERS@,
        r.nationality@ == DEFAULT_NATIONALITY@,
        r.email == new_user.email,
        r.full_name == new_user.full_name,
        r.address == new_user.address,
        r.id_images == new_user.id_images,
        r.gender == new_user.gender,
        r.identity_type == new_user.identity_type,
        r.identity_id == new_user.identity_id,
        r.mobile_no == new_user.mobile_no,
        r.issue_date == new_user.issue_date,
        r.dob == new_user.dob,
{
    let owned = new_user.owned_by(login_account_id);
    User::from_new_user(owned)
}

#[verifier::external_type_specification]
#[verifier::external_body]
pub struct ExUrlParseError(url::ParseError);

/// Whether `url::Url::parse` accepts the text; a function of the text alone.
pub uninterp spec fn spec_url_parses(text: Seq<char>) -> bool;

/// The host (`Url::host_str`) of the URL that `url::Url::parse` makes of the
/// text, if that URL has one; a function of the text alone.
pub uninterp spec fn spec_url_host(text: Seq<char>) -> Option<Seq<char>>;

/// `url::Url::parse`, then `Url::host_str` of the parsed URL: the URL's
/// host, or why the text is not a URL. Which texts parse is named by
/// `spec_url_parses`, the host by `spec_url_host`.
#[verifier::external_body]
fn parse_url_host(text: &str) -> (r: Result<Option<String>, url::ParseError>)
    ensures
        r is Ok == spec_url_parses(text@),
        r matches Ok(h) ==> h.deep_view() == spec_url_host(text@),
{
    match url::Url::parse(text) {
        Ok(u) => Ok(u.host_str().map(|h| h.to_string())),
        Err(e) => Err(e),
    }
}

#[derive(Debug)]
pub enum HostHeaderError {
    Missing,
    Invalid,
}

/// The host a request was addressed to, read from its `Host` header: the
/// host of the header's URL, if that URL has one.
#[derive(Debug)]
pub struct HostHeader {
    pub host: Option<String>,
}

/// The scheme added to a `Host` header that does not mention one.
pub const DEFAULT_SCHEME: &'static str = "http://";

/// The text parsed for a `Host` header value: the value itself when it
/// mentions `http`, else the value after `http://`.
pub open spec fn host_url_text(h: Seq<char>) -> Seq<char> {
    if contains_text(h, "http"@) {
        h
    } else {
        DEFAULT_SCHEME@ + h
    }
}

impl HostHeader {
    /// Reads the `Host` header: missing without one, invalid when its URL
    /// does not parse, and otherwise the host of that URL.
    pub fn from_header(header: Option<&str>) -> (r: Result<HostHeader, HostHeaderError>)
        ensures
            match header {
                None => r matches Err(e) && e is Missing,
                Some(h) => match r {
                    Ok(hh) => spec_url_parses(host_url_text(h@)) && hh.host.deep_view() == spec_url_host(
                        host_url_text(h@),
                    ),
                    Err(e) => e is Invalid && !spec_url_parses(host_url_text(h@)),
                },
            },
    {
        match header {
            Some(h) => {
                let mut full_url = String::from_str(h);
                if !contains(h, "http") {
                    full_url = String::from_str(DEFAULT_SCHEME);
                    full_url.append(h);
                }
                match parse_url_host(full_url.as_str()) {
                    Ok(host) => Ok(HostHeader { host }),
                    Err(_e) => Err(HostHeaderError::Invalid),
                }
            },
            None => Err(HostHeaderError::Missing),
        }
    }
}

/// A user's list selector always restricts the listing to the documents it
/// owns, and keeps the user's other conditions.
pub proof fn lemma_user_filter_owner(before: Members, account_id: String, after: Members)
    requires
        unique_keys(before),
        members_inserted(before, OWNER_KEY@, JsonValue::Str(account_id), after),
    ensures
        get_member(after, OWNER_KEY@) == Some(JsonValue::Str(account_id)),
        forall|k: Seq<char>| k != OWNER_KEY@ ==> get_member(after, k) == get_member(before, k),
{
    lemma_members_inserted(before, OWNER_KEY@, JsonValue::Str(account_id), after);
}

} // verus!
