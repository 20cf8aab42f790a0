//! Access tokens: the claims they carry, how they are issued, and how a
//! request's `Authorization` header yields the token and the caller.
use vstd::prelude::*;
use vstd::string::*;

use crate::account::{Account, Role};
use crate::common::{now_millis, CLOCK_MAX_MILLIS};
use crate::text::{has_prefix, is_trim_of, starts_with, trim};

verus! {

/// The claims of an access token: issued at and expiring at (milliseconds
/// since the epoch), the account, and its role.
#[derive(Debug)]
pub struct LoginInfo {
    pub iat: i64,
    pub exp: i64,
    pub account_id: String,
    pub role: Role,
}

/// A logged-in caller whose role is `Admin`.
#[derive(Debug)]
pub struct AdminUser {
    pub account_id: String,
    pub role: Role,
}

/// The name a role is written with in a token.
pub open spec fn role_name_spec(role: Role) -> Seq<char> {
    match role {
        Role::Admin => "Admin"@,
        Role::User => "User"@,
    }
}

pub fn role_name(role: Role) -> (r: &'static str)
    ensures
        r@ == role_name_spec(role),
{
    match role {
        Role::Admin => "Admin",
        Role::User => "User",
    }
}

/// The token that `jsonwebtoken::encode` signs (HS256, default header) with
/// the secret `key` for the claims `{"iat", "exp", "account_id", "role"}`
/// with these values; a function of the values alone.
pub uninterp spec fn spec_login_token(iat: int, exp: int, account_id: Seq<char>, role: Seq<char>, key: Seq<u8>) -> Seq<char>;

/// The claims `(iat, exp, account_id, role)` that a token carries when its
/// HS256 signature checks under the secret `key` and `jsonwebtoken`'s default
/// validation accepts its claims apart from the comparison of `exp` with the
/// clock: an object whose `exp` is a non-negative integer, with no `aud`
/// member, whose `iat` and `exp` are integers that fit in an `i64` and whose
/// `account_id` and `role` are strings. `None` for any other token. A
/// function of the token and the key alone.
pub uninterp spec fn spec_token_claims(token: Seq<char>, key: Seq<u8>) -> Option<(int, int, Seq<char>, Seq<char>)>;

/// The secret that tokens are signed with.
pub const TOKEN_SECRET: &'static str = "secret";

/// `jsonwebtoken::encode` with the default header (HS256) and the secret
/// `key`, of the claims object with members `iat`, `exp`, `account_id` and
/// `role`, in that order. The token is named by `spec_login_token`. Encoding
/// cannot fail for this header: any byte string is an HMAC key, and the claims
/// always serialize. Decoding the token with the same key gives the claims
/// back, provided `exp` is not negative (`jsonwebtoken` reads `exp` as an
/// unsigned number, and a negative one counts as missing).
#[verifier::external_body]
fn encode_login_token(iat: i64, exp: i64, account_id: &str, role: &str, key: &[u8]) -> (r: String)
    ensures
        r@ == spec_login_token(iat as int, exp as int, account_id@, role@, key@),
        exp >= 0 ==> spec_token_claims(r@, key@) == Some((iat as int, exp as int, account_id@, role@)),
{
    let mut claims = serde_json::Map::new();
    claims.insert("iat".to_string(), serde_json::Value::from(iat));
    claims.insert("exp".to_string(), serde_json::Value::from(exp));
    claims.insert("account_id".to_string(), serde_json::Value::from(account_id));
    claims.insert("role".to_string(), serde_json::Value::from(role));
    let key = jsonwebtoken::EncodingKey::from_secret(key);
    jsonwebtoken::encode(&jsonwebtoken::Header::default(), &claims, &key).expect("HS256 signing does not fail")
}

/// `jsonwebtoken::decode` of `token` with the secret `key` and the default
/// validation (HS256, `exp` required and not past), the claims read as a JSON
/// object, then its members `iat`, `exp` (integers) and `account_id`, `role`
/// (strings). What comes back is the named `spec_token_claims`; when those are
/// `None`, so is the result. The check of `exp` against the clock may still
/// refuse a token whose claims are named, so a `None` is not tied further.
#[verifier::external_body]
fn decode_login_token(token: &str, key: &[u8]) -> (r: Option<(i64, i64, String, String)>)
    ensures
        r matches Some(c) ==> spec_token_claims(token@, key@) == Some((c.0 as int, c.1 as int, c.2@, c.3@)),
        spec_token_claims(token@, key@) is None ==> r is None,
{
    let key = jsonwebtoken::DecodingKey::from_secret(key);
    let data = jsonwebtoken::decode::<serde_json::Value>(token, &key, &jsonwebtoken::Validation::default()).ok()?;
    let c = data.claims;
    Some((
        c.get("iat")?.as_i64()?,
        c.get("exp")?.as_i64()?,
        c.get("account_id")?.as_str()?.to_string(),
        c.get("role")?.as_str()?.to_string(),
    ))
}

/// The role written with the name `name`, if any.
pub open spec fn role_of_name(name: Seq<char>) -> Option<Role> {
    if name == "Admin"@ {
        Some(Role::Admin)
    } else if name == "User"@ {
        Some(Role::User)
    } else {
        None
    }
}

/// The role written with the name `name`, if any.
pub fn role_from_name(name: &str) -> (r: Option<Role>)
    ensures
        r == role_of_name(name@),
{
    let given = String::from_str(name);
    if given == String::from_str("Admin") {
        Some(Role::Admin)
    } else if given == String::from_str("User") {
        Some(Role::User)
    } else {
        None
    }
}

impl LoginInfo {
    /// The claims of a token for `login`, issued at `now`, valid for
    /// `expire_after` milliseconds.
    pub fn claims_for(login: Account, expire_after: i64, now: i64) -> (r: LoginInfo)
        requires
            i64::MIN <= now + expire_after <= i64::MAX,
        ensures
            r.iat == now,
            r.exp == now + expire_after,
            r.account_id == login._id,
            r.role == login.role,
    {
        LoginInfo { iat: now, exp: now + expire_after, account_id: login._id, role: login.role }
    }
}

/// The token for `login`, issued at `now`, valid for `expire_after`
/// milliseconds, signed with `TOKEN_SECRET`. Unless it expires before the
/// epoch, reading it back with the same secret gives these claims.
pub fn token_at(login: Account, expire_after: i64, now: i64) -> (r: String)
    requires
        i64::MIN <= now + expire_after <= i64::MAX,
    ensures
        r@ == spec_login_token(
            now as int,
            now + expire_after,
            login._id@,
            role_name_spec(login.role),
            TOKEN_SECRET.spec_bytes(),
        ),
        now + expire_after >= 0 ==> spec_token_claims(r@, TOKEN_SECRET.spec_bytes()) == Some(
            (now as int, now + expire_after, login._id@, role_name_spec(login.role)),
        ),
{
    let payload = LoginInfo::claims_for(login, expire_after, now);
    encode_login_token(
        payload.iat,
        payload.exp,
        payload.account_id.as_str(),
        role_name(payload.role),
        TOKEN_SECRET.as_bytes(),
    )
}

/// A token for `login`, issued now, valid for `expire_after` milliseconds.
pub fn generate_token(login: Account, expire_after: i64) -> (r: String)
    requires
        expire_after <= i64::MAX - CLOCK_MAX_MILLIS,
    ensures
        exists|now: i64|
            0 <= now <= CLOCK_MAX_MILLIS && r@ == #[trigger] spec_login_token(
                now as int,
                now + expire_after,
                login._id@,
                role_name_spec(login.role),
                TOKEN_SECRET.spec_bytes(),
            ) && (now + expire_after >= 0 ==> spec_token_claims(r@, TOKEN_SECRET.spec_bytes()) == Some(
                (now as int, now + expire_after, login._id@, role_name_spec(login.role)),
            )),
{
    let now = now_millis();
    let r = token_at(login, expire_after, now);
    r
}

/// The scheme an `Authorization` header must start with.
pub const BEARER: &'static str = "Bearer";

/// The token of an `Authorization` header: what follows `Bearer`, without
/// surrounding white space. `None` without the header or without the prefix.
pub fn bearer_token(header: Option<&str>) -> (r: Option<String>)
    ensures
        match header {
            None => r is None,
            Some(h) => if has_prefix(h@, BEARER@) {
                r matches Some(t) && is_trim_of(h@.subrange(6, h@.len() as int), t@)
            } else {
                r is None
            },
        },
{
    match header {
        None => None,
        Some(h) => {
            if starts_with(h, BEARER) {
                proof {
                    reveal_strlit("Bearer");
                }
                let rest = h.substring_char(6, h.unicode_len());
                Some(trim(rest))
            } else {
                None
            }
        },
    }
}

impl AdminUser {
    /// The caller as an administrator, if its role is `Admin`.
    pub fn from_login(login: LoginInfo) -> (r: Option<AdminUser>)
        ensures
            login.role == Role::Admin ==> (r matches Some(a) && a.account_id == login.account_id
                && a.role == Role::Admin),
            login.role == Role::User ==> r is None,
    {
        match login.role {
            Role::Admin => Some(AdminUser { account_id: login.account_id, role: login.role }),
            Role::User => None,
        }
    }
}

/// `r` is the login that the claims `c` of a token describe: the same
/// times and account, and the role written with `c`'s role name.
pub open spec fn is_login_of_claims(r: LoginInfo, c: (int, int, Seq<char>, Seq<char>)) -> bool {
    &&& r.iat == c.0
    &&& r.exp == c.1
    &&& r.account_id@ == c.2
    &&& role_of_name(c.3) == Some(r.role)
}

/// The login that a token's claims describe: `None` without claims or when
/// the role is neither `Admin` nor `User`.
pub fn login_from_claims(claims: Option<(i64, i64, String, String)>) -> (r: Option<LoginInfo>)
    ensures
        match claims {
            None => r is None,
            Some(c) => match role_of_name(c.3@) {
                None => r is None,
                Some(_) => r matches Some(l) && is_login_of_claims(l, (c.0 as int, c.1 as int, c.2@, c.3@)),
            },
        },
{
    match claims {
        None => None,
        Some((iat, exp, account_id, role_name)) => match role_from_name(role_name.as_str()) {
            Some(role) => Some(LoginInfo { iat, exp, account_id, role }),
            None => None,
        },
    }
}

/// The login that a request's `Authorization` header carries: the bearer
/// token, read with `TOKEN_SECRET`. `None` without a bearer token, for a
/// token whose signature or claims do not check, and for a role that is
/// neither `Admin` nor `User`; a token that checks may also be refused as
/// expired by the clock.
pub fn login_from_header(header: Option<&str>) -> (r: Option<LoginInfo>)
    ensures
        match header {
            None => r is None,
            Some(h) => if !has_prefix(h@, BEARER@) {
                r is None
            } else {
                exists|t: Seq<char>|
                    #![trigger spec_token_claims(t, TOKEN_SECRET.spec_bytes())]
                    is_trim_of(h@.subrange(6, h@.len() as int), t) && match spec_token_claims(
                        t,
                        TOKEN_SECRET.spec_bytes(),
                    ) {
                        None => r is None,
                        Some(c) => (r matches Some(l) ==> is_login_of_claims(l, c)) && (role_of_name(c.3) is None
                            ==> r is None),
                    }
            },
        },
{
    match bearer_token(header) {
        None => None,
        Some(token) => {
            let claims = decode_login_token(token.as_str(), TOKEN_SECRET.as_bytes());
            let r = login_from_claims(claims);
            proof {
                assert(spec_token_claims(token@, TOKEN_SECRET.spec_bytes()) == spec_token_claims(
                    token@,
                    TOKEN_SECRET.spec_bytes(),
                ));
            }
            r
        },
    }
}

} // verus!
