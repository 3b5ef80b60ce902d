//! The cookies that carry a session's tokens: which cookies a response
//! sets, and which token a request must bring.

use vstd::prelude::*;
use vstd::string::*;
use axum_extra::extract::cookie::{Cookie, CookieJar, SameSite};
use crate::error::ResError;
use crate::text::text_of;
use crate::types::{Json, ResultBody};

verus! {

/// The cookie jar of a request and its response, as `axum_extra` holds it.
#[verifier::external_type_specification]
#[verifier::external_body]
pub struct ExCookieJar(CookieJar);

/// Whether a cookie is sent along with requests from other sites.
#[derive(Clone, Copy, Debug, PartialEq, Eq, Structural)]
pub enum SameSitePolicy {
    /// Only with requests from the cookie's own site.
    Strict,
    /// Also when the user navigates to the site from elsewhere.
    Lax,
    /// With every request.
    Unrestricted,
}

/// A cookie that the gateway sets.
#[derive(Debug)]
pub struct NewCookie {
    pub name: String,
    pub value: String,
    /// Lifetime in seconds.
    pub max_age: i64,
    pub path: String,
    pub same_site: SameSitePolicy,
    pub http_only: bool,
    pub secure: bool,
}

/// What the gateway reads of a cookie in a jar: its value and, as far as
/// they are set, the attributes above.
pub struct CookieView {
    pub value: Seq<char>,
    pub max_age: Option<i64>,
    pub path: Option<Seq<char>>,
    pub same_site: Option<SameSitePolicy>,
    pub http_only: Option<bool>,
    pub secure: Option<bool>,
}

impl NewCookie {
    /// The cookie as it reads once it is in a jar: every attribute set.
    pub open spec fn attributes(self) -> CookieView {
        CookieView {
            value: self.value@,
            max_age: Some(self.max_age),
            path: Some(self.path@),
            same_site: Some(self.same_site),
            http_only: Some(self.http_only),
            secure: Some(self.secure),
        }
    }
}

/// The cookies that a jar holds, by name: those that `CookieJar::get`
/// finds, each with its value and attributes.
pub uninterp spec fn jar_cookies(jar: CookieJar) -> Map<Seq<char>, CookieView>;

/// Builds the cookie and calls `CookieJar::add`. Trusted: `add` puts the
/// cookie into the jar under its name, in place of any cookie of that name,
/// and leaves the other cookies as they are; the cookie reads back with
/// the value and the attributes it was built with.
#[verifier::external_body]
fn jar_add(jar: CookieJar, cookie: NewCookie) -> (filled: CookieJar)
    ensures
        jar_cookies(filled) == jar_cookies(jar).insert(cookie.name@, cookie.attributes()),
{
    let same_site = match cookie.same_site {
        SameSitePolicy::Strict => SameSite::Strict,
        SameSitePolicy::Lax => SameSite::Lax,
        SameSitePolicy::Unrestricted => SameSite::None,
    };
    jar.add(
        Cookie::build((cookie.name, cookie.value))
            .max_age(time::Duration::seconds(cookie.max_age))
            .path(cookie.path)
            .same_site(same_site)
            .http_only(cookie.http_only)
            .secure(cookie.secure),
    )
}

/// Calls `CookieJar::get` and copies the value of the cookie found.
/// Trusted: `get` finds the cookie of the given name where the jar holds
/// one, and nothing else.
#[verifier::external_body]
fn jar_value(jar: &CookieJar, name: &str) -> (value: Option<String>)
    ensures
        text_of(value) == cookie_value(jar_cookies(*jar), name@),
{
    match jar.get(name) {
        Some(cookie) => Some(cookie.value().to_string()),
        None => None,
    }
}

/// The value of the cookie of the given name, where there is one.
pub open spec fn cookie_value(cookies: Map<Seq<char>, CookieView>, name: Seq<char>) -> Option<
    Seq<char>,
> {
    if cookies.contains_key(name) {
        Some(cookies[name].value)
    } else {
        None
    }
}

/// The cookie that carries `token` under `cookie_key` for `token_exp`
/// seconds: valid for the whole site, sent with every request, hidden from
/// scripts, and not limited to secure connections.
pub open spec fn spec_token_cookie(cookie_key: Seq<char>, token: Seq<char>, token_exp: i64) -> CookieView {
    CookieView {
        value: token,
        max_age: Some(token_exp),
        path: Some("/"@),
        same_site: Some(SameSitePolicy::Unrestricted),
        http_only: Some(true),
        secure: Some(false),
    }
}

/// A handler's result where the response sets cookies.
pub type CookieResult = Result<(u16, CookieJar, Json<ResultBody<()>>), ResError>;

/// Adding a token cookie to a collection of cookies.
pub trait CreateAndAddCookie: Sized {
    /// Creates the cookie for `token` and adds it.
    fn add_new_cookie(self, cookie_key: String, token: String, token_exp: i64) -> Self;
}

/// The cookie that carries `token` under `cookie_key` for `token_exp`
/// seconds.
pub fn token_cookie(cookie_key: String, token: String, token_exp: i64) -> (cookie: NewCookie)
    ensures
        cookie.name == cookie_key,
        cookie.attributes() == spec_token_cookie(cookie_key@, token@, token_exp),
{
    NewCookie {
        name: cookie_key,
        value: token,
        max_age: token_exp,
        path: String::from_str("/"),
        same_site: SameSitePolicy::Unrestricted,
        http_only: true,
        secure: false,
    }
}

impl CreateAndAddCookie for CookieJar {
    /// Creates the cookie for `token` and adds it to the jar, in place of
    /// any cookie of the same name.
    fn add_new_cookie(self, cookie_key: String, token: String, token_exp: i64) -> (jar: CookieJar)
        ensures
            jar_cookies(jar) == jar_cookies(self).insert(
                cookie_key@,
                spec_token_cookie(cookie_key@, token@, token_exp),
            ),
    {
        jar_add(self, token_cookie(cookie_key, token, token_exp))
    }
}

/// The cookies of a new session: the refresh token first, then the access
/// token, each under its key and with its lifetime.
pub fn session_cookies(
    jar: CookieJar,
    refresh_key: String,
    refresh_token: String,
    refresh_ttl: i64,
    access_key: String,
    access_token: String,
    access_ttl: i64,
) -> (filled: CookieJar)
    ensures
        jar_cookies(filled) == jar_cookies(jar).insert(
            refresh_key@,
            spec_token_cookie(refresh_key@, refresh_token@, refresh_ttl),
        ).insert(access_key@, spec_token_cookie(access_key@, access_token@, access_ttl)),
{
    jar.add_new_cookie(refresh_key, refresh_token, refresh_ttl).add_new_cookie(
        access_key,
        access_token,
        access_ttl,
    )
}

/// The cookies that end a session: both tokens replaced by empty values
/// that expire at once.
pub fn cleared_cookies(jar: CookieJar, refresh_key: String, access_key: String) -> (filled: CookieJar)
    ensures
        jar_cookies(filled) == jar_cookies(jar).insert(
            refresh_key@,
            spec_token_cookie(refresh_key@, Seq::<char>::empty(), 0),
        ).insert(access_key@, spec_token_cookie(access_key@, Seq::<char>::empty(), 0)),
{
    jar.add_new_cookie(refresh_key, String::new(), 0).add_new_cookie(access_key, String::new(), 0)
}

/// The token that a request brings in the cookie named `cookie_key`. A
/// request without that cookie is `Unauthorized`, with `missing` as the
/// detail.
pub fn require_token(jar: &CookieJar, cookie_key: &str, missing: &str) -> (res: Result<
    String,
    ResError,
>)
    ensures
        match cookie_value(jar_cookies(*jar), cookie_key@) {
            Some(token) => res is Ok && res->Ok_0@ == token,
            None => res is Err && res->Err_0 is Unauthorized && res->Err_0.detail() == missing@,
        },
{
    match jar_value(jar, cookie_key) {
        Some(token) => Ok(token),
        None => Err(ResError::Unauthorized(String::from_str(missing))),
    }
}

/// The response that sets the cookies of the given jar: status 200 and an
/// envelope without payload.
pub fn new_cookie_ok_res(jar: CookieJar) -> (res: CookieResult)
    ensures
        res is Ok,
        res->Ok_0.0 == 200,
        res->Ok_0.1 == jar,
        res->Ok_0.2.0.success,
        res->Ok_0.2.0.error is None,
        res->Ok_0.2.0.data is None,
{
    Ok((200, jar, Json(ResultBody { success: true, error: None, data: None })))
}

} // verus!
