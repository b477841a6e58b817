//! What the authentication layer decides for a request.
//!
//! The layer itself reads headers, validates tokens and passes requests on.
//! Here are the decisions between those acts: where a token is looked for,
//! what a `Basic` header holds, which paths need a principal, and what is
//! answered to a request that has none.

use crate::ident::parsed_uuid;
use crate::ident::Id;
use crate::text::chars_of;
use crate::text::find_char;
use crate::text::has_prefix;
use crate::text::position;
use crate::text::same_chars;
use crate::text::same_text;
use crate::text::split;
use crate::text::split_chars;
use crate::text::starts_with;
use crate::text::string_of;
use crate::text::trim;
use crate::text::trim_chars;
use base64::Engine;
use vstd::prelude::*;
use vstd::utf8::decode_utf8;
use vstd::utf8::valid_utf8;

verus! {

/// The error that `base64` reports for a text that is no encoding.
#[verifier::external_type_specification]
#[verifier::external_body]
pub struct ExDecodeError(base64::DecodeError);

/// The error that `String::from_utf8` reports for bytes that are no UTF-8.
#[verifier::external_type_specification]
#[verifier::external_body]
pub struct ExFromUtf8Error(std::string::FromUtf8Error);

/// The bytes that the standard base64 engine of `base64` decodes a text to,
/// if it decodes it.
pub uninterp spec fn base64_decoded(s: Seq<char>) -> Option<Seq<u8>>;

/// What a decoding found, without the error's detail.
pub open spec fn found_bytes(r: Result<Vec<u8>, base64::DecodeError>) -> Option<Seq<u8>> {
    match r {
        Ok(bytes) => Some(bytes@),
        Err(_) => None,
    }
}

/// Calls `decode` of `base64`'s standard engine (standard alphabet, padded).
/// Trusted: the result is what `base64_decoded` names for the same text.
#[verifier::external_body]
pub(crate) fn base64_decode(s: &str) -> (r: Result<Vec<u8>, base64::DecodeError>)
    ensures
        found_bytes(r) == base64_decoded(s@),
{
    base64::engine::general_purpose::STANDARD.decode(s)
}

/// `String::from_utf8` succeeds on valid UTF-8 and on nothing else, and the
/// string holds the characters that the bytes encode.
pub assume_specification[ String::from_utf8 ](vec: Vec<u8>) -> (r: Result<
    String,
    std::string::FromUtf8Error,
>)
    ensures
        r is Ok <==> valid_utf8(vec@),
        r matches Ok(s) ==> s@ == decode_utf8(vec@),
;

/// The claims of a session token.
#[derive(Clone, Debug)]
pub struct Claims {
    /// Subject: the user's identifier in canonical text.
    pub sub: String,
    /// Expiration, in seconds since the epoch.
    pub exp: usize,
    /// Time of issue, in seconds since the epoch.
    pub iat: usize,
}

/// What the authentication layer is configured with.
#[derive(Clone)]
pub struct AuthConfig {
    pub jwt_secret: String,
}

impl AuthConfig {
    /// A configuration with the given secret for session tokens.
    pub fn new(jwt_secret: String) -> (config: AuthConfig)
        ensures
            config.jwt_secret == jwt_secret,
    {
        AuthConfig { jwt_secret }
    }
}

/// The principal of a request, if it has one.
#[derive(Clone, Debug)]
pub struct OptionalUser(pub Option<Id>);

/// The credentials of a `Basic` authorization header.
#[derive(Clone, Debug)]
pub struct BasicAuthCredentials {
    pub email: String,
    pub password: String,
}

/// What a `BasicAuthCredentials` holds, as mathematical values.
pub ghost struct CredentialsView {
    pub email: Seq<char>,
    pub password: Seq<char>,
}

impl View for BasicAuthCredentials {
    type V = CredentialsView;

    open spec fn view(&self) -> CredentialsView {
        CredentialsView { email: self.email@, password: self.password@ }
    }
}

/// The view of optional credentials.
pub open spec fn credentials_view(c: Option<BasicAuthCredentials>) -> Option<CredentialsView> {
    match c {
        Some(c) => Some(c@),
        None => None,
    }
}

/// The view of an optional string.
pub open spec fn token_view(t: Option<String>) -> Option<Seq<char>> {
    match t {
        Some(s) => Some(s@),
        None => None,
    }
}

/// The view of an optional string slice.
pub open spec fn header_view(h: Option<&str>) -> Option<Seq<char>> {
    match h {
        Some(s) => Some(s@),
        None => None,
    }
}

/// The credentials in decoded bytes: the bytes must be UTF-8 and hold a
/// colon; the email stands before the first colon, the password after it.
pub open spec fn credentials_in(decoded: Option<Seq<u8>>) -> Option<CredentialsView> {
    match decoded {
        Some(bytes) => {
            let text = decode_utf8(bytes);
            let colon = position(text, ':');
            if valid_utf8(bytes) && colon < text.len() {
                Some(CredentialsView { email: text.take(colon), password: text.skip(colon + 1) })
            } else {
                None
            }
        },
        None => None,
    }
}

/// The credentials of an authorization header: the header must begin with
/// `Basic ` and go on with the base64 encoding of `email:password`.
pub open spec fn basic_credentials(header: Seq<char>) -> Option<CredentialsView> {
    if has_prefix(header, "Basic "@) {
        credentials_in(base64_decoded(header.skip("Basic "@.len() as int)))
    } else {
        None
    }
}

/// Whether a path belongs to the CalDAV surface, where `Basic` credentials
/// are asked for.
pub open spec fn caldav_path(path: Seq<char>) -> bool {
    has_prefix(path, "/calendars"@) || path == "/.well-known/caldav"@ || has_prefix(path, "/dav"@)
        || has_prefix(path, "/principals"@)
}

/// Whether a path is a page of the web interface other than login and registration.
pub open spec fn web_path(path: Seq<char>) -> bool {
    has_prefix(path, "/web/"@) && !has_prefix(path, "/web/login"@) && !has_prefix(
        path,
        "/web/register"@,
    )
}

/// Whether a path is an endpoint of the JSON interface other than login and registration.
pub open spec fn api_path(path: Seq<char>) -> bool {
    has_prefix(path, "/api/auth/"@) && !has_prefix(path, "/api/auth/login"@) && !has_prefix(
        path,
        "/api/auth/register"@,
    )
}

/// Whether a path is the discovery endpoint, which tells a client where the
/// calendar home is and is open to everyone.
pub open spec fn discovery_path(path: Seq<char>) -> bool {
    path == "/.well-known/caldav"@
}

/// Whether a path is served only to a principal: the pages of the web
/// interface, the endpoints of the JSON interface, and the CalDAV surface
/// but for its discovery endpoint.
pub open spec fn needs_principal(path: Seq<char>) -> bool {
    web_path(path) || api_path(path) || (caldav_path(path) && !discovery_path(path))
}

/// The session token among cookies that have been cut apart: the value of
/// the first cookie that, once trimmed, begins with `auth_token=`.
pub open spec fn token_among(cookies: Seq<Seq<char>>) -> Option<Seq<char>>
    decreases cookies.len(),
{
    if cookies.len() == 0 {
        None
    } else if has_prefix(trim(cookies[0]), "auth_token="@) {
        Some(trim(cookies[0]).skip("auth_token="@.len() as int))
    } else {
        token_among(cookies.skip(1))
    }
}

/// The session token in a `Cookie` header, whose cookies stand between semicolons.
pub open spec fn cookie_token(cookie: Seq<char>) -> Option<Seq<char>> {
    token_among(split(cookie, ';'))
}

/// The session token of a request. An authorization header decides alone:
/// it holds the token after `Bearer `, or there is none. Only without that
/// header is the cookie read.
pub open spec fn session_token(authorization: Option<Seq<char>>, cookie: Option<Seq<char>>) -> Option<
    Seq<char>,
> {
    match authorization {
        Some(header) => if has_prefix(header, "Bearer "@) {
            Some(header.skip("Bearer "@.len() as int))
        } else {
            None
        },
        None => match cookie {
            Some(c) => cookie_token(c),
            None => None,
        },
    }
}

/// What the authentication layer does with a request.
#[derive(Clone, Debug)]
pub enum AuthDecision {
    /// A valid session token names the user: the request goes on as theirs.
    Authenticated(Id),
    /// The request carries `Basic` credentials: it goes on with them, for
    /// the handler to verify, and without a principal.
    Credentials(BasicAuthCredentials),
    /// The request has no principal and needs none: it goes on.
    Anonymous,
    /// A CalDAV path without a principal: `401` with a `Basic` challenge.
    Challenge,
    /// A web page without a principal: `302` to the login page.
    RedirectToLogin,
    /// A JSON endpoint without a principal: `401`.
    Unauthorized,
}

/// What an `AuthDecision` holds, as mathematical values.
pub enum DecisionView {
    Authenticated(Id),
    Credentials(CredentialsView),
    Anonymous,
    Challenge,
    RedirectToLogin,
    Unauthorized,
}

impl View for AuthDecision {
    type V = DecisionView;

    open spec fn view(&self) -> DecisionView {
        match self {
            AuthDecision::Authenticated(id) => DecisionView::Authenticated(*id),
            AuthDecision::Credentials(c) => DecisionView::Credentials(c@),
            AuthDecision::Anonymous => DecisionView::Anonymous,
            AuthDecision::Challenge => DecisionView::Challenge,
            AuthDecision::RedirectToLogin => DecisionView::RedirectToLogin,
            AuthDecision::Unauthorized => DecisionView::Unauthorized,
        }
    }
}

/// The decision for a request, given the user that its session token names
/// and the credentials of its authorization header. A token's user comes
/// first, then credentials. Without either, a path that needs no principal
/// is let through, the discovery endpoint among them, and the others are
/// answered by their kind.
pub open spec fn decision(
    path: Seq<char>,
    user: Option<Id>,
    credentials: Option<CredentialsView>,
) -> DecisionView {
    if user is Some {
        DecisionView::Authenticated(user->0)
    } else if credentials is Some {
        DecisionView::Credentials(credentials->0)
    } else if !needs_principal(path) {
        DecisionView::Anonymous
    } else if caldav_path(path) && !discovery_path(path) {
        DecisionView::Challenge
    } else if web_path(path) {
        DecisionView::RedirectToLogin
    } else {
        DecisionView::Unauthorized
    }
}

/// The user that the subject of a valid session token names, if it names one.
pub open spec fn user_named(subject: Option<Seq<char>>) -> Option<Id> {
    match subject {
        Some(s) => match parsed_uuid(s) {
            Some(v) => Some(Id { value: v }),
            None => None,
        },
        None => None,
    }
}

/// The credentials of a request's authorization header, if it has one that holds any.
pub open spec fn credentials_of(authorization: Option<Seq<char>>) -> Option<CredentialsView> {
    match authorization {
        Some(header) => basic_credentials(header),
        None => None,
    }
}

/// The status with which a decision answers the request itself; none where
/// the request goes on.
pub open spec fn rejection_status(d: DecisionView) -> Option<u16> {
    match d {
        DecisionView::Challenge => Some(401u16),
        DecisionView::RedirectToLogin => Some(302u16),
        DecisionView::Unauthorized => Some(401u16),
        _ => None,
    }
}

/// The challenge that a CalDAV path answers with.
pub const BASIC_CHALLENGE: &'static str = "Basic realm=\"CalDAV Server\"";

/// Where a web page without a principal is sent.
pub const LOGIN_PAGE: &'static str = "/web/login";

/// The body of a `401` answer.
pub const AUTHENTICATION_REQUIRED: &'static str = "Authentication required";

/// The origins that may read responses.
pub const CORS_ALLOW_ORIGIN: &'static str = "*";

/// The methods that other origins may use.
pub const CORS_ALLOW_METHODS: &'static str =
    "GET, POST, PUT, DELETE, OPTIONS, PROPFIND, REPORT, MKCOL";

/// The request headers that other origins may send.
pub const CORS_ALLOW_HEADERS: &'static str = "Authorization, Content-Type, Accept, Depth, Prefer";

/// Reads credentials from what the base64 decoder returned.
pub fn credentials_from(decoded: Result<Vec<u8>, base64::DecodeError>) -> (r: Option<
    BasicAuthCredentials,
>)
    ensures
        credentials_view(r) == credentials_in(found_bytes(decoded)),
{
    let bytes = match decoded {
        Ok(bytes) => bytes,
        Err(_) => {
            return None;
        },
    };
    let text = match String::from_utf8(bytes) {
        Ok(text) => text,
        Err(_) => {
            return None;
        },
    };
    let chars = chars_of(text.as_str());
    let colon = find_char(chars.as_slice(), ':');
    if colon < chars.len() {
        let email = string_of(vstd::slice::slice_subrange(chars.as_slice(), 0, colon));
        let password = string_of(
            vstd::slice::slice_subrange(chars.as_slice(), colon + 1, chars.len()),
        );
        Some(BasicAuthCredentials { email, password })
    } else {
        None
    }
}

/// Reads the credentials of a `Basic` authorization header.
pub fn parse_basic_auth(header_value: &str) -> (r: Option<BasicAuthCredentials>)
    ensures
        credentials_view(r) == basic_credentials(header_value@),
{
    let chars = chars_of(header_value);
    let scheme = chars_of("Basic ");
    if !starts_with(chars.as_slice(), scheme.as_slice()) {
        return None;
    }
    let encoded = string_of(vstd::slice::slice_subrange(chars.as_slice(), scheme.len(), chars.len()));
    credentials_from(base64_decode(encoded.as_str()))
}

/// Whether `path` belongs to the CalDAV surface.
pub fn is_caldav_endpoint(path: &str) -> (b: bool)
    ensures
        b == caldav_path(path@),
{
    let chars = chars_of(path);
    let p = chars.as_slice();
    starts_with(p, chars_of("/calendars").as_slice()) || same_chars(
        p,
        chars_of("/.well-known/caldav").as_slice(),
    ) || starts_with(p, chars_of("/dav").as_slice()) || starts_with(
        p,
        chars_of("/principals").as_slice(),
    )
}

/// Whether `path` is the discovery endpoint.
pub fn is_discovery(path: &str) -> (b: bool)
    ensures
        b == discovery_path(path@),
{
    same_text(path, "/.well-known/caldav")
}

/// Whether `path` is a page of the web interface that needs a principal.
pub fn is_web_route(path: &str) -> (b: bool)
    ensures
        b == web_path(path@),
{
    let chars = chars_of(path);
    let p = chars.as_slice();
    starts_with(p, chars_of("/web/").as_slice()) && !starts_with(
        p,
        chars_of("/web/login").as_slice(),
    ) && !starts_with(p, chars_of("/web/register").as_slice())
}

/// Whether `path` is an endpoint of the JSON interface that needs a principal.
pub fn is_api_route(path: &str) -> (b: bool)
    ensures
        b == api_path(path@),
{
    let chars = chars_of(path);
    let p = chars.as_slice();
    starts_with(p, chars_of("/api/auth/").as_slice()) && !starts_with(
        p,
        chars_of("/api/auth/login").as_slice(),
    ) && !starts_with(p, chars_of("/api/auth/register").as_slice())
}

/// Reads the session token from a `Cookie` header.
pub fn parse_auth_cookie(cookie_str: &str) -> (r: Option<String>)
    ensures
        token_view(r) == cookie_token(cookie_str@),
{
    let chars = chars_of(cookie_str);
    let cookies = split_chars(chars.as_slice(), ';');
    let name = chars_of("auth_token=");
    let ghost all = cookies.deep_view();
    let mut i: usize = 0;
    assert(all.skip(0) == all);
    while i < cookies.len()
        invariant
            i <= cookies.len(),
            all == cookies.deep_view(),
            all == split(cookie_str@, ';'),
            name@ == "auth_token="@,
            token_among(all) == token_among(all.skip(i as int)),
        decreases cookies.len() - i,
    {
        let cookie = trim_chars(cookies[i].as_slice());
        proof {
            assert(cookies@[i as int].deep_view() == cookies@[i as int]@);
            assert(all.skip(i as int).skip(1) == all.skip(i + 1));
        }
        if starts_with(cookie, name.as_slice()) {
            let value = vstd::slice::slice_subrange(cookie, name.len(), cookie.len());
            return Some(string_of(value));
        }
        i += 1;
    }
    None
}

/// Finds the session token of a request in its `Authorization` header or,
/// where it has none, in its `Cookie` header.
pub fn bearer_token(authorization: Option<&str>, cookie: Option<&str>) -> (r: Option<String>)
    ensures
        token_view(r) == session_token(header_view(authorization), header_view(cookie)),
{
    match authorization {
        Some(header) => {
            let chars = chars_of(header);
            let scheme = chars_of("Bearer ");
            if starts_with(chars.as_slice(), scheme.as_slice()) {
                Some(
                    string_of(
                        vstd::slice::slice_subrange(chars.as_slice(), scheme.len(), chars.len()),
                    ),
                )
            } else {
                None
            }
        },
        None => match cookie {
            Some(c) => parse_auth_cookie(c),
            None => None,
        },
    }
}

/// Decides what to do with a request, given the user that its session token
/// names and the credentials of its authorization header.
pub fn decide(path: &str, user: Option<Id>, credentials: Option<BasicAuthCredentials>) -> (d:
    AuthDecision)
    ensures
        d@ == decision(path@, user, credentials_view(credentials)),
{
    if let Some(id) = user {
        return AuthDecision::Authenticated(id);
    }
    if let Some(c) = credentials {
        return AuthDecision::Credentials(c);
    }
    let caldav = is_caldav_endpoint(path) && !is_discovery(path);
    let web = is_web_route(path);
    let api = is_api_route(path);
    if !(web || api || caldav) {
        AuthDecision::Anonymous
    } else if caldav {
        AuthDecision::Challenge
    } else if web {
        AuthDecision::RedirectToLogin
    } else {
        AuthDecision::Unauthorized
    }
}

/// Decides what to do with a request. `subject` is the subject claim of the
/// request's session token where the token was found valid, and nothing
/// otherwise.
pub fn auth_middleware(path: &str, authorization: Option<&str>, subject: Option<&str>) -> (d:
    AuthDecision)
    ensures
        d@ == decision(path@, user_named(header_view(subject)), credentials_of(header_view(authorization))),
{
    let user = match subject {
        Some(s) => match Id::parse_str(s) {
            Ok(id) => Some(id),
            Err(_) => None,
        },
        None => None,
    };
    let credentials = match authorization {
        Some(header) => parse_basic_auth(header),
        None => None,
    };
    decide(path, user, credentials)
}

impl AuthDecision {
    /// The status with which the request itself is answered; none where it goes on.
    pub fn status(&self) -> (status: Option<u16>)
        ensures
            status == rejection_status(self@),
    {
        match self {
            AuthDecision::Challenge => Some(401),
            AuthDecision::RedirectToLogin => Some(302),
            AuthDecision::Unauthorized => Some(401),
            _ => None,
        }
    }
}

/// Discovery needs no authentication: a request to the discovery endpoint
/// goes on whatever it carries, and is never answered with a challenge.
pub proof fn law_discovery_is_open(user: Option<Id>, credentials: Option<CredentialsView>)
    ensures
        !needs_principal("/.well-known/caldav"@),
        rejection_status(decision("/.well-known/caldav"@, user, credentials)) is None,
        decision("/.well-known/caldav"@, None, None) == DecisionView::Anonymous,
{
    let path = "/.well-known/caldav"@;
    reveal_strlit("/.well-known/caldav");
    reveal_strlit("/web/");
    reveal_strlit("/api/auth/");
    assert(!has_prefix(path, "/web/"@)) by {
        if has_prefix(path, "/web/"@) {
            assert(path.take(5)[1] == "/web/"@[1]);
        }
    }
    assert(!has_prefix(path, "/api/auth/"@)) by {
        if has_prefix(path, "/api/auth/"@) {
            assert(path.take(10)[1] == "/api/auth/"@[1]);
        }
    }
}

/// A request with a principal is never turned away, and a request without
/// one is turned away exactly on the paths that need one.
pub proof fn law_rejection(path: Seq<char>, user: Option<Id>, credentials: Option<CredentialsView>)
    ensures
        rejection_status(decision(path, user, credentials)) is Some <==> user is None
            && credentials is None && needs_principal(path),
        decision(path, user, credentials) == DecisionView::Challenge ==> caldav_path(path)
            && !discovery_path(path),
{
}

} // verus!
