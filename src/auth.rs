//! The register, login and session-check decisions. Storage of user records
//! stays with the caller: each flow is split where it reads or writes a
//! record, and the caller hands the storage outcome back in.

use vstd::prelude::*;

use crate::password::{hash_password, verify_outcome, verify_password, PasswordError};
use crate::store::{consume_outcome, CaptchaStore};
use crate::text::{ascii_ci_eq, eq_ignore_ascii_case, trim, trimmed};
use crate::token::{claims_at, hs256_opened, hs256_token, issue_jwt_at, verify_jwt_at, TokenError};

verus! {

/// The four outcomes a caller of the flows can see.
#[derive(Debug, Clone, Copy, PartialEq, Eq, Structural)]
pub enum ErrorKind {
    BadRequest,
    Unauthorized,
    Conflict,
    Internal,
}

/// Why a flow stopped. Each reason belongs to exactly one `ErrorKind` and shows
/// the caller one message; reasons that must not be told apart (a missing
/// account, a wrong password, an unreadable stored hash; every token failure)
/// share kind and message, and differ only for the service's own logs.
#[derive(Debug, Clone, Copy, PartialEq, Eq, Structural)]
pub enum AuthError {
    /// The request body could not be read.
    MalformedBody,
    /// The challenge is unknown, expired, or was answered wrongly.
    CaptchaRejected,
    /// The trimmed username is not strictly between 3 and 32 characters long.
    UsernameLength,
    /// The trimmed email holds no `@`.
    EmailFormat,
    /// The password has fewer than 6 characters.
    PasswordTooShort,
    /// The account or the password is empty.
    EmptyCredentials,
    /// No such account, or the wrong password.
    WrongCredentials,
    /// The stored password hash could not be read; shown as `WrongCredentials`.
    PasswordCheck,
    /// The username or email is taken.
    AccountExists,
    /// No bearer token was presented.
    MissingToken,
    /// The token failed to verify, for the reason given.
    InvalidToken(TokenError),
    /// The token names no existing account.
    UnknownUser,
    /// The user-record storage failed.
    Storage,
    /// Hashing the password failed.
    Hashing,
    /// The session token could not be produced.
    TokenIssue,
}

impl AuthError {
    pub open spec fn kind_of(self) -> ErrorKind {
        match self {
            AuthError::MalformedBody | AuthError::CaptchaRejected | AuthError::UsernameLength
            | AuthError::EmailFormat | AuthError::PasswordTooShort | AuthError::EmptyCredentials
            | AuthError::WrongCredentials | AuthError::PasswordCheck => ErrorKind::BadRequest,
            AuthError::MissingToken | AuthError::InvalidToken(_) | AuthError::UnknownUser =>
                ErrorKind::Unauthorized,
            AuthError::AccountExists => ErrorKind::Conflict,
            AuthError::Storage | AuthError::Hashing | AuthError::TokenIssue => ErrorKind::Internal,
        }
    }

    pub open spec fn message_of(self) -> Seq<char> {
        match self {
            AuthError::MalformedBody => "request body is not valid JSON"@,
            AuthError::CaptchaRejected => "captcha is wrong or has expired"@,
            AuthError::UsernameLength => "username must be between 3 and 32 characters"@,
            AuthError::EmailFormat => "email format is invalid"@,
            AuthError::PasswordTooShort => "password must have at least 6 characters"@,
            AuthError::EmptyCredentials => "account and password must not be empty"@,
            AuthError::WrongCredentials | AuthError::PasswordCheck => "wrong account or password"@,
            AuthError::AccountExists => "username or email already exists"@,
            AuthError::MissingToken => "missing token"@,
            AuthError::InvalidToken(_) => "token is invalid or has expired"@,
            AuthError::UnknownUser => "user does not exist"@,
            AuthError::Storage => "storage error"@,
            AuthError::Hashing => "password processing failed"@,
            AuthError::TokenIssue => "token generation failed"@,
        }
    }

    /// The outcome class a caller sees for this reason.
    pub fn kind(&self) -> (r: ErrorKind)
        ensures
            r == self.kind_of(),
    {
        match self {
            AuthError::MalformedBody | AuthError::CaptchaRejected | AuthError::UsernameLength
            | AuthError::EmailFormat | AuthError::PasswordTooShort | AuthError::EmptyCredentials
            | AuthError::WrongCredentials | AuthError::PasswordCheck => ErrorKind::BadRequest,
            AuthError::MissingToken | AuthError::InvalidToken(_) | AuthError::UnknownUser =>
                ErrorKind::Unauthorized,
            AuthError::AccountExists => ErrorKind::Conflict,
            AuthError::Storage | AuthError::Hashing | AuthError::TokenIssue => ErrorKind::Internal,
        }
    }

    /// The message a caller sees for this reason; it holds no internal detail.
    pub fn user_message(&self) -> (r: &'static str)
        ensures
            r@ == self.message_of(),
    {
        match self {
            AuthError::MalformedBody => "request body is not valid JSON",
            AuthError::CaptchaRejected => "captcha is wrong or has expired",
            AuthError::UsernameLength => "username must be between 3 and 32 characters",
            AuthError::EmailFormat => "email format is invalid",
            AuthError::PasswordTooShort => "password must have at least 6 characters",
            AuthError::EmptyCredentials => "account and password must not be empty",
            AuthError::WrongCredentials | AuthError::PasswordCheck => "wrong account or password",
            AuthError::AccountExists => "username or email already exists",
            AuthError::MissingToken => "missing token",
            AuthError::InvalidToken(_) => "token is invalid or has expired",
            AuthError::UnknownUser => "user does not exist",
            AuthError::Storage => "storage error",
            AuthError::Hashing => "password processing failed",
            AuthError::TokenIssue => "token generation failed",
        }
    }
}

/// An unreadable stored hash looks to the caller exactly like a wrong password,
/// and every token failure looks like every other.
pub proof fn lemma_hidden_reasons_look_alike(a: TokenError, b: TokenError)
    ensures
        AuthError::PasswordCheck.kind_of() == AuthError::WrongCredentials.kind_of(),
        AuthError::PasswordCheck.message_of() == AuthError::WrongCredentials.message_of(),
        AuthError::InvalidToken(a).kind_of() == AuthError::InvalidToken(b).kind_of(),
        AuthError::InvalidToken(a).message_of() == AuthError::InvalidToken(b).message_of(),
{
}

impl ErrorKind {
    /// The HTTP status for this outcome: 400, 401, 409 or 500.
    pub fn status_code(&self) -> (r: u16)
        ensures
            r == match self {
                ErrorKind::BadRequest => 400u16,
                ErrorKind::Unauthorized => 401u16,
                ErrorKind::Conflict => 409u16,
                ErrorKind::Internal => 500u16,
            },
    {
        match self {
            ErrorKind::BadRequest => 400,
            ErrorKind::Unauthorized => 401,
            ErrorKind::Conflict => 409,
            ErrorKind::Internal => 500,
        }
    }
}

/// How the user-record storage failed.
#[derive(Debug, Clone, Copy, PartialEq, Eq, Structural)]
pub enum StorageError {
    /// The username or email already exists.
    DuplicateKey,
    /// Any other failure.
    Other,
}

/// A stored user record.
#[derive(Debug, Clone)]
pub struct UserRow {
    pub id: i64,
    pub username: String,
    pub email: String,
    pub password_hash: String,
}

/// A registration request.
#[derive(Debug)]
pub struct RegisterReq {
    pub username: String,
    pub email: String,
    pub password: String,
    pub captcha_id: String,
    pub captcha: String,
}

/// A login request; `account` is a username or an email.
#[derive(Debug)]
pub struct LoginReq {
    pub account: String,
    pub password: String,
    pub captcha_id: String,
    pub captcha: String,
}

/// A freshly issued session token.
#[derive(Debug)]
pub struct TokenResp {
    pub token: String,
}

/// The public part of the caller's own record.
#[derive(Debug)]
pub struct MeResp {
    pub id: i64,
    pub username: String,
    pub email: String,
}

/// A record ready to be stored: trimmed names and the password's hash.
#[derive(Debug)]
pub struct NewUser {
    pub username: String,
    pub email: String,
    pub password_hash: String,
}

pub open spec fn username_ok(username: Seq<char>) -> bool {
    3 < trimmed(username).len() < 32
}

pub open spec fn email_ok(email: Seq<char>) -> bool {
    exists|i: int| 0 <= i < trimmed(email).len() && trimmed(email)[i] == '@'
}

pub open spec fn password_ok(password: Seq<char>) -> bool {
    password.len() >= 6
}

/// The first rule a registration breaks, if any, once its challenge passed.
pub open spec fn register_input_error(req: RegisterReq) -> Option<AuthError> {
    if !username_ok(req.username@) {
        Some(AuthError::UsernameLength)
    } else if !email_ok(req.email@) {
        Some(AuthError::EmailFormat)
    } else if !password_ok(req.password@) {
        Some(AuthError::PasswordTooShort)
    } else {
        None
    }
}

fn contains_at_sign(s: &str) -> (r: bool)
    ensures
        r == exists|i: int| 0 <= i < s@.len() && s@[i] == '@',
{
    let n = s.unicode_len();
    let mut i: usize = 0;
    while i < n
        invariant
            i <= n,
            n == s@.len(),
            forall|k: int| 0 <= k < i ==> s@[k] != '@',
        decreases n - i,
    {
        if s.get_char(i) == '@' {
            return true;
        }
        i = i + 1;
    }
    false
}

/// Checks the username, email and password rules, in that order.
pub fn validate_register(req: &RegisterReq) -> (r: Result<(), AuthError>)
    ensures
        r is Ok <==> register_input_error(*req) is None,
        r matches Err(e) ==> register_input_error(*req) == Some(e),
        r == match register_input_error(*req) {
            Some(e) => Err(e),
            None => Ok(()),
        },
{
    let username = trim(req.username.as_str());
    let len = username.unicode_len();
    if len <= 3 || len >= 32 {
        return Err(AuthError::UsernameLength);
    }
    if !contains_at_sign(trim(req.email.as_str())) {
        return Err(AuthError::EmailFormat);
    }
    if req.password.as_str().unicode_len() < 6 {
        return Err(AuthError::PasswordTooShort);
    }
    Ok(())
}

/// What the challenge and input checks of a registration give at time `now`,
/// and the challenges that remain afterwards.
pub open spec fn register_check(
    m: Map<Seq<char>, (Seq<char>, i64)>,
    req: RegisterReq,
    now: i64,
) -> (Result<(), AuthError>, Map<Seq<char>, (Seq<char>, i64)>) {
    let (ok, rest) = consume_outcome(m, req.captcha_id@, req.captcha@, now);
    (
        if !ok {
            Err(AuthError::CaptchaRejected)
        } else {
            match register_input_error(req) {
                Some(e) => Err(e),
                None => Ok(()),
            }
        },
        rest,
    )
}

/// Registration's checks at time `now`: consume the challenge, then check the
/// input. Nothing is hashed or stored here.
pub fn register_begin_at(store: &mut CaptchaStore, req: &RegisterReq, now: i64) -> (r: Result<
    (),
    AuthError,
>)
    ensures
        (r, final(store)@) == register_check(old(store)@, *req, now),
{
    if !store.verify_and_consume_at(req.captcha_id.as_str(), req.captcha.as_str(), now) {
        return Err(AuthError::CaptchaRejected);
    }
    validate_register(req)
}

/// Registration's checks at the current time; see `register_begin_at`.
pub fn register_begin(store: &mut CaptchaStore, req: &RegisterReq) -> (r: Result<(), AuthError>)
    ensures
        exists|now: i64| (r, final(store)@) == #[trigger] register_check(old(store)@, *req, now),
{
    let now = crate::clock::now_unix();
    register_begin_at(store, req, now)
}

/// The record to store for a registration that passed its checks: the trimmed
/// username and email, and the password hashed with a fresh salt. Fails, with
/// `Hashing`, only on a password of more than 0xFFFFFFFF bytes.
pub fn register_new_user(req: &RegisterReq) -> (r: Result<NewUser, AuthError>)
    ensures
        vstd::utf8::encode_utf8(req.password@).len() <= 0xFFFF_FFFF ==> r is Ok,
        r matches Err(e) ==> e == AuthError::Hashing,
        r matches Ok(u) ==> {
            &&& u.username@ == trimmed(req.username@)
            &&& u.email@ == trimmed(req.email@)
            &&& verify_outcome(req.password@, u.password_hash@) == Ok::<bool, PasswordError>(true)
            &&& forall|q: Seq<char>| #[trigger] verify_outcome(q, u.password_hash@) is Ok
        },
{
    let password_hash = match hash_password(req.password.as_str()) {
        Ok(h) => h,
        Err(_) => {
            return Err(AuthError::Hashing);
        },
    };
    let username = trim(req.username.as_str()).to_owned();
    let email = trim(req.email.as_str()).to_owned();
    Ok(NewUser { username, email, password_hash })
}

/// Whether `r` is the session token for `sub` issued at `now` with lifetime
/// `ttl`: it is issued whenever the expiry fits in `i64`, else `TokenIssue`.
pub open spec fn token_issued(
    r: Result<TokenResp, AuthError>,
    secret: Seq<char>,
    ttl: i64,
    sub: i64,
    now: i64,
) -> bool {
    if i64::MIN <= now + ttl <= i64::MAX {
        r matches Ok(t) && t.token@ == hs256_token(secret, sub, (now + ttl) as i64)
    } else {
        r == Err::<TokenResp, AuthError>(AuthError::TokenIssue)
    }
}

/// Whether `r` is what completing a registration at `now` gives, once storing
/// the record gave `created`: a duplicate is `AccountExists`, any other storage
/// failure `Storage`; a new id gets its session token.
pub open spec fn register_completed(
    r: Result<TokenResp, AuthError>,
    created: Result<i64, StorageError>,
    secret: Seq<char>,
    ttl: i64,
    now: i64,
) -> bool {
    match created {
        Err(StorageError::DuplicateKey) => r == Err::<TokenResp, AuthError>(AuthError::AccountExists),
        Err(StorageError::Other) => r == Err::<TokenResp, AuthError>(AuthError::Storage),
        Ok(id) => token_issued(r, secret, ttl, id, now),
    }
}

/// Second half of registration at time `now`, given what storing the record gave.
pub fn register_complete_at(
    created: Result<i64, StorageError>,
    secret: &str,
    ttl: i64,
    now: i64,
) -> (r: Result<TokenResp, AuthError>)
    ensures
        register_completed(r, created, secret@, ttl, now),
{
    let id = match created {
        Ok(id) => id,
        Err(StorageError::DuplicateKey) => {
            return Err(AuthError::AccountExists);
        },
        Err(StorageError::Other) => {
            return Err(AuthError::Storage);
        },
    };
    match issue_jwt_at(secret, ttl, id, now) {
        Ok(token) => Ok(TokenResp { token }),
        Err(_) => Err(AuthError::TokenIssue),
    }
}

/// Second half of registration at the current time; see `register_complete_at`.
pub fn register_complete(created: Result<i64, StorageError>, secret: &str, ttl: i64) -> (r: Result<
    TokenResp,
    AuthError,
>)
    ensures
        exists|now: i64| #[trigger] register_completed(r, created, secret@, ttl, now),
{
    let now = crate::clock::now_unix();
    register_complete_at(created, secret, ttl, now)
}

/// A text result seen through its characters.
pub open spec fn text_result(r: Result<String, AuthError>) -> Result<Seq<char>, AuthError> {
    match r {
        Ok(s) => Ok(s@),
        Err(e) => Err(e),
    }
}

/// What the challenge and input checks of a login give at time `now` (the
/// trimmed account on success), and the challenges that remain afterwards.
pub open spec fn login_check(
    m: Map<Seq<char>, (Seq<char>, i64)>,
    req: LoginReq,
    now: i64,
) -> (Result<Seq<char>, AuthError>, Map<Seq<char>, (Seq<char>, i64)>) {
    let (ok, rest) = consume_outcome(m, req.captcha_id@, req.captcha@, now);
    (
        if !ok {
            Err(AuthError::CaptchaRejected)
        } else if trimmed(req.account@).len() == 0 || req.password@.len() == 0 {
            Err(AuthError::EmptyCredentials)
        } else {
            Ok(trimmed(req.account@))
        },
        rest,
    )
}

/// First half of login at time `now`: consume the challenge, then require a
/// non-empty account (after trimming) and password. Gives the trimmed account.
pub fn login_begin_at(store: &mut CaptchaStore, req: &LoginReq, now: i64) -> (r: Result<
    String,
    AuthError,
>)
    ensures
        (text_result(r), final(store)@) == login_check(old(store)@, *req, now),
{
    if !store.verify_and_consume_at(req.captcha_id.as_str(), req.captcha.as_str(), now) {
        return Err(AuthError::CaptchaRejected);
    }
    let account = trim(req.account.as_str());
    if account.unicode_len() == 0 || req.password.as_str().unicode_len() == 0 {
        return Err(AuthError::EmptyCredentials);
    }
    Ok(account.to_owned())
}

/// First half of login at the current time; see `login_begin_at`.
pub fn login_begin(store: &mut CaptchaStore, req: &LoginReq) -> (r: Result<String, AuthError>)
    ensures
        exists|now: i64|
            (text_result(r), final(store)@) == #[trigger] login_check(old(store)@, *req, now),
{
    let now = crate::clock::now_unix();
    login_begin_at(store, req, now)
}

/// The failure, if any, that a login meets given the record lookup and the
/// submitted password. A missing account and a wrong password give the same
/// failure; an unreadable stored hash gives `PasswordCheck`, which the caller
/// sees exactly as a wrong password (see `lemma_hidden_reasons_look_alike`).
pub open spec fn login_error(
    found: Result<Option<UserRow>, StorageError>,
    password: Seq<char>,
) -> Option<AuthError> {
    match found {
        Err(_) => Some(AuthError::Storage),
        Ok(None) => Some(AuthError::WrongCredentials),
        Ok(Some(u)) => match verify_outcome(password, u.password_hash@) {
            Err(_) => Some(AuthError::PasswordCheck),
            Ok(false) => Some(AuthError::WrongCredentials),
            Ok(true) => None,
        },
    }
}

/// Whether `r` is what completing a login at `now` gives: the failure of
/// `login_error`, else the session token for the record's id.
pub open spec fn login_completed(
    r: Result<TokenResp, AuthError>,
    found: Result<Option<UserRow>, StorageError>,
    password: Seq<char>,
    secret: Seq<char>,
    ttl: i64,
    now: i64,
) -> bool {
    match login_error(found, password) {
        Some(e) => r == Err::<TokenResp, AuthError>(e),
        None => match found {
            Ok(Some(u)) => token_issued(r, secret, ttl, u.id, now),
            _ => false,
        },
    }
}

/// Second half of login at time `now`, given what looking the account up gave:
/// the password is checked against the stored hash, and a match gets a session
/// token for the record's id lasting `ttl` seconds.
pub fn login_complete_at(
    found: Result<Option<UserRow>, StorageError>,
    password: &str,
    secret: &str,
    ttl: i64,
    now: i64,
) -> (r: Result<TokenResp, AuthError>)
    ensures
        login_completed(r, found, password@, secret@, ttl, now),
{
    let user = match found {
        Err(_) => {
            return Err(AuthError::Storage);
        },
        Ok(None) => {
            return Err(AuthError::WrongCredentials);
        },
        Ok(Some(u)) => u,
    };
    match verify_password(password, user.password_hash.as_str()) {
        Err(_) => {
            return Err(AuthError::PasswordCheck);
        },
        Ok(false) => {
            return Err(AuthError::WrongCredentials);
        },
        Ok(true) => {},
    }
    match issue_jwt_at(secret, ttl, user.id, now) {
        Ok(token) => Ok(TokenResp { token }),
        Err(_) => Err(AuthError::TokenIssue),
    }
}

/// Second half of login at the current time; see `login_complete_at`.
pub fn login_complete(
    found: Result<Option<UserRow>, StorageError>,
    password: &str,
    secret: &str,
    ttl: i64,
) -> (r: Result<TokenResp, AuthError>)
    ensures
        exists|now: i64| #[trigger] login_completed(r, found, password@, secret@, ttl, now),
{
    let now = crate::clock::now_unix();
    login_complete_at(found, password, secret, ttl, now)
}

/// A login against a missing account, one with a wrong password, and one whose
/// stored hash cannot be read all show the caller the same `BadRequest`
/// outcome and message.
pub proof fn lemma_wrong_password_like_missing_account(
    user: UserRow,
    broken: UserRow,
    password: Seq<char>,
)
    requires
        verify_outcome(password, user.password_hash@) == Ok::<bool, PasswordError>(false),
        verify_outcome(password, broken.password_hash@) is Err,
    ensures
        login_error(Ok(Some(user)), password) == login_error(Ok(None), password),
        login_error(Ok(None), password) == Some(AuthError::WrongCredentials),
        login_error(Ok(Some(broken)), password) == Some(AuthError::PasswordCheck),
        AuthError::WrongCredentials.kind_of() == ErrorKind::BadRequest,
        AuthError::PasswordCheck.kind_of() == ErrorKind::BadRequest,
        AuthError::PasswordCheck.message_of() == AuthError::WrongCredentials.message_of(),
{
}

/// The token an `Authorization` value carries: after trimming, the scheme word
/// `bearer` in any ASCII case, then the token, itself trimmed and non-empty.
pub open spec fn bearer_token_of(raw: Seq<char>) -> Option<Seq<char>> {
    let t = trimmed(raw);
    if t.len() >= 7 && ascii_ci_eq(t.subrange(0, 6), "bearer"@) && trimmed(t.subrange(6, t.len() as int)).len() > 0 {
        Some(trimmed(t.subrange(6, t.len() as int)))
    } else {
        None
    }
}

/// Reads the bearer token out of an `Authorization` header value.
pub fn parse_bearer_token(raw: &str) -> (r: Option<String>)
    ensures
        r is Some <==> bearer_token_of(raw@) is Some,
        r matches Some(t) ==> bearer_token_of(raw@) == Some(t@),
{
    let t = trim(raw);
    let n = t.unicode_len();
    if n < 7 {
        return None;
    }
    if !eq_ignore_ascii_case(t.substring_char(0, 6), "bearer") {
        return None;
    }
    let token = trim(t.substring_char(6, n));
    if token.unicode_len() == 0 {
        return None;
    }
    Some(token.to_owned())
}

/// What a session check with the `Authorization` value `authorization` gives at
/// time `now`.
pub open spec fn session_outcome(
    secret: Seq<char>,
    authorization: Option<&str>,
    now: i64,
) -> Result<i64, AuthError> {
    match authorization {
        None => Err(AuthError::MissingToken),
        Some(raw) => match bearer_token_of(raw@) {
            None => Err(AuthError::MissingToken),
            Some(tok) => match claims_at(hs256_opened(secret, tok), now) {
                Ok(c) => Ok(c.sub),
                Err(e) => Err(AuthError::InvalidToken(e)),
            },
        },
    }
}

/// The subject a session-check request is for, at time `now`: no header or no
/// bearer token is `MissingToken`; a token that fails to verify is `InvalidToken`,
/// carrying the reason for the logs.
pub fn session_subject_at(secret: &str, authorization: Option<&str>, now: i64) -> (r: Result<
    i64,
    AuthError,
>)
    ensures
        r == session_outcome(secret@, authorization, now),
{
    let raw = match authorization {
        Some(raw) => raw,
        None => {
            return Err(AuthError::MissingToken);
        },
    };
    let token = match parse_bearer_token(raw) {
        Some(t) => t,
        None => {
            return Err(AuthError::MissingToken);
        },
    };
    match verify_jwt_at(secret, token.as_str(), now) {
        Ok(c) => Ok(c.sub),
        Err(e) => Err(AuthError::InvalidToken(e)),
    }
}

/// The subject a session-check request is for, at the current time; see
/// `session_subject_at`.
pub fn session_subject(secret: &str, authorization: Option<&str>) -> (r: Result<i64, AuthError>)
    ensures
        exists|now: i64| r == #[trigger] session_outcome(secret@, authorization, now),
{
    let now = crate::clock::now_unix();
    session_subject_at(secret, authorization, now)
}

/// The answer to a session check, given what looking the subject up gave.
pub fn me_complete(found: Result<Option<UserRow>, StorageError>) -> (r: Result<MeResp, AuthError>)
    ensures
        found is Err ==> r == Err::<MeResp, AuthError>(AuthError::Storage),
        found matches Ok(None) ==> r == Err::<MeResp, AuthError>(AuthError::UnknownUser),
        found matches Ok(Some(u)) ==> r matches Ok(m) && m.id == u.id && m.username@ == u.username@
            && m.email@ == u.email@,
{
    match found {
        Err(_) => Err(AuthError::Storage),
        Ok(None) => Err(AuthError::UnknownUser),
        Ok(Some(u)) => Ok(MeResp { id: u.id, username: u.username, email: u.email }),
    }
}

} // verus!
