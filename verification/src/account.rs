//! Accounts: registering a user and logging one in.
//!
//! Both run against the identity store, which only the caller can reach. Each
//! is therefore cut at its store operations: a function takes what the
//! previous operation came to and says what to answer, or what to store next.

use crate::bearer::{bearer_header, bearer_value};
use crate::codec::{generate_jwt, issued_view, issuing, IssueError, DAY};
use crate::reply::{
    refusal_view, refuse, text_or_refusal, Refusal, RefusalView, BAD_REQUEST, INTERNAL_SERVER_ERROR,
    UNAUTHORIZED,
};
use crate::store::{LookupView, StoreLookup};
use crate::text::{blank, is_blank};
use argon2::{PasswordHasher, PasswordVerifier};
use vstd::prelude::*;

verus! {

/// The body of a login request.
#[derive(Debug)]
pub struct LoginRequest {
    pub email: String,
    pub password: String,
}

/// The body of a registration request.
#[derive(Debug)]
pub struct RegisterRequest {
    pub email: String,
    pub password: String,
    pub name: String,
}

/// The record to insert for a new user.
#[derive(Debug)]
pub struct NewUser {
    pub email: String,
    /// The password hash, a PHC string.
    pub password: String,
    pub name: String,
    /// The current token: a new user has none, so that no token validates
    /// before the first login.
    pub token: Option<String>,
}

/// What a successful login sends back.
#[derive(Debug)]
pub struct LoginSuccess {
    /// The value of the `Authorization` header.
    pub authorization: String,
    /// The value of the `Set-Cookie` header.
    pub cookie: String,
    pub message: String,
    pub token: String,
}

/// Whether Argon2 accepts `password` for the PHC string `hash`: the string
/// parses, and hashing the password with the parameters and the salt it names
/// gives the output it holds.
pub uninterp spec fn argon2_accepts(password: Seq<char>, hash: Seq<char>) -> bool;

#[verifier::external_type_specification]
#[verifier::external_body]
pub struct ExPasswordHashError(argon2::password_hash::Error);

/// Hashes a password with Argon2 under its default parameters and a salt
/// drawn from the operating system's generator (`SaltString::generate`,
/// `Argon2::hash_password`).
///
/// Trusted: which hash comes out is not said, the salt being random; but a
/// hash that comes out accepts the password it was made from. Verification
/// parses the parameters and the salt back out of the hash and computes the
/// same output from them.
#[verifier::external_body]
fn hash_password(password: &str) -> (r: Result<String, argon2::password_hash::Error>)
    ensures
        r matches Ok(h) ==> argon2_accepts(password@, h@),
{
    let salt = argon2::password_hash::SaltString::generate(&mut argon2::password_hash::rand_core::OsRng);
    let hasher = argon2::Argon2::default();
    let hashed = hasher.hash_password(password.as_bytes(), &salt)?.to_string();
    Ok(hashed)
}

/// Parses the stored hash (`PasswordHash::new`) and lets Argon2 verify the
/// password against it (`Argon2::verify_password`). A hash that does not
/// parse accepts nothing.
///
/// Trusted: the result is a function of the two texts.
#[verifier::external_body]
fn verify_password(password: &str, hashed_password: &str) -> (r: bool)
    ensures
        r == argon2_accepts(password@, hashed_password@),
{
    let verifier = argon2::Argon2::default();
    match argon2::PasswordHash::new(hashed_password) {
        Ok(parsed) => verifier.verify_password(password.as_bytes(), &parsed).is_ok(),
        Err(_) => false,
    }
}

/// The text every refusal of empty fields carries.
pub open spec fn empty_fields() -> RefusalView {
    RefusalView { status: BAD_REQUEST, message: "Email and password must not be empty"@ }
}

/// The text every refusal of wrong credentials carries, whether the user is
/// unknown or the password wrong.
pub open spec fn bad_credentials() -> RefusalView {
    RefusalView { status: UNAUTHORIZED, message: "Invalid email or password"@ }
}

/// Checks a login request before anything is looked up: neither field may be
/// blank.
pub fn login_service(payload: &LoginRequest) -> (r: Result<(), Refusal>)
    ensures
        refusal_view(r) == if blank(payload.email@) || blank(payload.password@) {
            Some(empty_fields())
        } else {
            None
        },
{
    if is_blank(payload.email.as_str()) || is_blank(payload.password.as_str()) {
        return Err(refuse(BAD_REQUEST, "Email and password must not be empty"));
    }
    Ok(())
}

/// Checks a registration request before anything is looked up: no field may
/// be blank.
pub fn register_service(payload: &RegisterRequest) -> (r: Result<(), Refusal>)
    ensures
        refusal_view(r) == if blank(payload.email@) || blank(payload.password@) || blank(
            payload.name@,
        ) {
            Some(empty_fields())
        } else {
            None
        },
{
    if is_blank(payload.email.as_str()) || is_blank(payload.password.as_str()) || is_blank(
        payload.name.as_str(),
    ) {
        return Err(refuse(BAD_REQUEST, "Email and password must not be empty"));
    }
    Ok(())
}

/// Why a login is turned down once the store has answered, if it is.
pub open spec fn login_refusal(password: Seq<char>, lookup: LookupView) -> Option<RefusalView> {
    match lookup {
        LookupView::Unavailable => Some(
            RefusalView { status: INTERNAL_SERVER_ERROR, message: "Database error"@ },
        ),
        LookupView::NotFound => Some(bad_credentials()),
        LookupView::Found(record) => if argon2_accepts(password, record.password_hash) {
            None
        } else {
            Some(bad_credentials())
        },
    }
}

/// Checks the password of a login request against the record that the store
/// returned for its email.
pub fn check_password(payload: &LoginRequest, lookup: &StoreLookup) -> (r: Result<(), Refusal>)
    ensures
        refusal_view(r) == login_refusal(payload.password@, lookup@),
{
    match lookup {
        StoreLookup::Unavailable => Err(refuse(INTERNAL_SERVER_ERROR, "Database error")),
        StoreLookup::NotFound => Err(refuse(UNAUTHORIZED, "Invalid email or password")),
        StoreLookup::Found(record) => {
            if verify_password(payload.password.as_str(), record.password_hash.as_str()) {
                Ok(())
            } else {
                Err(refuse(UNAUTHORIZED, "Invalid email or password"))
            }
        },
    }
}

/// The token to store for a login, or the refusal where none could be issued.
pub fn token_to_store(minted: Result<String, IssueError>) -> (r: Result<String, Refusal>)
    ensures
        text_or_refusal(r) == match issued_view(minted) {
            Ok(t) => Ok::<Seq<char>, RefusalView>(t),
            Err(_) => Err::<Seq<char>, RefusalView>(
                RefusalView { status: INTERNAL_SERVER_ERROR, message: "Failed to generate token"@ },
            ),
        },
{
    match minted {
        Ok(t) => Ok(t),
        Err(_) => Err(refuse(INTERNAL_SERVER_ERROR, "Failed to generate token")),
    }
}

/// Logs a user in, given what the store returned for the request's email.
///
/// Without a record, or with a password that the record's hash does not
/// accept, the answer is the same refusal. Otherwise a token is issued for
/// one day from now: it is what the caller stores as the user's current token
/// before it answers with [`login_reply`].
pub fn login(payload: &LoginRequest, lookup: &StoreLookup, secret: &[u8]) -> (r: Result<
    String,
    Refusal,
>)
    ensures
        match login_refusal(payload.password@, lookup@) {
            Some(refusal) => text_or_refusal(r) == Err::<Seq<char>, RefusalView>(refusal),
            None => exists|now: u64|
                now <= i64::MAX && text_or_refusal(r) == match #[trigger] issuing(
                    payload.email@,
                    DAY,
                    now,
                    secret@,
                ) {
                    Ok(t) => Ok::<Seq<char>, RefusalView>(t),
                    Err(_) => Err::<Seq<char>, RefusalView>(
                        RefusalView {
                            status: INTERNAL_SERVER_ERROR,
                            message: "Failed to generate token"@,
                        },
                    ),
                },
        },
{
    match check_password(payload, lookup) {
        Err(refusal) => Err(refusal),
        Ok(()) => {
            let minted = generate_jwt(payload.email.as_str(), secret);
            token_to_store(minted)
        },
    }
}

/// The `Set-Cookie` value that carries `token` for one day.
pub open spec fn cookie_value(token: Seq<char>) -> Seq<char> {
    "token="@ + token + "; HttpOnly; Path=/; Max-Age=86400; SameSite=Strict"@
}

/// Answers a login once the store was asked to keep the token: `written`
/// says whether it did.
pub fn login_reply(token: String, written: bool) -> (r: Result<LoginSuccess, Refusal>)
    ensures
        !written ==> refusal_view(r) == Some(
            RefusalView {
                status: INTERNAL_SERVER_ERROR,
                message: "Failed to save token to database"@,
            },
        ),
        written ==> (r matches Ok(s) && s.authorization@ == bearer_value(token@) && s.cookie@
            == cookie_value(token@) && s.message@ == "Login successful"@ && s.token@ == token@),
{
    if !written {
        return Err(refuse(INTERNAL_SERVER_ERROR, "Failed to save token to database"));
    }
    let authorization: String = bearer_header(token.as_str());
    let mut cookie: String = "token=".to_owned();
    cookie.append(token.as_str());
    cookie.append("; HttpOnly; Path=/; Max-Age=86400; SameSite=Strict");
    Ok(LoginSuccess { authorization, cookie, message: "Login successful".to_owned(), token })
}

/// Why a registration is turned down once the store has answered, if it is.
pub open spec fn register_refusal(lookup: LookupView) -> Option<RefusalView> {
    match lookup {
        LookupView::Unavailable => Some(
            RefusalView { status: INTERNAL_SERVER_ERROR, message: "Database error"@ },
        ),
        LookupView::Found(_) => Some(
            RefusalView { status: BAD_REQUEST, message: "User already exists"@ },
        ),
        LookupView::NotFound => None,
    }
}

/// Checks that the email of a registration is still free.
pub fn check_available(lookup: &StoreLookup) -> (r: Result<(), Refusal>)
    ensures
        refusal_view(r) == register_refusal(lookup@),
{
    match lookup {
        StoreLookup::Unavailable => Err(refuse(INTERNAL_SERVER_ERROR, "Database error")),
        StoreLookup::Found(_) => Err(refuse(BAD_REQUEST, "User already exists")),
        StoreLookup::NotFound => Ok(()),
    }
}

/// The record for a new user, given the hash of the password, or the refusal
/// where hashing failed.
pub fn new_user(payload: RegisterRequest, hashed: Option<String>) -> (r: Result<NewUser, Refusal>)
    ensures
        match hashed {
            Some(h) => r matches Ok(u) && u.email@ == payload.email@ && u.name@ == payload.name@
                && u.password@ == h@ && u.token is None,
            None => refusal_view(r) == Some(
                RefusalView { status: INTERNAL_SERVER_ERROR, message: "Failed to hash password"@ },
            ),
        },
{
    match hashed {
        Some(h) => Ok(
            NewUser { email: payload.email, password: h, name: payload.name, token: None },
        ),
        None => Err(refuse(INTERNAL_SERVER_ERROR, "Failed to hash password")),
    }
}

/// Registers a user, given what the store returned for the request's email.
///
/// An email that is taken is refused. Otherwise the password is hashed under
/// a fresh salt, and the result is the record for the caller to insert before
/// it answers with [`register_reply`]. What the record holds as its password
/// is a hash that accepts the password of the request.
pub fn register(payload: RegisterRequest, lookup: &StoreLookup) -> (r: Result<NewUser, Refusal>)
    ensures
        match register_refusal(lookup@) {
            Some(refusal) => refusal_view(r) == Some(refusal),
            None => match r {
                Ok(u) => u.email@ == payload.email@ && u.name@ == payload.name@
                    && argon2_accepts(payload.password@, u.password@) && u.token is None,
                Err(e) => e@ == (RefusalView {
                    status: INTERNAL_SERVER_ERROR,
                    message: "Failed to hash password"@,
                }),
            },
        },
{
    match check_available(lookup) {
        Err(refusal) => Err(refusal),
        Ok(()) => {
            let hashed: Option<String> = match hash_password(payload.password.as_str()) {
                Ok(h) => Some(h),
                Err(_) => None,
            };
            new_user(payload, hashed)
        },
    }
}

/// Answers a registration once the store was asked to insert the record:
/// `inserted` says whether it did.
pub fn register_reply(inserted: bool) -> (r: Result<String, Refusal>)
    ensures
        text_or_refusal(r) == if inserted {
            Ok::<Seq<char>, RefusalView>("User registered successfully"@)
        } else {
            Err::<Seq<char>, RefusalView>(
                RefusalView { status: INTERNAL_SERVER_ERROR, message: "Failed to create user"@ },
            )
        },
{
    if inserted {
        Ok("User registered successfully".to_owned())
    } else {
        Err(refuse(INTERNAL_SERVER_ERROR, "Failed to create user"))
    }
}

} // verus!
