//! Credentials and tokens: bcrypt password checking and HS256 bearer tokens.
//!
//! The hashing and signing themselves are done by the bcrypt and jsonwebtoken
//! crates; this module states what those calls return and makes the
//! authentication decisions on top of them.

use vstd::prelude::*;

use crate::model::User;

verus! {

/// The claims this relay signs into its bearer tokens and reads back out of
/// them: the subject identity's canonical text and an expiry instant (unix
/// seconds).
#[derive(Debug, PartialEq, Eq)]
pub struct Claims {
    pub sub: String,
    pub exp: u64,
}

/// The claims that HS256 decoding with `secret` recovers from `token` when
/// the signature and shape check out, or `None`; a function of the token and
/// secret texts alone. (Whether a token is *accepted* also depends on the
/// clock: its expiry is checked against the time of the call.)
pub uninterp spec fn jwt_claims(token: Seq<char>, secret: Seq<char>) -> Option<(Seq<char>, u64)>;

/// What `bcrypt::verify` says of `password` against the hash text `hash`:
/// whether they match, or `None` when the text is not a bcrypt hash; a
/// function of the two texts alone (the salt is part of the hash text).
pub uninterp spec fn bcrypt_accepts(password: Seq<char>, hash: Seq<char>) -> Option<bool>;

/// Relies on `jsonwebtoken::decode` with `Validation::new(Algorithm::HS256)`
/// (the claims object is read back through `serde_json::Value`): whatever it
/// accepts carries exactly the claims signed into the token for this secret.
/// Acceptance itself also depends on the clock (expiry), so nothing is
/// promised about when `Some` comes back.
#[verifier::external_body]
pub fn verify_jwt(token: &str, secret: &str) -> (r: Option<Claims>)
    ensures
        r matches Some(c) ==> jwt_claims(token@, secret@) == Some((c.sub@, c.exp)),
{
    let key = jsonwebtoken::DecodingKey::from_secret(secret.as_bytes());
    let validation = jsonwebtoken::Validation::new(jsonwebtoken::Algorithm::HS256);
    match jsonwebtoken::decode::<serde_json::Value>(token, &key, &validation) {
        Ok(data) => match (data.claims.get("sub"), data.claims.get("exp")) {
            (Some(sub), Some(exp)) => match (sub.as_str(), exp.as_u64()) {
                (Some(sub), Some(exp)) => Some(Claims { sub: sub.to_string(), exp }),
                _ => None,
            },
            _ => None,
        },
        Err(_) => None,
    }
}

/// Relies on `jsonwebtoken::encode` with the default header (HS256), the
/// claims built as a `serde_json::Value` object: the token it returns
/// decodes, under the same secret, back to exactly the claims signed into
/// it. Signing always succeeds: for an HMAC secret with HS256 every error
/// path of `encode` is unreachable (the key family matches the header, the
/// HMAC signer accepts any key length and cannot fail, and serializing the
/// header and a string/integer claims object is infallible).
#[verifier::external_body]
pub fn sign_jwt(sub: &str, exp: u64, secret: &str) -> (r: Option<String>)
    ensures
        r is Some,
        r matches Some(t) ==> jwt_claims(t@, secret@) == Some((sub@, exp)),
{
    let mut claims = serde_json::Map::new();
    claims.insert("sub".to_string(), serde_json::Value::from(sub));
    claims.insert("exp".to_string(), serde_json::Value::from(exp));
    let key = jsonwebtoken::EncodingKey::from_secret(secret.as_bytes());
    match jsonwebtoken::encode(&jsonwebtoken::Header::default(), &serde_json::Value::Object(claims), &key) {
        Ok(t) => Some(t),
        Err(_) => None,
    }
}

/// Relies on `bcrypt::verify`: deterministic in the password and hash texts.
#[verifier::external_body]
pub fn verify_password(password: &str, hash: &str) -> (r: Option<bool>)
    ensures
        r == bcrypt_accepts(password@, hash@),
{
    match bcrypt::verify(password, hash) {
        Ok(b) => Some(b),
        Err(_) => None,
    }
}

/// Relies on `bcrypt::hash` with `DEFAULT_COST`: the salted hash it returns
/// verifies against the password it was computed from.
#[verifier::external_body]
pub fn hash_password(password: &str) -> (r: Option<String>)
    ensures
        r matches Some(h) ==> bcrypt_accepts(password@, h@) == Some(true),
{
    match bcrypt::hash(password, bcrypt::DEFAULT_COST) {
        Ok(h) => Some(h),
        Err(_) => None,
    }
}

/// How long an issued token stays valid, in seconds.
pub const TOKEN_LIFETIME: u64 = 7200;

/// When a token issued at `now` expires.
pub open spec fn token_expiry(now: u64) -> u64 {
    if now + TOKEN_LIFETIME <= u64::MAX {
        (now + TOKEN_LIFETIME) as u64
    } else {
        u64::MAX
    }
}

/// Issues the bearer token for the identity whose canonical text is
/// `user_id`, valid for [`TOKEN_LIFETIME`] seconds from `now`.
pub fn generate_jwt(user_id: &str, secret: &str, now: u64) -> (r: String)
    ensures
        jwt_claims(r@, secret@) == Some((user_id@, token_expiry(now))),
{
    let exp: u64 = if now <= u64::MAX - TOKEN_LIFETIME {
        now + TOKEN_LIFETIME
    } else {
        u64::MAX
    };
    let token = sign_jwt(user_id, exp, secret);
    token.unwrap()
}

/// Why a login attempt was turned away.
#[derive(Debug, PartialEq, Eq)]
pub enum AuthFailure {
    /// No user goes by the supplied name.
    UserNotFound,
    /// The stored hash could not be checked (it is not a bcrypt hash).
    HashInvalid,
    /// The password does not match the stored hash.
    WrongPassword,
}

/// The login decision, given the user record the store found under the
/// supplied name (if any) and the supplied password: succeeds exactly when a
/// record was found and bcrypt accepts the password against its stored hash.
pub fn authenticate_user(found: Option<User>, password: &str) -> (r: Result<User, AuthFailure>)
    ensures
        match r {
            Ok(u) => found matches Some(f) && u == f && bcrypt_accepts(
                password@,
                f.password_hash@,
            ) == Some(true),
            Err(e) => match e {
                AuthFailure::UserNotFound => found is None,
                AuthFailure::HashInvalid => found matches Some(f) && bcrypt_accepts(
                    password@,
                    f.password_hash@,
                ) is None,
                AuthFailure::WrongPassword => found matches Some(f) && bcrypt_accepts(
                    password@,
                    f.password_hash@,
                ) == Some(false),
            },
        },
{
    match found {
        None => Err(AuthFailure::UserNotFound),
        Some(user) => match verify_password(password, user.password_hash.as_str()) {
            None => Err(AuthFailure::HashInvalid),
            Some(false) => Err(AuthFailure::WrongPassword),
            Some(true) => Ok(user),
        },
    }
}

} // verus!
