//! Credentials and tokens: password hashing and checking with Argon2, the
//! claims that a session token carries, and role checks.

use vstd::prelude::*;
use vstd::string::StringSliceAdditionalSpecFns;
use argon2::password_hash::{Salt, SaltString};
use argon2::{Argon2, PasswordHash, PasswordHasher, PasswordVerifier};
use crate::errors::{AppError, AuthError, app_error_text};
use crate::models::{Role, role_text};

verus! {

/// Failure of Argon2 password hashing.
#[verifier::external_type_specification]
#[verifier::external_body]
pub struct ExPasswordHashError(argon2::password_hash::Error);

/// Whether `PasswordHash::new` accepts `hash` as a PHC string.
pub uninterp spec fn phc_string_parses(hash: Seq<char>) -> bool;

/// Whether Argon2 (`verify_password` of the default instance) accepts the
/// UTF-8 bytes of `password` for the PHC string `hash`.
pub uninterp spec fn argon2_accepts(password: Seq<char>, hash: Seq<char>) -> bool;

/// The PHC string that the default Argon2 instance makes of the UTF-8 bytes
/// of `password` with the B64 salt `salt`.
pub uninterp spec fn argon2_phc(password: Seq<char>, salt: Seq<char>) -> Seq<char>;

/// A character of the standard Base64 alphabet.
pub open spec fn is_b64_char(c: char) -> bool {
    ('A' <= c && c <= 'Z') || ('a' <= c && c <= 'z') || ('0' <= c && c <= '9') || c == '+' || c
        == '/'
}

/// The unpadded standard Base64 text of sixteen bytes: twenty-two Base64
/// characters, the last of which carries four zero bits.
pub open spec fn is_encoded_salt(salt: Seq<char>) -> bool {
    &&& salt.len() == 22
    &&& forall|i: int| 0 <= i < 22 ==> #[trigger] is_b64_char(salt[i])
    &&& (salt[21] == 'A' || salt[21] == 'Q' || salt[21] == 'g' || salt[21] == 'w')
}

/// A fresh random salt from `SaltString::generate` with the operating
/// system's generator: the unpadded Base64 text of sixteen random bytes.
/// Which bytes is not stated: they are random.
#[verifier::external_body]
fn generate_salt() -> (salt: String)
    ensures
        is_encoded_salt(salt@),
{
    SaltString::generate(&mut rand::rngs::OsRng).as_str().to_string()
}

/// `Argon2::default().hash_password` on the bytes of `password` with the B64
/// salt `salt`, rendered as a PHC string. Claims of a success: the string is
/// the named result for these arguments, `PasswordHash::new` parses it, and
/// verification accepts `password` for it (the crate's documented round
/// trip), and the string names the Argon2id algorithm first (the default
/// algorithm, written `$argon2id$` at the front of the PHC string). It
/// succeeds for the Base64 text of a sixteen-byte salt and a
/// password of at most `0xFFFF_FFFF` bytes (the salt then decodes, and the
/// lengths pass Argon2's input checks); which other inputs fail is not
/// stated.
#[verifier::external_body]
fn argon2_hash_phc(password: &str, salt: &str) -> (r: Result<String, argon2::password_hash::Error>)
    ensures
        (is_encoded_salt(salt@) && password.spec_bytes().len() <= 0xFFFF_FFFF) ==> r is Ok,
        r matches Ok(h) ==> {
            &&& h@ == argon2_phc(password@, salt@)
            &&& is_argon2id_phc(h@)
            &&& phc_string_parses(h@)
            &&& argon2_accepts(password@, h@)
        },
{
    let salt = Salt::from_b64(salt)?;
    match Argon2::default().hash_password(password.as_bytes(), salt) {
        Ok(h) => Ok(h.to_string()),
        Err(e) => Err(e),
    }
}

/// A PHC string of the Argon2id algorithm: it starts with `$argon2id$`.
pub open spec fn is_argon2id_phc(hash: Seq<char>) -> bool {
    hash.len() >= 10 && hash.subrange(0, 10) == "$argon2id$"@
}

/// Whether `PasswordHash::new` parses `hash`.
#[verifier::external_body]
fn phc_parses(hash: &str) -> (ok: bool)
    ensures
        ok == phc_string_parses(hash@),
{
    PasswordHash::new(hash).is_ok()
}

/// `Argon2::default().verify_password` of the bytes of `password` against
/// the parsed PHC string `hash`: whether it succeeds.
#[verifier::external_body]
fn argon2_verify(password: &str, hash: &str) -> (ok: bool)
    requires
        phc_string_parses(hash@),
    ensures
        ok == argon2_accepts(password@, hash@),
{
    match PasswordHash::new(hash) {
        Ok(parsed) => Argon2::default().verify_password(password.as_bytes(), &parsed).is_ok(),
        Err(_) => false,
    }
}

/// The text (`Display`) of a hashing failure. Nothing is stated of it.
#[verifier::external_body]
pub(crate) fn hash_error_text(e: &argon2::password_hash::Error) -> (text: String) {
    e.to_string()
}

/// Hashes `password` with Argon2 and a fresh random salt into a PHC string.
/// It succeeds for every password of at most `0xFFFF_FFFF` bytes. A hash
/// that comes back is Argon2's hash of this password under an encoded
/// sixteen-byte salt, and
/// one that `verify_password` accepts for the same password; it is an
/// Argon2id PHC string.
pub fn hash_password(password: &str) -> (r: Result<String, argon2::password_hash::Error>)
    ensures
        password.spec_bytes().len() <= 0xFFFF_FFFF ==> r is Ok,
        r matches Ok(h) ==> exists|salt: Seq<char>| is_encoded_salt(salt) && h@ == argon2_phc(password@, salt),
        r matches Ok(h) ==> is_argon2id_phc(h@),
        r matches Ok(h) ==> password_check(password@, h@) == Ok::<bool, AuthError>(true),
{
    let salt = generate_salt();
    let r = argon2_hash_phc(password, salt.as_str());
    assert(r matches Ok(h) ==> is_encoded_salt(salt@) && h@ == argon2_phc(password@, salt@));
    r
}

/// What checking `password` against the stored PHC string `hash` gives: a
/// malformed hash is `InvalidHashFormat`, a wrong password
/// `PasswordHashDontMatch`, and a right one `Ok(true)`.
pub open spec fn password_check(password: Seq<char>, hash: Seq<char>) -> Result<bool, AuthError> {
    if !phc_string_parses(hash) {
        Err(AuthError::InvalidHashFormat)
    } else if argon2_accepts(password, hash) {
        Ok(true)
    } else {
        Err(AuthError::PasswordHashDontMatch)
    }
}

/// Checks `password` against the stored PHC string `hashed_password`.
/// It never answers `Ok(false)`: a mismatch is an error.
pub fn verify_password(password: &str, hashed_password: &str) -> (r: Result<bool, AuthError>)
    ensures
        r == password_check(password@, hashed_password@),
        r != Ok::<bool, AuthError>(false),
{
    if !phc_parses(hashed_password) {
        return Err(AuthError::InvalidHashFormat);
    }
    if argon2_verify(password, hashed_password) {
        Ok(true)
    } else {
        Err(AuthError::PasswordHashDontMatch)
    }
}

/// How long a session token stays valid, in seconds: one day.
pub const TOKEN_LIFETIME_SECS: u64 = 86400;

/// The claims that a session token carries.
#[derive(Clone, Debug)]
pub struct Claims {
    pub sub: String,
    pub company: String,
    pub role: Role,
    pub exp: u64,
}

/// Builds the claims of a token issued at `now` (seconds since the epoch)
/// to `user_id`: it expires one day later.
pub fn issue_claims(user_id: String, company: String, role: Role, now: u64) -> (c: Claims)
    requires
        now + TOKEN_LIFETIME_SECS <= u64::MAX,
    ensures
        c.sub == user_id,
        c.company == company,
        c.role == role,
        c.exp == now + TOKEN_LIFETIME_SECS,
{
    Claims { sub: user_id, company, role, exp: now + TOKEN_LIFETIME_SECS }
}

/// The HS256 JSON Web Token that `jsonwebtoken::encode` makes, with the
/// default header, of the claims object with fields sub, company, role and exp, in that order, under
/// the secret `secret`.
pub uninterp spec fn hs256_token(sub: Seq<char>, company: Seq<char>, role: Seq<char>, exp: u64, secret: Seq<u8>) -> Seq<char>;

/// `jsonwebtoken::encode` with the default header (HS256) of the JSON
/// object with the fields sub, company, role and exp, in that order (the
/// map keeps insertion order), under an HMAC key made from
/// `secret`. Claimed: it succeeds (the key family matches HS256, a JSON
/// value always serializes, and HMAC signing cannot fail), and the token is
/// the named result of these arguments. Decoding the token under the same
/// secret gives the four fields back: the default validation accepts its
/// HS256 header, its signature and its `exp` claim, and it has no `aud`.
#[verifier::external_body]
fn jwt_encode(sub: &str, company: &str, role: &str, exp: u64, secret: &[u8]) -> (r: Option<String>)
    ensures
        r is Some,
        r matches Some(t) ==> t@ == hs256_token(sub@, company@, role@, exp, secret@),
        r matches Some(t) ==> hs256_claims(t@, secret@) == Some((sub@, company@, role@, exp)),
{
    let mut claims = serde_json::Map::new();
    claims.insert("sub".to_string(), serde_json::Value::from(sub));
    claims.insert("company".to_string(), serde_json::Value::from(company));
    claims.insert("role".to_string(), serde_json::Value::from(role));
    claims.insert("exp".to_string(), serde_json::Value::from(exp));
    let key = jsonwebtoken::EncodingKey::from_secret(secret);
    jsonwebtoken::encode(&jsonwebtoken::Header::default(), &serde_json::Value::Object(claims), &key).ok()
}

/// What `jsonwebtoken::decode` with the default validation but the expiry
/// check switched off (HS256 only, signature checked, an `exp` claim
/// required, no `aud` claim allowed) finds in `token` under `secret`, read
/// as the string fields sub, company and role and the unsigned field exp;
/// nothing when decoding fails or a field is missing or of another type.
pub uninterp spec fn hs256_claims(token: Seq<char>, secret: Seq<u8>) -> Option<(Seq<char>, Seq<char>, Seq<char>, u64)>;

/// `jsonwebtoken::decode` of `token` under an HMAC key made from `secret`,
/// with the default validation but without the expiry check (which would
/// read the clock), and the fields sub, company, role and exp of the claims.
/// Claimed: the result is the named result of these arguments.
#[verifier::external_body]
fn jwt_decode(token: &str, secret: &[u8]) -> (r: Option<(String, String, String, u64)>)
    ensures
        r is Some <==> hs256_claims(token@, secret@) is Some,
        r matches Some(c) ==> hs256_claims(token@, secret@) == Some((c.0@, c.1@, c.2@, c.3)),
{
    let mut rules = jsonwebtoken::Validation::default();
    rules.validate_exp = false;
    let key = jsonwebtoken::DecodingKey::from_secret(secret);
    let claims = jsonwebtoken::decode::<serde_json::Value>(token, &key, &rules).ok()?.claims;
    let sub = claims.get("sub")?.as_str()?.to_string();
    let company = claims.get("company")?.as_str()?.to_string();
    let role = claims.get("role")?.as_str()?.to_string();
    let exp = claims.get("exp")?.as_u64()?;
    Some((sub, company, role, exp))
}

/// How long after its `exp` a token is still accepted, in seconds.
pub const TOKEN_LEEWAY_SECS: u64 = 60;

/// The role that a role name spells, if any.
pub open spec fn role_named(name: Seq<char>) -> Option<Role> {
    if name == "User"@ {
        Some(Role::User)
    } else if name == "Admin"@ {
        Some(Role::Admin)
    } else if name == "Owner"@ {
        Some(Role::Owner)
    } else {
        None
    }
}

/// The claims that a bearer token proves at time `now` (seconds since the
/// epoch): those that decoding under `secret` finds, when the role is one
/// of the known roles and the token expired at most `TOKEN_LEEWAY_SECS`
/// ago; nothing otherwise.
pub open spec fn token_verdict(token: Seq<char>, secret: Seq<u8>, now: u64) -> Option<(Seq<char>, Seq<char>, Role, u64)> {
    match hs256_claims(token, secret) {
        Some(c) => match role_named(c.2) {
            Some(role) => if now <= c.3 + TOKEN_LEEWAY_SECS {
                Some((c.0, c.1, role, c.3))
            } else {
                None
            },
            None => None,
        },
        None => None,
    }
}

/// The role that `name` spells.
fn role_from_name(name: &String) -> (r: Option<Role>)
    ensures
        r == role_named(name@),
{
    if *name == String::from_str("User") {
        Some(Role::User)
    } else if *name == String::from_str("Admin") {
        Some(Role::Admin)
    } else if *name == String::from_str("Owner") {
        Some(Role::Owner)
    } else {
        None
    }
}

/// Checks a bearer token at time `now` (seconds since the epoch) against
/// the HMAC secret `secret` and rebuilds its claims: the signature must
/// hold, the claims must carry a known role, and the token may have expired
/// at most `TOKEN_LEEWAY_SECS` ago. Any failure is `InvalidToken`.
pub fn verify_token(token: &str, secret: &[u8], now: u64) -> (r: Result<Claims, AuthError>)
    ensures
        r is Ok <==> token_verdict(token@, secret@, now) is Some,
        r matches Ok(c) ==> token_verdict(token@, secret@, now) == Some((c.sub@, c.company@, c.role, c.exp)),
        r matches Err(e) ==> e == AuthError::InvalidToken,
{
    match jwt_decode(token, secret) {
        None => Err(AuthError::InvalidToken),
        Some((sub, company, role_name, exp)) => {
            match role_from_name(&role_name) {
                None => Err(AuthError::InvalidToken),
                Some(role) => {
                    if now > TOKEN_LEEWAY_SECS && exp < now - TOKEN_LEEWAY_SECS {
                        Err(AuthError::InvalidToken)
                    } else {
                        Ok(Claims { sub, company, role, exp })
                    }
                },
            }
        },
    }
}

/// A role name read back gives the role.
pub proof fn lemma_role_named_text(role: Role)
    ensures
        role_named(role_text(role)) == Some(role),
{
    reveal_strlit("User");
    reveal_strlit("Admin");
    reveal_strlit("Owner");
    assert("User"@ != "Admin"@) by {
        assert("User"@.len() != "Admin"@.len());
    }
    assert("User"@ != "Owner"@) by {
        assert("User"@.len() != "Owner"@.len());
    }
    assert("Admin"@ != "Owner"@) by {
        assert("Admin"@[0] != "Owner"@[0]);
    }
}

/// A token issued with the claims `sub`, `company`, `role`, expiring at
/// `exp` (as `sign_token` issues it: decoding gives these claims back)
/// proves exactly these claims at every time up to `TOKEN_LEEWAY_SECS`
/// after `exp`, and nothing afterwards.
pub proof fn lemma_issued_token_verifies(
    token: Seq<char>,
    secret: Seq<u8>,
    sub: Seq<char>,
    company: Seq<char>,
    role: Role,
    exp: u64,
    now: u64,
)
    requires
        hs256_claims(token, secret) == Some((sub, company, role_text(role), exp)),
    ensures
        now <= exp + TOKEN_LEEWAY_SECS ==> token_verdict(token, secret, now) == Some(
            (sub, company, role, exp),
        ),
        now > exp + TOKEN_LEEWAY_SECS ==> token_verdict(token, secret, now) is None,
{
    lemma_role_named_text(role);
}

/// Signs a session token for `user_id` issued at `now` (seconds since the
/// epoch) with the HMAC secret `secret`: an HS256 token of the claims that
/// `issue_claims` builds, expiring one day after `now`. Decoding it under
/// the same secret gives these claims back.
pub fn sign_token(user_id: String, company: String, role: Role, now: u64, secret: &[u8]) -> (r: Result<String, AuthError>)
    requires
        now + TOKEN_LIFETIME_SECS <= u64::MAX,
    ensures
        r matches Ok(t) && t@ == hs256_token(
            user_id@,
            company@,
            role_text(role),
            (now + TOKEN_LIFETIME_SECS) as u64,
            secret@,
        ),
        r matches Ok(t) && hs256_claims(t@, secret@) == Some(
            (user_id@, company@, role_text(role), (now + TOKEN_LIFETIME_SECS) as u64),
        ),
{
    let claims = issue_claims(user_id, company, role, now);
    match jwt_encode(claims.sub.as_str(), claims.company.as_str(), claims.role.name(), claims.exp, secret) {
        Some(token) => Ok(token),
        None => Err(AuthError::TokenCreation),
    }
}

impl Claims {
    /// The human-readable summary of the claims: `ID: <sub>` and
    /// `Company: <company>` on two lines.
    pub fn describe(&self) -> (text: String)
        ensures
            text@ == "ID: "@ + self.sub@ + "\nCompany: "@ + self.company@,
    {
        let mut text = String::from_str("ID: ");
        text.append(self.sub.as_str());
        text.append("\nCompany: ");
        text.append(self.company.as_str());
        text
    }
}

/// The answer to a successful login.
#[derive(Clone, Debug)]
pub struct AuthBody {
    pub access_token: String,
    pub token_type: String,
}

impl AuthBody {
    /// Wraps a bearer token.
    pub fn new(access_token: String) -> (body: Self)
        ensures
            body.access_token == access_token,
            body.token_type@ == "Bearer"@,
    {
        AuthBody { access_token, token_type: String::from_str("Bearer") }
    }
}

/// Body of a login request.
#[derive(Clone, Debug)]
pub struct AuthPayload {
    pub email: String,
    pub password: String,
}

/// Lets a request through only when its token carries `required_role`;
/// otherwise it is refused with `Forbidden("Forbidden")`.
pub fn require_role(required_role: Role, claims: &Claims) -> (r: Result<(), AppError>)
    ensures
        r is Ok <==> claims.role == required_role,
        r matches Err(e) ==> e is Forbidden && app_error_text(e) == "Forbidden"@,
{
    if claims.role == required_role {
        Ok(())
    } else {
        Err(AppError::Forbidden(String::from_str("Forbidden")))
    }
}

} // verus!
