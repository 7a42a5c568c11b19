//! Login: looking up the account by email, checking the password, and
//! issuing a session token.

use vstd::prelude::*;
use crate::auth::{AuthBody, AuthPayload, TOKEN_LIFETIME_SECS, hs256_claims, hs256_token, password_check, sign_token, verify_password};
use crate::decimal::{decimal, u64_to_decimal};
use crate::errors::AuthError;
use crate::models::{Role, User, role_text};

verus! {

/// A login that waits for the store to look up the account by email.
pub struct LoginLookup {
    payload: AuthPayload,
}

/// A login whose password was accepted, waiting for a token to be signed
/// for the account.
pub struct TokenRequest {
    user_id: String,
    role: Role,
}

/// What a login answers once the account lookup gave `user`: no account
/// is `WrongCredentials`; a malformed stored hash is `InvalidHashFormat`;
/// a wrong password is `WrongCredentials`; otherwise a token is due.
pub open spec fn login_decision(password: Seq<char>, user: Option<User>) -> Result<(), AuthError> {
    match user {
        None => Err(AuthError::WrongCredentials),
        Some(u) => match password_check(password, u.password_hash@) {
            Ok(_) => Ok(()),
            Err(AuthError::InvalidHashFormat) => Err(AuthError::InvalidHashFormat),
            Err(_) => Err(AuthError::WrongCredentials),
        },
    }
}

/// Starts a login with `payload`.
pub fn login(payload: AuthPayload) -> (next: LoginLookup)
    ensures
        next.request() == payload,
{
    LoginLookup { payload }
}

impl LoginLookup {
    /// The login request.
    pub closed spec fn request(self) -> AuthPayload {
        self.payload
    }

    /// The email whose account the store looks up.
    pub fn email(&self) -> (email: &str)
        ensures
            email@ == self.request().email@,
    {
        self.payload.email.as_str()
    }

    /// Takes the account that the lookup found, if any, and checks the
    /// password against its stored hash. On success the token is due for
    /// the account's decimal id and role.
    pub fn found(self, user: Option<User>) -> (r: Result<TokenRequest, AuthError>)
        ensures
            r is Ok <==> login_decision(self.request().password@, user) is Ok,
            r matches Err(e) ==> login_decision(self.request().password@, user) == Err::<(), AuthError>(e),
            r matches Ok(next) ==> (user matches Some(u) && next.subject() == decimal(u.id as nat)
                && next.token_role() == u.role),
            user is None ==> r == Err::<TokenRequest, AuthError>(AuthError::WrongCredentials),
            (user matches Some(u) && password_check(self.request().password@, u.password_hash@)
                == Ok::<bool, AuthError>(true)) ==> r is Ok,
            (user matches Some(u) && password_check(self.request().password@, u.password_hash@)
                == Err::<bool, AuthError>(AuthError::InvalidHashFormat)) ==> r == Err::<
                TokenRequest,
                AuthError,
            >(AuthError::InvalidHashFormat),
            (user matches Some(u) && password_check(self.request().password@, u.password_hash@)
                == Err::<bool, AuthError>(AuthError::PasswordHashDontMatch)) ==> r == Err::<
                TokenRequest,
                AuthError,
            >(AuthError::WrongCredentials),
    {
        match user {
            None => Err(AuthError::WrongCredentials),
            Some(u) => {
                match verify_password(self.payload.password.as_str(), u.password_hash.as_str()) {
                    Ok(_) => Ok(TokenRequest { user_id: u64_to_decimal(u.id), role: u.role }),
                    Err(AuthError::InvalidHashFormat) => Err(AuthError::InvalidHashFormat),
                    Err(_) => Err(AuthError::WrongCredentials),
                }
            },
        }
    }
}

impl TokenRequest {
    /// The subject of the token: the account's decimal id.
    pub closed spec fn subject(self) -> Seq<char> {
        self.user_id@
    }

    /// The role that the token carries.
    pub closed spec fn token_role(self) -> Role {
        self.role
    }

    /// The subject of the token to sign.
    pub fn user_id(&self) -> (id: &str)
        ensures
            id@ == self.subject(),
    {
        self.user_id.as_str()
    }

    /// The company of the token to sign.
    pub fn company(&self) -> (name: &'static str)
        ensures
            name@ == "Akatsuki"@,
    {
        "Akatsuki"
    }

    /// The role of the token to sign.
    pub fn role(&self) -> (role: Role)
        ensures
            role == self.token_role(),
    {
        self.role
    }

    /// Signs the token at `now` (seconds since the epoch) with the HMAC
    /// secret `secret` and answers the login with it as a bearer token. The
    /// token carries the account's decimal id, company `Akatsuki`, the
    /// account's role, and expires one day after `now`; decoding it under
    /// the same secret gives these claims back.
    pub fn finish(self, now: u64, secret: &[u8]) -> (r: Result<AuthBody, AuthError>)
        requires
            now + TOKEN_LIFETIME_SECS <= u64::MAX,
        ensures
            r matches Ok(body) && body.token_type@ == "Bearer"@ && body.access_token@ == hs256_token(
                self.subject(),
                "Akatsuki"@,
                role_text(self.token_role()),
                (now + TOKEN_LIFETIME_SECS) as u64,
                secret@,
            ),
            r matches Ok(body) && hs256_claims(body.access_token@, secret@) == Some(
                (self.subject(), "Akatsuki"@, role_text(self.token_role()), (now + TOKEN_LIFETIME_SECS) as u64),
            ),
    {
        let company = String::from_str("Akatsuki");
        match sign_token(self.user_id, company, self.role, now, secret) {
            Ok(token) => Ok(AuthBody::new(token)),
            Err(e) => Err(e),
        }
    }
}

/// Login depends only on the account existing and on the password check:
/// no account is `WrongCredentials`; a password that checks against the
/// stored hash logs in, whatever the account's role; a malformed stored hash
/// is `InvalidHashFormat`, and a wrong password `WrongCredentials`.
pub proof fn lemma_login_needs_only_the_password(password: Seq<char>, u: User, role: Role)
    ensures
        login_decision(password, None) == Err::<(), AuthError>(AuthError::WrongCredentials),
        password_check(password, u.password_hash@) == Ok::<bool, AuthError>(true)
            ==> login_decision(password, Some(u)) == Ok::<(), AuthError>(()),
        password_check(password, u.password_hash@) == Err::<bool, AuthError>(
            AuthError::InvalidHashFormat,
        ) ==> login_decision(password, Some(u)) == Err::<(), AuthError>(AuthError::InvalidHashFormat),
        password_check(password, u.password_hash@) == Err::<bool, AuthError>(
            AuthError::PasswordHashDontMatch,
        ) ==> login_decision(password, Some(u)) == Err::<(), AuthError>(AuthError::WrongCredentials),
        login_decision(password, Some(u)) == login_decision(password, Some(User { role, ..u })),
{
}

} // verus!
