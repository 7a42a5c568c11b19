//! Account routes: greeting, creation, profile update and deletion. A
//! handler that talks to the store is split into stages; each stage says
//! which store step comes next, and takes that step's outcome to decide the
//! following stage or the reply.

use vstd::prelude::*;
use crate::auth::{Claims, argon2_phc, hash_password, hash_error_text, is_argon2id_phc, is_encoded_salt, password_check};
use vstd::utf8::encode_utf8;
use crate::decimal::{decimal, parse_u64, parse_u64_spec, push_decimal, lemma_parse_renders_back};
use crate::errors::{ApiResponse, AppError, AuthError, app_error_text};
use crate::models::{CreateUser, NewUser, Role, Pagination, PageWindow, UpdateUser, offset_fits, page_offset, requested_page, requested_per_page};
use crate::validation::{validator_accepts_email, creation_is_valid, creation_report_matches, update_is_valid, update_report_matches, validate_create_user, validate_update_user};

verus! {

/// The users section: status 200 with its description.
pub fn about() -> (r: (u16, &'static str))
    ensures
        r.0 == 200,
        r.1@ == "I'm the user"@,
{
    (200, "I'm the user")
}

/// Greets `name`: status 200, `Hello <name>`.
pub fn greet_user(name: &str) -> (r: ApiResponse)
    ensures
        r matches ApiResponse::Message(code, text) && code == 200 && text@ == "Hello "@ + name@,
{
    let mut text = String::from_str("Hello ");
    text.append(name);
    ApiResponse::Message(200, text)
}

/// The account id that a token subject names, if it is a decimal `u64`.
pub open spec fn subject_id(sub: Seq<char>) -> Option<u64> {
    parse_u64_spec(sub)
}

/// The refusal text of a profile change that the token does not own.
pub open spec fn ownership_refusal(sub: Seq<char>, denial: Seq<char>) -> Seq<char> {
    if subject_id(sub) is None {
        "Invalid user ID"@
    } else {
        denial
    }
}

/// Only the account that the token names may change profile `id`.
fn check_profile_owner(claims: &Claims, id: u64, denial: &'static str) -> (r: Result<(), AppError>)
    ensures
        r is Ok <==> subject_id(claims.sub@) == Some(id),
        r matches Err(e) ==> e is Forbidden && app_error_text(e) == ownership_refusal(
            claims.sub@,
            denial@,
        ),
{
    match parse_u64(claims.sub.as_str()) {
        None => Err(AppError::Forbidden(String::from_str("Invalid user ID"))),
        Some(auth_id) => {
            if auth_id != id {
                Err(AppError::Forbidden(String::from_str(denial)))
            } else {
                Ok(())
            }
        },
    }
}

/// The reply text `<prefix><id>`.
fn text_with_id(prefix: &str, id: u64) -> (text: String)
    ensures
        text@ == prefix@ + decimal(id as nat),
{
    let mut text = String::from_str(prefix);
    push_decimal(&mut text, id);
    text
}

/// A deletion that waits for the store to look up account `id`.
pub struct DeleteLookup {
    id: u64,
}

/// A deletion of an existing account `id`, waiting for the store to delete
/// it.
pub struct DeleteWrite {
    id: u64,
}

/// Starts deleting profile `id` on behalf of `claims`: only the account
/// itself may delete it.
pub fn delete_user(claims: &Claims, id: u64) -> (r: Result<DeleteLookup, AppError>)
    ensures
        r is Ok <==> subject_id(claims.sub@) == Some(id),
        r matches Ok(next) ==> next.target() == id,
        r matches Err(e) ==> e is Forbidden && app_error_text(e) == ownership_refusal(
            claims.sub@,
            "You do not have permission to delete this profile"@,
        ),
{
    match check_profile_owner(claims, id, "You do not have permission to delete this profile") {
        Ok(()) => Ok(DeleteLookup { id }),
        Err(e) => Err(e),
    }
}

impl DeleteLookup {
    /// The account to look up.
    pub closed spec fn target(self) -> u64 {
        self.id
    }

    /// The id of the account to look up.
    pub fn user_id(&self) -> (id: u64)
        ensures
            id == self.target(),
    {
        self.id
    }

    /// Takes whether the lookup found the account: a missing account is
    /// `UserNotFound("User not found")`.
    pub fn found(self, found: bool) -> (r: Result<DeleteWrite, AppError>)
        ensures
            r is Ok <==> found,
            r matches Ok(next) ==> next.target() == self.target(),
            r matches Err(e) ==> e is UserNotFound && app_error_text(e) == "User not found"@,
    {
        if found {
            Ok(DeleteWrite { id: self.id })
        } else {
            Err(AppError::UserNotFound(String::from_str("User not found")))
        }
    }
}

impl DeleteWrite {
    /// The account to delete.
    pub closed spec fn target(self) -> u64 {
        self.id
    }

    /// The id of the account to delete.
    pub fn user_id(&self) -> (id: u64)
        ensures
            id == self.target(),
    {
        self.id
    }

    /// Takes the outcome of the deletion (a store failure as its text): the
    /// reply is status 200, `Deleted user: <id>`.
    pub fn finish(self, written: Result<(), String>) -> (r: Result<ApiResponse, AppError>)
        ensures
            written is Ok ==> (r matches Ok(ApiResponse::Message(code, text)) && code == 200
                && text@ == "Deleted user: "@ + decimal(self.target() as nat)),
            written matches Err(t) ==> (r matches Err(e) && e is InternalDbError
                && app_error_text(e) == t@),
    {
        match written {
            Ok(()) => Ok(ApiResponse::Message(200, text_with_id("Deleted user: ", self.id))),
            Err(t) => Err(AppError::InternalDbError(t)),
        }
    }
}

/// A profile update that waits for the store to look up account `id`.
pub struct UpdateLookup {
    id: u64,
    payload: UpdateUser,
}

/// A profile update of an existing account, waiting for the store to write
/// the new name and email.
pub struct UpdateWrite {
    id: u64,
    payload: UpdateUser,
}

/// Starts updating profile `id` on behalf of `claims` with `payload`: only
/// the account itself may update it, and the new name and email must pass
/// the same validation as at creation. A refusal for ownership comes first;
/// an invalid payload is `InvalidInput` with the validation report.
pub fn update_users(claims: &Claims, id: u64, payload: UpdateUser) -> (r: Result<UpdateLookup, AppError>)
    ensures
        r is Ok <==> subject_id(claims.sub@) == Some(id) && update_is_valid(payload),
        r is Ok <==> (parse_u64_spec(claims.sub@) == Some(id) && payload.name@.len() >= 1
            && validator_accepts_email(payload.email@)),
        r matches Ok(next) ==> next.target() == id && next.changes() == payload,
        subject_id(claims.sub@) != Some(id) ==> (r matches Err(e) && e is Forbidden
            && app_error_text(e) == ownership_refusal(
            claims.sub@,
            "You do not have permission to update this profile"@,
        )),
        (subject_id(claims.sub@) == Some(id) && !update_is_valid(payload)) ==> (r matches Err(e)
            && e is InvalidInput && update_report_matches(payload, app_error_text(e))),
{
    match check_profile_owner(claims, id, "You do not have permission to update this profile") {
        Ok(()) => {},
        Err(e) => return Err(e),
    }
    match validate_update_user(&payload) {
        Ok(()) => Ok(UpdateLookup { id, payload }),
        Err(report) => Err(AppError::InvalidInput(report)),
    }
}

impl UpdateLookup {
    /// The account to look up.
    pub closed spec fn target(self) -> u64 {
        self.id
    }

    /// The new name and email.
    pub closed spec fn changes(self) -> UpdateUser {
        self.payload
    }

    /// The id of the account to look up.
    pub fn user_id(&self) -> (id: u64)
        ensures
            id == self.target(),
    {
        self.id
    }

    /// Takes whether the lookup found the account: a missing account is
    /// `UserNotFound("User not found")`.
    pub fn found(self, found: bool) -> (r: Result<UpdateWrite, AppError>)
        ensures
            r is Ok <==> found,
            r matches Ok(next) ==> next.target() == self.target() && next.changes() == self.changes(),
            r matches Err(e) ==> e is UserNotFound && app_error_text(e) == "User not found"@,
    {
        if found {
            Ok(UpdateWrite { id: self.id, payload: self.payload })
        } else {
            Err(AppError::UserNotFound(String::from_str("User not found")))
        }
    }
}

impl UpdateWrite {
    /// The account to update.
    pub closed spec fn target(self) -> u64 {
        self.id
    }

    /// The new name and email.
    pub closed spec fn changes(self) -> UpdateUser {
        self.payload
    }

    /// The id of the account to update.
    pub fn user_id(&self) -> (id: u64)
        ensures
            id == self.target(),
    {
        self.id
    }

    /// The new name and email to write.
    pub fn new_profile(&self) -> (p: &UpdateUser)
        ensures
            *p == self.changes(),
    {
        &self.payload
    }

    /// Takes the outcome of the write (a store failure as its text): the
    /// reply is status 200, `Updated user: <id>`.
    pub fn finish(self, written: Result<(), String>) -> (r: Result<ApiResponse, AppError>)
        ensures
            written is Ok ==> (r matches Ok(ApiResponse::Message(code, text)) && code == 200
                && text@ == "Updated user: "@ + decimal(self.target() as nat)),
            written matches Err(t) ==> (r matches Err(e) && e is InternalDbError
                && app_error_text(e) == t@),
    {
        match written {
            Ok(()) => Ok(ApiResponse::Message(200, text_with_id("Updated user: ", self.id))),
            Err(t) => Err(AppError::InternalDbError(t)),
        }
    }
}

/// An account creation that passed validation and waits for the store to
/// say whether its email is taken.
pub struct EmailCheck {
    input: CreateUser,
}

/// An account creation with its password hashed, waiting for the store to
/// insert it.
pub struct Insertion {
    user: NewUser,
}

/// Starts creating an account from `input`: a request that fails
/// validation is `InvalidInput` with the validation report.
pub fn create_user(input: CreateUser) -> (r: Result<EmailCheck, AppError>)
    ensures
        r is Ok <==> creation_is_valid(input),
        r is Ok <==> (input.name@.len() >= 1 && validator_accepts_email(input.email@)),
        !input.email@.contains('@') ==> r is Err,
        r matches Ok(next) ==> next.request() == input,
        r matches Err(e) ==> e is InvalidInput && creation_report_matches(input, app_error_text(e)),
{
    match validate_create_user(&input) {
        Ok(()) => Ok(EmailCheck { input }),
        Err(report) => Err(AppError::InvalidInput(report)),
    }
}

impl EmailCheck {
    /// The creation request.
    pub closed spec fn request(self) -> CreateUser {
        self.input
    }

    /// The email whose account the store looks up.
    pub fn email(&self) -> (email: &str)
        ensures
            email@ == self.request().email@,
    {
        self.input.email.as_str()
    }

    /// Takes whether an account with the email exists: then the request is
    /// `EmailAlreadyExist`; otherwise the password is hashed (a failure is
    /// `InternalDbError` whose text starts with `Hashing failed: `) and the
    /// account is ready to insert as a plain user, with the Argon2id hash of
    /// the password under an encoded sixteen-byte salt, which the password
    /// verifies against. Hashing succeeds for every password of at
    /// most `0xFFFF_FFFF` bytes, so a free email is then always accepted.
    pub fn checked(self, taken: bool) -> (r: Result<Insertion, AppError>)
        ensures
            taken ==> (r matches Err(e) && e is EmailAlreadyExist && app_error_text(e)
                == "User with this email already exists"@),
            (!taken && encode_utf8(self.request().password@).len() <= 0xFFFF_FFFF) ==> r is Ok,
            r matches Ok(next) ==> {
                &&& !taken
                &&& next.account().role == Role::User
                &&& next.account().name == self.request().name
                &&& next.account().email == self.request().email
                &&& next.account().company == self.request().company
                &&& exists|salt: Seq<char>|
                    is_encoded_salt(salt) && next.account().password_hash@ == argon2_phc(self.request().password@, salt)
                &&& is_argon2id_phc(next.account().password_hash@)
                &&& password_check(self.request().password@, next.account().password_hash@) == Ok::<
                    bool,
                    AuthError,
                >(true)
            },
            (!taken && r is Err) ==> (r matches Err(e) && e is InternalDbError && exists|t: Seq<
                char,
            >| app_error_text(e) == "Hashing failed: "@ + t),
    {
        if taken {
            return Err(AppError::EmailAlreadyExist(String::from_str("User with this email already exists")));
        }
        let CreateUser { name, email, password, company } = self.input;
        match hash_password(password.as_str()) {
            Ok(password_hash) => Ok(
                Insertion { user: NewUser { name, email, password_hash, company, role: Role::User } },
            ),
            Err(e) => {
                let mut text = String::from_str("Hashing failed: ");
                let detail = hash_error_text(&e);
                text.append(detail.as_str());
                Err(AppError::InternalDbError(text))
            },
        }
    }
}

impl Insertion {
    /// The account to insert.
    pub closed spec fn account(self) -> NewUser {
        self.user
    }

    /// The account to insert.
    pub fn new_user(&self) -> (u: &NewUser)
        ensures
            *u == self.account(),
    {
        &self.user
    }

    /// Takes the outcome of the insertion (a store failure as its text):
    /// the reply is status 201, `Created user successfully`.
    pub fn finish(self, written: Result<(), String>) -> (r: Result<ApiResponse, AppError>)
        ensures
            written is Ok ==> (r matches Ok(ApiResponse::Message(code, text)) && code == 201
                && text@ == "Created user successfully"@),
            written matches Err(t) ==> (r matches Err(e) && e is InternalDbError
                && app_error_text(e) == t@),
    {
        match written {
            Ok(()) => Ok(ApiResponse::Message(201, String::from_str("Created user successfully"))),
            Err(t) => Err(AppError::InternalDbError(t)),
        }
    }
}

/// The rows of the account table that a listing page shows.
pub fn list_users(pagination: &Pagination) -> (w: PageWindow)
    requires
        offset_fits(*pagination),
    ensures
        w.limit == requested_per_page(*pagination),
        w.offset == page_offset(requested_page(*pagination), requested_per_page(*pagination)),
        pagination.per_page matches Some(k) ==> w.limit == k,
        pagination.per_page is None ==> w.limit == 20,
{
    pagination.window()
}

/// A token whose subject is the decimal id of account `n` (as login issues
/// it) opens profile `id` for deletion or update exactly when `id == n`.
pub proof fn lemma_issued_subject_owns_only_its_profile(n: u64, id: u64)
    ensures
        subject_id(decimal(n as nat)) == Some(id) <==> id == n,
{
    lemma_parse_renders_back(n);
}

} // verus!
