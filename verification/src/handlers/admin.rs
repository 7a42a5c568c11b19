//! Administration routes: listing accounts and changing their roles.

use vstd::prelude::*;
use crate::auth::Claims;
use crate::errors::{ApiResponse, AppError, app_error_text};
use crate::models::{ChangeRolePayload, Pagination, PageWindow, Role, offset_fits, page_offset, requested_page, requested_per_page};

verus! {

/// The rows of the account table that a listing page shows.
pub fn list_users(pagination: &Pagination) -> (w: PageWindow)
    requires
        offset_fits(*pagination),
    ensures
        w.limit == requested_per_page(*pagination),
        w.offset == page_offset(requested_page(*pagination), requested_per_page(*pagination)),
        pagination.per_page matches Some(k) ==> w.limit == k,
        pagination.per_page is None ==> w.limit == 20,
{
    pagination.window()
}

/// Roles that may change the role of an account.
pub open spec fn may_change_roles(role: Role) -> bool {
    role == Role::Admin || role == Role::Owner
}

/// A role change that waits for the store to look up account `id`.
pub struct RoleLookup {
    id: u64,
    role: Role,
}

/// A role change of an existing account, waiting for the store to write it.
pub struct RoleWrite {
    id: u64,
    role: Role,
}

/// Starts changing the role of account `id` to `payload.role` on behalf of
/// `claims`: only an administrator or the owner may do it; anyone else is
/// refused with `Forbidden("Admin permission required")`.
pub fn change_user_role(claims: &Claims, id: u64, payload: ChangeRolePayload) -> (r: Result<RoleLookup, AppError>)
    ensures
        r is Ok <==> may_change_roles(claims.role),
        r is Ok <==> (claims.role == Role::Admin || claims.role == Role::Owner),
        r matches Ok(next) ==> next.target() == id && next.new_role() == payload.role,
        r matches Err(e) ==> e is Forbidden && app_error_text(e) == "Admin permission required"@,
{
    if claims.role != Role::Admin && claims.role != Role::Owner {
        return Err(AppError::Forbidden(String::from_str("Admin permission required")));
    }
    Ok(RoleLookup { id, role: payload.role })
}

impl RoleLookup {
    /// The account to look up.
    pub closed spec fn target(self) -> u64 {
        self.id
    }

    /// The role to give it.
    pub closed spec fn new_role(self) -> Role {
        self.role
    }

    /// The id of the account to look up.
    pub fn user_id(&self) -> (id: u64)
        ensures
            id == self.target(),
    {
        self.id
    }

    /// Takes whether the lookup found the account: a missing account is
    /// `UserNotFound("User not found")`.
    pub fn found(self, found: bool) -> (r: Result<RoleWrite, AppError>)
        ensures
            r is Ok <==> found,
            r matches Ok(next) ==> next.target() == self.target() && next.new_role() == self.new_role(),
            r matches Err(e) ==> e is UserNotFound && app_error_text(e) == "User not found"@,
    {
        if found {
            Ok(RoleWrite { id: self.id, role: self.role })
        } else {
            Err(AppError::UserNotFound(String::from_str("User not found")))
        }
    }
}

impl RoleWrite {
    /// The account to change.
    pub closed spec fn target(self) -> u64 {
        self.id
    }

    /// The role to give it.
    pub closed spec fn new_role(self) -> Role {
        self.role
    }

    /// The id of the account to change.
    pub fn user_id(&self) -> (id: u64)
        ensures
            id == self.target(),
    {
        self.id
    }

    /// The role to write.
    pub fn role(&self) -> (role: Role)
        ensures
            role == self.new_role(),
    {
        self.role
    }

    /// Takes the outcome of the write (a store failure as its text): the
    /// reply is status 200, `Role updated`.
    pub fn finish(self, written: Result<(), String>) -> (r: Result<ApiResponse, AppError>)
        ensures
            written is Ok ==> (r matches Ok(ApiResponse::Message(code, text)) && code == 200
                && text@ == "Role updated"@),
            written matches Err(t) ==> (r matches Err(e) && e is InternalDbError
                && app_error_text(e) == t@),
    {
        match written {
            Ok(()) => Ok(ApiResponse::Message(200, String::from_str("Role updated"))),
            Err(t) => Err(AppError::InternalDbError(t)),
        }
    }
}

} // verus!
