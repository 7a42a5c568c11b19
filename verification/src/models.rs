//! The data that requests carry and that the store keeps.

use vstd::prelude::*;

verus! {

/// Access level of an account.
#[derive(Clone, Copy, Debug, PartialEq, Eq, Structural)]
pub enum Role {
    User,
    Admin,
    Owner,
}

impl Default for Role {
    /// New accounts are plain users.
    fn default() -> (r: Self)
        ensures
            r == Role::User,
    {
        Role::User
    }
}

/// The name of a role, as tokens and replies spell it.
pub open spec fn role_text(role: Role) -> Seq<char> {
    match role {
        Role::User => "User"@,
        Role::Admin => "Admin"@,
        Role::Owner => "Owner"@,
    }
}

impl Role {
    /// The name of this role, as tokens and replies spell it.
    pub fn name(&self) -> (text: &'static str)
        ensures
            text@ == role_text(*self),
    {
        match self {
            Role::User => "User",
            Role::Admin => "Admin",
            Role::Owner => "Owner",
        }
    }
}

/// An account as the store keeps it.
#[derive(Clone, Debug)]
pub struct User {
    pub id: u64,
    pub name: String,
    pub email: String,
    pub password_hash: String,
    pub company: String,
    pub role: Role,
}

/// The fields of an account that is about to be stored; the store assigns
/// the id.
#[derive(Clone, Debug)]
pub struct NewUser {
    pub name: String,
    pub email: String,
    pub password_hash: String,
    pub company: String,
    pub role: Role,
}

/// Query parameters of a paged listing.
#[derive(Clone, Copy, Debug)]
pub struct Pagination {
    pub page: Option<u32>,
    pub per_page: Option<u32>,
}

/// Body of an account creation request.
#[derive(Clone, Debug)]
pub struct CreateUser {
    pub name: String,
    pub email: String,
    pub password: String,
    pub company: String,
}

/// Body of a profile update request.
#[derive(Clone, Debug)]
pub struct UpdateUser {
    pub name: String,
    pub email: String,
}

/// Body of a role change request.
#[derive(Clone, Copy, Debug)]
pub struct ChangeRolePayload {
    pub role: Role,
}

/// The slice of the account table that one page shows.
#[derive(Clone, Copy, Debug, PartialEq, Eq, Structural)]
pub struct PageWindow {
    pub limit: u32,
    pub offset: u32,
}

/// The page that is asked for; the first page when none is given.
pub open spec fn requested_page(p: Pagination) -> u32 {
    match p.page {
        Some(n) => n,
        None => 1,
    }
}

/// The page size that is asked for; twenty when none is given.
pub open spec fn requested_per_page(p: Pagination) -> u32 {
    match p.per_page {
        Some(n) => n,
        None => 20,
    }
}

/// Where page `page` starts, for pages of `per_page` rows: pages count
/// from one, and page zero is read as the first page.
pub open spec fn page_offset(page: u32, per_page: u32) -> int {
    if page > 0 {
        (page - 1) * per_page
    } else {
        0
    }
}

/// The offset of the requested page fits in 32 bits.
pub open spec fn offset_fits(p: Pagination) -> bool {
    page_offset(requested_page(p), requested_per_page(p)) <= u32::MAX
}

impl Pagination {
    /// The requested page, defaulting to 1.
    pub fn page_or_default(&self) -> (n: u32)
        ensures
            n == requested_page(*self),
            self.page matches Some(k) ==> n == k,
            self.page is None ==> n == 1,
    {
        match self.page {
            Some(n) => n,
            None => 1,
        }
    }

    /// The requested page size, defaulting to 20.
    pub fn per_page_or_default(&self) -> (n: u32)
        ensures
            n == requested_per_page(*self),
            self.per_page matches Some(k) ==> n == k,
            self.per_page is None ==> n == 20,
    {
        match self.per_page {
            Some(n) => n,
            None => 20,
        }
    }

    /// The rows to fetch for the requested page.
    pub fn window(&self) -> (w: PageWindow)
        requires
            offset_fits(*self),
        ensures
            w.limit == requested_per_page(*self),
            w.offset == page_offset(requested_page(*self), requested_per_page(*self)),
            self.per_page matches Some(k) ==> w.limit == k,
            self.per_page is None ==> w.limit == 20,
            (self.page is None || self.page == Some(0u32) || self.page == Some(1u32)) ==> w.offset == 0,
    {
        let page = self.page_or_default();
        let per_page = self.per_page_or_default();
        assert(0 * per_page == 0);
        let offset = if page > 0 {
            (page - 1) * per_page
        } else {
            0
        };
        PageWindow { limit: per_page, offset }
    }
}

/// A page number or size that is given is used as given, whatever the other
/// field holds; a missing page number is the first page and a missing size
/// is twenty rows.
pub proof fn lemma_given_values_are_used(p: Pagination)
    ensures
        p.page matches Some(k) ==> requested_page(p) == k,
        p.page is None ==> requested_page(p) == 1,
        p.per_page matches Some(n) ==> requested_per_page(p) == n,
        p.per_page is None ==> requested_per_page(p) == 20,
{
}

/// Page zero and page one both start at the first row.
pub proof fn lemma_first_page_starts_at_zero(per_page: u32)
    ensures
        page_offset(0, per_page) == 0,
        page_offset(1, per_page) == 0,
{
}

/// Consecutive pages are adjacent: page `page + 1` starts exactly where
/// page `page` (one or later) ends, so pages neither overlap nor leave gaps.
pub proof fn lemma_consecutive_pages_adjacent(page: u32, per_page: u32)
    requires
        1 <= page < u32::MAX,
    ensures
        page_offset((page + 1) as u32, per_page) == page_offset(page, per_page) + per_page,
{
    assert(page * per_page == (page - 1) * per_page + per_page) by (nonlinear_arith);
}

} // verus!
