//! The public landing routes.

use vstd::prelude::*;
use crate::decimal::{decimal, push_decimal};
use crate::models::{Pagination, requested_page, requested_per_page};

verus! {

/// The landing page: status 202 with a farewell.
pub fn index() -> (r: (u16, &'static str))
    ensures
        r.0 == 202,
        r.1@ == "Goodbye, World!"@,
{
    (202, "Goodbye, World!")
}

/// The text of the item listing for a page request: `Page <page>,
/// <per_page> items`, with page 1 and 20 items when not given.
pub fn list_items(pagination: &Pagination) -> (text: String)
    ensures
        text@ == "Page "@ + decimal(requested_page(*pagination) as nat) + ", "@ + decimal(
            requested_per_page(*pagination) as nat,
        ) + " items"@,
{
    let page = pagination.page_or_default();
    let per_page = pagination.per_page_or_default();
    let mut text = String::from_str("Page ");
    push_decimal(&mut text, page as u64);
    text.append(", ");
    push_decimal(&mut text, per_page as u64);
    text.append(" items");
    text
}

} // verus!
