//! Input validation of account creation and profile updates: a non-empty name and an email
//! address that the `validator` crate accepts, with its error report.

use vstd::prelude::*;
use crate::models::{CreateUser, UpdateUser};

verus! {

/// Field errors collected by the `validator` crate.
#[verifier::external_type_specification]
#[verifier::external_body]
pub struct ExValidationErrors(validator::ValidationErrors);

/// Whether `validator`'s email check (`ValidateEmail::validate_email`)
/// accepts `email`.
pub uninterp spec fn validator_accepts_email(email: Seq<char>) -> bool;

/// What a `ValidationErrors` holds: for each field, the displayed texts of
/// its errors, in the order they were added.
pub uninterp spec fn field_messages(errors: validator::ValidationErrors) -> Map<Seq<char>, Seq<Seq<char>>>;

/// Every entry of a `ValidationErrors` is a field-level list (no nested
/// struct or list entries).
pub uninterp spec fn only_field_entries(errors: validator::ValidationErrors) -> bool;

/// `validator`'s HTML5 email check of `email`. Claimed beyond the name: an
/// accepted address is non-empty and holds an `@` (the check's first test).
#[verifier::external_body]
fn email_accepted(email: &str) -> (ok: bool)
    ensures
        ok == validator_accepts_email(email@),
        ok ==> email@.len() > 0 && email@.contains('@'),
{
    validator::ValidateEmail::validate_email(&email)
}

/// A report without entries.
pub open spec fn no_field_errors() -> Map<Seq<char>, Seq<Seq<char>>> {
    Map::empty()
}

/// `ValidationErrors::new`: no entries.
#[verifier::external_body]
fn errors_new() -> (fresh: validator::ValidationErrors)
    ensures
        field_messages(fresh) == no_field_errors(),
        only_field_entries(fresh),
{
    validator::ValidationErrors::new()
}

/// `ValidationErrors::add` of an error with code `code` and message
/// `message` under `field`: the message is appended to the field's list
/// (a new list when the field has none). `add` panics only on a non-field
/// entry, which `requires` leaves out.
#[verifier::external_body]
fn errors_add(errors: &mut validator::ValidationErrors, field: &'static str, code: &'static str, message: &'static str)
    requires
        only_field_entries(*old(errors)),
    ensures
        only_field_entries(*final(errors)),
        field_messages(*final(errors)) == field_messages(*old(errors)).insert(
            field@,
            if field_messages(*old(errors)).contains_key(field@) {
                field_messages(*old(errors))[field@].push(message@)
            } else {
                seq![message@]
            },
        ),
{
    errors.add(field, validator::ValidationError::new(code).with_message(std::borrow::Cow::Borrowed(message)));
}

/// `parts` joined by `sep`.
pub open spec fn join(parts: Seq<Seq<char>>, sep: Seq<char>) -> Seq<char>
    decreases parts.len(),
{
    if parts.len() == 0 {
        Seq::empty()
    } else if parts.len() == 1 {
        parts[0]
    } else {
        join(parts.drop_last(), sep) + sep + parts.last()
    }
}

/// The report line of one field: its name, `: `, then its messages joined
/// by `, `.
pub open spec fn field_line(field: Seq<char>, messages: Seq<Seq<char>>) -> Seq<char> {
    field + ": "@ + join(messages, ", "@)
}

/// The text (`Display`) of a `ValidationErrors` of field entries: one line
/// per field, joined by newlines. The fields are walked in the order of a
/// hash map, which the crate leaves open, so only the existence of some
/// order without repeats over all fields is claimed.
#[verifier::external_body]
fn errors_text(errors: &validator::ValidationErrors) -> (text: String)
    requires
        only_field_entries(*errors),
    ensures
        exists|order: Seq<Seq<char>>|
            #![trigger order.to_set()]
            {
                &&& order.no_duplicates()
                &&& order.to_set() == field_messages(*errors).dom()
                &&& text@ == join(
                    order.map_values(|f: Seq<char>| field_line(f, field_messages(*errors)[f])),
                    "\n"@,
                )
            },
{
    errors.to_string()
}

/// The report line of an empty name.
pub open spec fn name_problem() -> Seq<char> {
    "name"@ + ": "@ + "Name cannot be empty"@
}

/// The report line of an address that is not an email address.
pub open spec fn email_problem() -> Seq<char> {
    "email"@ + ": "@ + "Invalid email address"@
}

/// A name and an email pass validation: the name has at least one
/// character and the email is accepted.
pub open spec fn profile_is_valid(name: Seq<char>, email: Seq<char>) -> bool {
    name.len() >= 1 && validator_accepts_email(email)
}

/// The validation report of a name and an email; when both checks fail it
/// is one of the two orders of the lines.
pub open spec fn profile_report_matches(name: Seq<char>, email: Seq<char>, text: Seq<char>) -> bool {
    let name_ok = name.len() >= 1;
    let email_ok = validator_accepts_email(email);
    if !name_ok && email_ok {
        text == name_problem()
    } else if name_ok && !email_ok {
        text == email_problem()
    } else {
        text == name_problem() + "\n"@ + email_problem() || text == email_problem() + "\n"@
            + name_problem()
    }
}

/// A creation request passes validation.
pub open spec fn creation_is_valid(input: CreateUser) -> bool {
    profile_is_valid(input.name@, input.email@)
}

/// The validation report of a creation request.
pub open spec fn creation_report_matches(input: CreateUser, text: Seq<char>) -> bool {
    profile_report_matches(input.name@, input.email@, text)
}

/// A profile update passes validation.
pub open spec fn update_is_valid(input: UpdateUser) -> bool {
    profile_is_valid(input.name@, input.email@)
}

/// The validation report of a profile update.
pub open spec fn update_report_matches(input: UpdateUser, text: Seq<char>) -> bool {
    profile_report_matches(input.name@, input.email@, text)
}

proof fn lemma_single_order(order: Seq<Seq<char>>, a: Seq<char>)
    requires
        order.no_duplicates(),
        order.to_set() == set![a],
    ensures
        order == seq![a],
{
    order.unique_seq_to_set();
    assert(order.to_set().contains(order[0]));
    assert(order =~= seq![a]);
}

proof fn lemma_pair_order(order: Seq<Seq<char>>, a: Seq<char>, b: Seq<char>)
    requires
        a != b,
        order.no_duplicates(),
        order.to_set() == set![a, b],
    ensures
        order == seq![a, b] || order == seq![b, a],
{
    order.unique_seq_to_set();
    assert(set![a, b].len() == 2) by {
        assert(set![a, b] == set![a].insert(b));
    }
    assert(order.to_set().contains(order[0]));
    assert(order.to_set().contains(order[1]));
    if order[0] == a {
        assert(order =~= seq![a, b]);
    } else {
        assert(order =~= seq![b, a]);
    }
}

proof fn lemma_join_one(x: Seq<char>, sep: Seq<char>)
    ensures
        join(seq![x], sep) == x,
{
}

proof fn lemma_join_two(x: Seq<char>, y: Seq<char>, sep: Seq<char>)
    ensures
        join(seq![x, y], sep) == x + sep + y,
{
    assert(seq![x, y].drop_last() =~= seq![x]);
    lemma_join_one(x, sep);
    assert(seq![x, y].last() == y);
}

/// Validates a name and an email by the rules of the account request
/// bodies: `name` must have at least one character ("Name cannot be
/// empty") and `email` must be an email address ("Invalid email address").
/// A refusal carries the report text; an address without `@` is always
/// refused.
fn validate_profile(name: &str, email: &str) -> (r: Result<(), String>)
    ensures
        r is Ok <==> profile_is_valid(name@, email@),
        r matches Err(text) ==> profile_report_matches(name@, email@, text@),
        !email@.contains('@') ==> r is Err,
{
    let name_ok = !name.is_empty();
    let email_ok = email_accepted(email);
    if name_ok && email_ok {
        return Ok(());
    }
    let mut errors = errors_new();
    if !name_ok {
        errors_add(&mut errors, "name", "length", "Name cannot be empty");
    }
    if !email_ok {
        errors_add(&mut errors, "email", "email", "Invalid email address");
    }
    let text = errors_text(&errors);
    proof {
        reveal_strlit("name");
        reveal_strlit("email");
        let m = field_messages(errors);
        let order = choose|order: Seq<Seq<char>>|
            #![trigger order.to_set()]
            {
                &&& order.no_duplicates()
                &&& order.to_set() == m.dom()
                &&& text@ == join(order.map_values(|f: Seq<char>| field_line(f, m[f])), "\n"@)
            };
        let name_line = field_line("name"@, seq!["Name cannot be empty"@]);
        let email_line = field_line("email"@, seq!["Invalid email address"@]);
        lemma_join_one("Name cannot be empty"@, ", "@);
        lemma_join_one("Invalid email address"@, ", "@);
        assert(name_line == name_problem());
        assert(email_line == email_problem());
        assert("name"@ != "email"@) by {
            assert("name"@.len() != "email"@.len());
        }
        if !name_ok && email_ok {
            assert(m.dom() =~= set!["name"@]);
            lemma_single_order(order, "name"@);
            assert(order.map_values(|f: Seq<char>| field_line(f, m[f])) =~= seq![name_line]);
            lemma_join_one(name_line, "\n"@);
        } else if name_ok && !email_ok {
            assert(m.dom() =~= set!["email"@]);
            lemma_single_order(order, "email"@);
            assert(order.map_values(|f: Seq<char>| field_line(f, m[f])) =~= seq![email_line]);
            lemma_join_one(email_line, "\n"@);
        } else {
            assert(m.dom() =~= set!["name"@, "email"@]);
            lemma_pair_order(order, "name"@, "email"@);
            if order == seq!["name"@, "email"@] {
                assert(order.map_values(|f: Seq<char>| field_line(f, m[f])) =~= seq![name_line, email_line]);
                lemma_join_two(name_line, email_line, "\n"@);
            } else {
                assert(order.map_values(|f: Seq<char>| field_line(f, m[f])) =~= seq![email_line, name_line]);
                lemma_join_two(email_line, name_line, "\n"@);
            }
        }
    }
    Err(text)
}

/// Validates an account creation request (`name` and `email`).
pub fn validate_create_user(input: &CreateUser) -> (r: Result<(), String>)
    ensures
        r is Ok <==> creation_is_valid(*input),
        r is Ok <==> (input.name@.len() >= 1 && validator_accepts_email(input.email@)),
        r matches Err(text) ==> creation_report_matches(*input, text@),
        !input.email@.contains('@') ==> r is Err,
{
    validate_profile(input.name.as_str(), input.email.as_str())
}

/// Validates a profile update request (`name` and `email`).
pub fn validate_update_user(input: &UpdateUser) -> (r: Result<(), String>)
    ensures
        r is Ok <==> update_is_valid(*input),
        r is Ok <==> (input.name@.len() >= 1 && validator_accepts_email(input.email@)),
        r matches Err(text) ==> update_report_matches(*input, text@),
        !input.email@.contains('@') ==> r is Err,
{
    validate_profile(input.name.as_str(), input.email.as_str())
}

/// The report lines, spelled out.
proof fn lemma_problem_texts()
    ensures
        name_problem() == "name: Name cannot be empty"@,
        email_problem() == "email: Invalid email address"@,
        name_problem() + "\n"@ + email_problem()
            == "name: Name cannot be empty\nemail: Invalid email address"@,
        email_problem() + "\n"@ + name_problem()
            == "email: Invalid email address\nname: Name cannot be empty"@,
{
    reveal_strlit("name");
    reveal_strlit("email");
    reveal_strlit(": ");
    reveal_strlit("\n");
    reveal_strlit("Name cannot be empty");
    reveal_strlit("Invalid email address");
    reveal_strlit("name: Name cannot be empty");
    reveal_strlit("email: Invalid email address");
    reveal_strlit("name: Name cannot be empty\nemail: Invalid email address");
    reveal_strlit("email: Invalid email address\nname: Name cannot be empty");
    assert(name_problem() =~= "name: Name cannot be empty"@);
    assert(email_problem() =~= "email: Invalid email address"@);
    assert(name_problem() + "\n"@ + email_problem()
        =~= "name: Name cannot be empty\nemail: Invalid email address"@);
    assert(email_problem() + "\n"@ + name_problem()
        =~= "email: Invalid email address\nname: Name cannot be empty"@);
}

/// The rules of a name and an email: they pass exactly when the name has at
/// least one character and the validator accepts the email, whatever else
/// they hold; a refusal reports exactly the failing fields, each once.
proof fn lemma_profile_rules(name: Seq<char>, email: Seq<char>, text: Seq<char>)
    ensures
        profile_is_valid(name, email) <==> (name.len() >= 1 && validator_accepts_email(email)),
        (name.len() == 0 && validator_accepts_email(email)) ==> (profile_report_matches(name, email, text)
            <==> text == "name: Name cannot be empty"@),
        (name.len() >= 1 && !validator_accepts_email(email)) ==> (profile_report_matches(name, email, text)
            <==> text == "email: Invalid email address"@),
        (name.len() == 0 && !validator_accepts_email(email)) ==> (profile_report_matches(name, email, text)
            <==> (text == "name: Name cannot be empty\nemail: Invalid email address"@
            || text == "email: Invalid email address\nname: Name cannot be empty"@)),
{
    lemma_problem_texts();
}

/// Account creation accepts exactly the requests whose name has at least one
/// character and whose email the validator accepts (the password and company
/// play no part); a refusal reports exactly the failing fields.
pub proof fn lemma_creation_rules(input: CreateUser, text: Seq<char>)
    ensures
        creation_is_valid(input) <==> (input.name@.len() >= 1 && validator_accepts_email(input.email@)),
        (input.name@.len() == 0 && validator_accepts_email(input.email@)) ==> (creation_report_matches(input, text)
            <==> text == "name: Name cannot be empty"@),
        (input.name@.len() >= 1 && !validator_accepts_email(input.email@)) ==> (creation_report_matches(input, text)
            <==> text == "email: Invalid email address"@),
        (input.name@.len() == 0 && !validator_accepts_email(input.email@)) ==> (creation_report_matches(input, text)
            <==> (text == "name: Name cannot be empty\nemail: Invalid email address"@
            || text == "email: Invalid email address\nname: Name cannot be empty"@)),
{
    lemma_profile_rules(input.name@, input.email@, text);
}

/// A profile update accepts exactly the payloads whose name has at least one
/// character and whose email the validator accepts; a refusal reports exactly
/// the failing fields.
pub proof fn lemma_update_rules(input: UpdateUser, text: Seq<char>)
    ensures
        update_is_valid(input) <==> (input.name@.len() >= 1 && validator_accepts_email(input.email@)),
        (input.name@.len() == 0 && validator_accepts_email(input.email@)) ==> (update_report_matches(input, text)
            <==> text == "name: Name cannot be empty"@),
        (input.name@.len() >= 1 && !validator_accepts_email(input.email@)) ==> (update_report_matches(input, text)
            <==> text == "email: Invalid email address"@),
        (input.name@.len() == 0 && !validator_accepts_email(input.email@)) ==> (update_report_matches(input, text)
            <==> (text == "name: Name cannot be empty\nemail: Invalid email address"@
            || text == "email: Invalid email address\nname: Name cannot be empty"@)),
{
    lemma_profile_rules(input.name@, input.email@, text);
}

} // verus!
