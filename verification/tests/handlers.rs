use webby::auth::{hash_password, Claims};
use webby::errors::{ApiResponse, AppError, AuthError};
use webby::handlers::admin::change_user_role;
use webby::handlers::authentication::login;
use webby::handlers::items::{index, list_items};
use webby::handlers::users::{about, create_user, delete_user, greet_user, list_users, update_users};
use webby::auth::AuthPayload;
use webby::models::{ChangeRolePayload, CreateUser, Pagination, PageWindow, Role, UpdateUser, User};

fn claims_for(sub: &str, role: Role) -> Claims {
    Claims { sub: sub.to_string(), company: "TestCompany".to_string(), role, exp: 0 }
}

fn creation(name: &str, email: &str) -> CreateUser {
    CreateUser {
        name: name.to_string(),
        email: email.to_string(),
        password: String::new(),
        company: String::new(),
    }
}

fn message(r: Result<ApiResponse, AppError>) -> (u16, String) {
    match r {
        Ok(ApiResponse::Message(code, text)) => (code, text),
        Ok(ApiResponse::Json(_)) => panic!("expected a message"),
        Err(e) => panic!("expected success, got {:?}", e),
    }
}

#[test]
fn test_index_handler() {
    let (status, body) = index();
    assert_eq!(status, 202);
    assert_eq!(body, "Goodbye, World!");
}

#[test]
fn test_about_handler() {
    let (status, body) = about();
    assert_eq!(status, 200);
    assert_eq!(body, "I'm the user");
}

#[test]
fn test_greet_handler() {
    let r = greet_user("isvane");
    assert_eq!(r.status(), 200);
    match r {
        ApiResponse::Message(_, text) => assert_eq!(text, "Hello isvane"),
        ApiResponse::Json(_) => panic!("expected a message"),
    }
}

#[test]
fn test_create_user_handle() {
    let check = create_user(creation("Isvane", "isvane@testmail.com")).expect("valid request");
    assert_eq!(check.email(), "isvane@testmail.com");
    let insertion = check.checked(false).expect("hashing succeeds");
    assert_eq!(insertion.new_user().name, "Isvane");
    assert_eq!(insertion.new_user().email, "isvane@testmail.com");
    let (status, body) = message(insertion.finish(Ok(())));
    assert_eq!(status, 201);
    assert_eq!(body, "Created user successfully");
}

#[test]
fn test_delete_user_handle() {
    let claims = claims_for("1", Role::User);
    let lookup = delete_user(&claims, 1).expect("own profile");
    assert_eq!(lookup.user_id(), 1);
    let write = lookup.found(true).expect("account exists");
    let (status, body) = message(write.finish(Ok(())));
    assert_eq!(status, 200);
    assert_eq!(body, "Deleted user: 1");

    // The account is gone: a second deletion finds nothing.
    let again = delete_user(&claims, 1).expect("own profile").found(false);
    match again {
        Err(e) => {
            assert_eq!(e.status(), 404);
            assert_eq!(e.message(), "User not found");
        }
        Ok(_) => panic!("expected not found"),
    }
}

#[test]
fn test_update_user_handle() {
    let claims = claims_for("1", Role::User);
    let payload = UpdateUser { name: "Johny".to_string(), email: "john@testmail.com".to_string() };
    let lookup = update_users(&claims, 1, payload).expect("own profile");
    let write = lookup.found(true).expect("account exists");
    assert_eq!(write.new_profile().name, "Johny");
    let (status, body) = message(write.finish(Ok(())));
    assert_eq!(status, 200);
    assert_eq!(body, "Updated user: 1");
}

#[test]
fn test_list_users_handle() {
    // The listing asks the store for the first twenty rows by default ...
    let window = list_users(&Pagination { page: None, per_page: None });
    assert_eq!(window, PageWindow { limit: 20, offset: 0 });
    // ... and for the rows after the first ones on later pages.
    let second = list_users(&Pagination { page: Some(2), per_page: Some(1) });
    assert_eq!(second, PageWindow { limit: 1, offset: 1 });
    let admin_view = webby::handlers::admin::list_users(&Pagination { page: Some(3), per_page: Some(5) });
    assert_eq!(admin_view, PageWindow { limit: 5, offset: 10 });
    assert_eq!(ApiResponse::Json(Vec::new()).status(), 200);
}

#[test]
fn test_list_items() {
    let text = list_items(&Pagination { page: Some(2), per_page: Some(50) });
    assert_eq!(text, "Page 2, 50 items");
}

#[test]
fn test_validator_name() {
    match create_user(creation("", "Isvane@testmail.com")) {
        Err(e) => {
            assert_eq!(e.status(), 422);
            assert!(e.message().contains("Name cannot be empty"));
            assert_eq!(e.message(), "name: Name cannot be empty");
        }
        Ok(_) => panic!("an empty name must be refused"),
    }
}

#[test]
fn test_validator_email() {
    match create_user(creation("Isvane", "not-email")) {
        Err(e) => {
            assert_eq!(e.status(), 422);
            assert!(e.message().contains("Invalid email address"));
            assert_eq!(e.message(), "email: Invalid email address");
        }
        Ok(_) => panic!("a malformed email must be refused"),
    }
}

#[test]
fn validator_reports_both_problems() {
    match create_user(creation("", "not-email")) {
        Err(e) => {
            let text = e.message();
            assert!(
                text == "name: Name cannot be empty\nemail: Invalid email address"
                    || text == "email: Invalid email address\nname: Name cannot be empty"
            );
        }
        Ok(_) => panic!("must be refused"),
    }
}

#[test]
fn creation_refuses_taken_email() {
    let check = create_user(creation("John", "john@testmail.com")).expect("valid request");
    match check.checked(true) {
        Err(AppError::EmailAlreadyExist(text)) => {
            assert_eq!(text, "User with this email already exists")
        }
        _ => panic!("expected a taken email"),
    }
}

#[test]
fn created_account_password_verifies() {
    let request = CreateUser {
        name: "John".to_string(),
        email: "john@testmail.com".to_string(),
        password: "hunter42".to_string(),
        company: "Akatsuki".to_string(),
    };
    let insertion = create_user(request).unwrap().checked(false).unwrap();
    let account = insertion.new_user();
    assert_eq!(account.company, "Akatsuki");
    assert_eq!(webby::auth::verify_password("hunter42", &account.password_hash), Ok(true));
}

#[test]
fn store_failure_is_internal_error() {
    let claims = claims_for("7", Role::User);
    let write = delete_user(&claims, 7).unwrap().found(true).unwrap();
    match write.finish(Err("disk full".to_string())) {
        Err(e) => {
            assert_eq!(e.status(), 500);
            assert_eq!(e.message(), "disk full");
        }
        Ok(_) => panic!("expected a failure"),
    }
}

#[test]
fn profile_changes_need_the_owner() {
    let claims = claims_for("2", Role::User);
    match delete_user(&claims, 1) {
        Err(e) => {
            assert_eq!(e.status(), 403);
            assert_eq!(e.message(), "You do not have permission to delete this profile");
        }
        Ok(_) => panic!("someone else's profile"),
    }
    let payload = UpdateUser { name: "X".to_string(), email: "x@y.z".to_string() };
    match update_users(&claims, 1, payload) {
        Err(e) => assert_eq!(e.message(), "You do not have permission to update this profile"),
        Ok(_) => panic!("someone else's profile"),
    }
    let garbled = claims_for("one", Role::User);
    match delete_user(&garbled, 1) {
        Err(e) => {
            assert_eq!(e.status(), 403);
            assert_eq!(e.message(), "Invalid user ID");
        }
        Ok(_) => panic!("garbled subject"),
    }
    // A subject with a plus sign still names the account, as `parse` reads it.
    assert!(delete_user(&claims_for("+1", Role::User), 1).is_ok());
}

#[test]
fn role_changes_need_admin_or_owner() {
    let payload = ChangeRolePayload { role: Role::Admin };
    match change_user_role(&claims_for("3", Role::User), 5, payload) {
        Err(e) => {
            assert_eq!(e.status(), 403);
            assert_eq!(e.message(), "Admin permission required");
        }
        Ok(_) => panic!("plain users may not change roles"),
    }
    let lookup = change_user_role(&claims_for("3", Role::Owner), 5, payload).unwrap();
    assert_eq!(lookup.user_id(), 5);
    let write = lookup.found(true).unwrap();
    assert_eq!(write.role(), Role::Admin);
    let (status, body) = message(write.finish(Ok(())));
    assert_eq!(status, 200);
    assert_eq!(body, "Role updated");
    let lookup = change_user_role(&claims_for("3", Role::Admin), 5, payload).unwrap();
    assert!(lookup.found(false).is_err());
}

#[test]
fn login_flow() {
    let hash = hash_password("secret").unwrap();
    let account = User {
        id: 42,
        name: "John".to_string(),
        email: "john@testmail.com".to_string(),
        password_hash: hash,
        company: String::new(),
        role: Role::Admin,
    };

    let attempt = login(AuthPayload { email: "john@testmail.com".to_string(), password: "secret".to_string() });
    assert_eq!(attempt.email(), "john@testmail.com");
    let token = attempt.found(Some(account.clone())).expect("right password");
    assert_eq!(token.user_id(), "42");
    assert_eq!(token.company(), "Akatsuki");
    assert_eq!(token.role(), Role::Admin);
    let body = token.finish(1_700_000_000, b"test_super_secret_key_123").unwrap();
    assert_eq!(body.access_token.split('.').count(), 3);
    assert_eq!(body.token_type, "Bearer");
    let claims = webby::auth::verify_token(&body.access_token, b"test_super_secret_key_123", 1_700_000_100)
        .expect("the issued token verifies");
    assert_eq!(claims.sub, "42");
    assert_eq!(claims.company, "Akatsuki");
    assert_eq!(claims.role, Role::Admin);

    let wrong = login(AuthPayload { email: "john@testmail.com".to_string(), password: "nope".to_string() });
    assert_eq!(wrong.found(Some(account.clone())).err(), Some(AuthError::WrongCredentials));

    let missing = login(AuthPayload { email: "x@testmail.com".to_string(), password: "secret".to_string() });
    assert_eq!(missing.found(None).err(), Some(AuthError::WrongCredentials));

    let mut broken = account.clone();
    broken.password_hash = "not a hash".to_string();
    let attempt = login(AuthPayload { email: "john@testmail.com".to_string(), password: "secret".to_string() });
    assert_eq!(attempt.found(Some(broken)).err(), Some(AuthError::InvalidHashFormat));
}

#[test]
fn profile_updates_are_validated() {
    let owner = claims_for("1", Role::User);
    let empty_name = UpdateUser { name: String::new(), email: "john@testmail.com".to_string() };
    match update_users(&owner, 1, empty_name) {
        Err(e) => {
            assert_eq!(e.status(), 422);
            assert_eq!(e.message(), "name: Name cannot be empty");
        }
        Ok(_) => panic!("an empty name must be refused"),
    }
    let bad_email = UpdateUser { name: "John".to_string(), email: "not-email".to_string() };
    match update_users(&owner, 1, bad_email) {
        Err(e) => {
            assert_eq!(e.status(), 422);
            assert_eq!(e.message(), "email: Invalid email address");
        }
        Ok(_) => panic!("a malformed email must be refused"),
    }
    // Ownership is checked first.
    let bad_email = UpdateUser { name: String::new(), email: "not-email".to_string() };
    match update_users(&owner, 2, bad_email) {
        Err(e) => assert_eq!(e.status(), 403),
        Ok(_) => panic!("someone else's profile"),
    }
}

#[test]
fn new_accounts_are_plain_users() {
    let insertion = create_user(creation("Ann", "ann@testmail.com")).unwrap().checked(false).unwrap();
    assert_eq!(insertion.new_user().role, Role::User);
}
