use todo_store::errors::{AppError, ErrorCategory};
use todo_store::state::CombinedState;
use todo_store::todo::Todo;
use todo_store::token::{check_claims, decode_token, decode_token_at, generate_jwt_token, issue_token_at, TokenError, TOKEN_LIFETIME_SECS};
use todo_store::user::User;
use todo_store::vault::{get_hashed_password, verify_password};

fn user(email: &str, name: &str) -> User {
    User { email: email.to_string(), name: name.to_string(), password: "h".to_string() }
}

#[test]
fn add_user_refuses_duplicate_email() {
    let mut users: Vec<User> = Vec::new();
    assert_eq!(User::add_user(&mut users, &user("a@x.com", "A")), Ok("User created Successfully".to_string()));
    assert_eq!(User::add_user(&mut users, &user("a@x.com", "B")), Err("User exists already".to_string()));
    assert_eq!(users.len(), 1);
    assert_eq!(users[0].name, "A");
    assert_eq!(User::get_user(&users, &"a@x.com".to_string()).unwrap().name, "A");
    assert!(User::get_user(&users, &"b@x.com".to_string()).is_none());
}

#[test]
fn todo_ids_count_from_one() {
    let mut todos: Vec<Todo> = Vec::new();
    let a = Todo::add_todo("one".to_string(), false, "a@x.com".to_string(), &mut todos);
    let b = Todo::add_todo("two".to_string(), true, "b@x.com".to_string(), &mut todos);
    assert_eq!(a.id, 1);
    assert_eq!(b.id, 2);
    assert_eq!(todos.len(), 2);
    assert_eq!(Todo::get_todo(2, &todos).unwrap().title, "two");
    assert!(Todo::get_todo(3, &todos).is_none());
    let mine = Todo::get_user_todos("a@x.com".to_string(), &mut todos);
    assert_eq!(mine.len(), 1);
    assert_eq!(mine[0].title, "one");
}

#[test]
fn update_todo_checks_owner_and_id() {
    let mut todos: Vec<Todo> = Vec::new();
    Todo::add_todo("one".to_string(), false, "a@x.com".to_string(), &mut todos);
    assert_eq!(Todo::update_todo(5, "a@x.com".to_string(), "x".to_string(), true, &mut todos), Err(AppError::NotFound));
    assert_eq!(Todo::update_todo(1, "b@x.com".to_string(), "x".to_string(), true, &mut todos), Err(AppError::NotOwner));
    assert_eq!(todos[0].title, "one");
    assert_eq!(todos[0].done, false);
    assert_eq!(
        Todo::update_todo(1, "a@x.com".to_string(), "x".to_string(), true, &mut todos),
        Ok("Updated Successfully".to_string())
    );
    assert_eq!(todos[0].title, "x");
    assert_eq!(todos[0].done, true);
}

#[test]
fn combined_state_operations() {
    let mut s = CombinedState::new();
    assert_eq!(s.register("a@x.com".to_string(), "A".to_string(), "pw"), Ok("User created Successfully".to_string()));
    assert_eq!(s.register("a@x.com".to_string(), "A2".to_string(), "pw2"), Err(AppError::AlreadyExists));
    assert_eq!(s.authenticate(&"a@x.com".to_string(), &"bad".to_string()), Err(AppError::WrongPassword));
    assert_eq!(s.authenticate(&"z@x.com".to_string(), &"pw".to_string()), Err(AppError::NotRegistered));
    let token = s.authenticate_at(&"a@x.com".to_string(), &"pw".to_string(), 1000).unwrap();
    assert_eq!(decode_token_at(&token, 1001), Ok("a@x.com".to_string()));
    let t = s.create("a@x.com".to_string(), "Go".to_string(), false).unwrap();
    assert_eq!(t.id, 1);
    assert_eq!(s.list("a@x.com".to_string()).len(), 1);
    assert_eq!(s.list("b@x.com".to_string()).len(), 0);
    assert_eq!(s.update(1, "a@x.com".to_string(), "Go".to_string(), true), Ok("Updated Successfully".to_string()));
    assert_eq!(s.list("a@x.com".to_string())[0].done, true);
}

#[test]
fn token_round_trip_and_expiry() {
    let now: i64 = 1_700_000_000;
    let token = issue_token_at("vk@x.com", now).unwrap();
    assert_ne!(token, "vk@x.com");
    assert_eq!(decode_token_at(&token, now), Ok("vk@x.com".to_string()));
    assert_eq!(decode_token_at(&token, now + 86399), Ok("vk@x.com".to_string()));
    assert_eq!(decode_token_at(&token, now + 86400), Err(TokenError::Expired));
    assert_eq!(decode_token_at(&token, now + 90000), Err(TokenError::Expired));
    assert_eq!(TOKEN_LIFETIME_SECS, 86400);
}

#[test]
fn token_issue_before_epoch_fails() {
    assert_eq!(issue_token_at("vk@x.com", -1), Err(AppError::TokenIssueFailure));
}

#[test]
fn token_current_time_round_trip() {
    let token = generate_jwt_token("now@x.com".to_string()).unwrap();
    assert_eq!(decode_token(&token), Ok("now@x.com".to_string()));
}

#[test]
fn token_refusals() {
    assert_eq!(decode_token_at("garbage", 0), Err(TokenError::Malformed));
    let token = issue_token_at("vk@x.com", 10).unwrap();
    let mut parts: Vec<&str> = token.split('.').collect();
    parts[2] = "AAAAAAAAAAAAAAAAAAAAAAAAAAAAAAAAAAAAAAAAAAA";
    let forged = parts.join(".");
    assert_eq!(decode_token_at(&forged, 10), Err(TokenError::InvalidSignature));
}

#[test]
fn claims_check_exact() {
    assert_eq!(check_claims("a".to_string(), 100, 99), Ok("a".to_string()));
    assert_eq!(check_claims("a".to_string(), 100, 100), Err(TokenError::Expired));
    assert_eq!(check_claims("a".to_string(), 0, -5), Ok("a".to_string()));
}

#[test]
fn password_hash_and_verify() {
    let h = get_hashed_password("Random1234").unwrap();
    assert_ne!(h, "Random1234");
    assert!(verify_password(&h, &"Random1234".to_string()));
    assert!(!verify_password(&h, &"wrong".to_string()));
    assert!(!verify_password("not a hash", &"Random1234".to_string()));
}

#[test]
fn error_messages_and_categories() {
    assert_eq!(AppError::StoreUnavailable.category(), ErrorCategory::ServerError);
    assert_eq!(AppError::HashingFailure.message(), "Internal Error");
    assert_eq!(AppError::TokenIssueFailure.message(), "Internal Error");
    assert_eq!(AppError::StoreUnavailable.message(), "Internal Server Error");
    assert_eq!(AppError::NotRegistered.message(), "Signup first");
    assert_eq!(AppError::NotFound.message(), "Enter Valid todo id");
}
