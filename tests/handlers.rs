use todo_store::errors::{AppError, ErrorCategory};
use todo_store::gate::authorize;
use todo_store::handlers::{create_todo, get_todos, signin, signup, update_todo, CreateTodo, SigninInput};
use todo_store::state::{prepare_global_state, GlobalState};
use todo_store::user::User;

fn register_and_sign_in(state: &GlobalState, email: &str) -> String {
    let input = User {
        email: email.to_string(),
        name: "VK".to_string(),
        password: "Random1234".to_string(),
    };
    let res = signup(state, &input).ok().unwrap();
    assert_eq!(res.data, String::from("User created Successfully"));

    let input = SigninInput {
        email: email.to_string(),
        password: "Random1234".to_string(),
    };
    let res = signin(state, &input);
    assert!(res.is_ok());
    res.ok().unwrap().data
}

#[test]
fn should_signup() {
    let state = prepare_global_state();
    let input = User {
        email: "vk1@gmail.com".to_string(),
        name: "VK".to_string(),
        password: "Random123".to_string(),
    };
    let res = signup(&state, &input).ok().unwrap();
    assert_eq!(res.data, String::from("User created Successfully"));
}

#[test]
fn should_signin() {
    let state = prepare_global_state();
    let input = User {
        email: "vk2@gmail.com".to_string(),
        name: "VK".to_string(),
        password: "Random1234".to_string(),
    };
    let res = signup(&state, &input).ok().unwrap();
    assert_eq!(res.data, String::from("User created Successfully"));

    let input = SigninInput {
        email: "vk2@gmail.com".to_string(),
        password: "Random1234".to_string(),
    };
    let res = signin(&state, &input);
    assert!(res.is_ok());
}

#[test]
fn should_not_signin() {
    let state = prepare_global_state();
    let input = User {
        email: "vk3@gmail.com".to_string(),
        name: "VK".to_string(),
        password: "Random1234".to_string(),
    };
    let res = signup(&state, &input).ok().unwrap();
    assert_eq!(res.data, String::from("User created Successfully"));

    let input = SigninInput {
        email: "vk3@gmail.com".to_string(),
        password: "INVALID_PASSWORD".to_string(),
    };
    let res = signin(&state, &input);
    assert!(res.is_err());
    let e = res.err().unwrap();
    assert_eq!(e.category(), ErrorCategory::ClientError);
    assert_eq!(e.message(), String::from("Enter valid Password"));
}

#[test]
fn should_create_todo() {
    let state = prepare_global_state();
    let token = register_and_sign_in(&state, "vk4@gmail.com");

    let identity = authorize(Some(Some(token))).ok().unwrap();
    let todo = CreateTodo { title: "Go to Gym".to_string(), done: false };
    let res = create_todo(&state, identity, &todo).ok().unwrap();
    assert_eq!(res.title, "Go to Gym");
    assert_eq!(res.done, false);
}

#[test]
fn should_not_create_todo() {
    let res = authorize(None);
    match res {
        Ok(_) => assert!(false),
        Err(e) => {
            assert_eq!(e, AppError::MissingToken);
            assert_eq!(e.message(), String::from("Token Not found"));
            assert_eq!(e.category(), ErrorCategory::Unauthorized);
        }
    }
}

#[test]
fn should_update_todo() {
    let state = prepare_global_state();
    let token = register_and_sign_in(&state, "vk5@gmail.com");

    let identity = authorize(Some(Some(token.clone()))).ok().unwrap();
    let todo = CreateTodo { title: "Go to Gym".to_string(), done: false };
    let data = create_todo(&state, identity, &todo).ok().unwrap();
    assert_eq!(data.title, "Go to Gym");
    assert_eq!(data.done, false);

    let todo = CreateTodo { done: true, title: "Go to Gym".to_string() };
    let identity = authorize(Some(Some(token.clone()))).ok().unwrap();
    let res = update_todo(&state, identity, &todo, data.id).ok().unwrap();
    assert_eq!(res.message, String::from("Updated Successfully"));

    let identity = authorize(Some(Some(token))).ok().unwrap();
    let list = get_todos(&state, identity).ok().unwrap();
    let found = list.iter().find(|t| t.id == data.id).unwrap();
    assert_eq!(found.done, true);
}

#[test]
fn should_get_todos() {
    let state = prepare_global_state();
    let token = register_and_sign_in(&state, "vk6@gmail.com");
    let identity = authorize(Some(Some(token))).ok().unwrap();

    let todo = CreateTodo { title: "Go to Gym".to_string(), done: false };
    let todo2 = CreateTodo { title: "Go to Movie".to_string(), done: false };
    create_todo(&state, identity.clone(), &todo).ok().unwrap();
    create_todo(&state, identity.clone(), &todo2).ok().unwrap();

    let res = get_todos(&state, identity).ok().unwrap();
    assert_eq!(res.len(), 2);
    assert_eq!(res[0].title, String::from("Go to Gym"));
    assert_eq!(res[0].done, false);
    assert_eq!(res[1].title, String::from("Go to Movie"));
    assert_eq!(res[1].done, false);
}

#[test]
fn register_scenario_message() {
    let state = prepare_global_state();
    let input = User {
        email: "vk@x.com".to_string(),
        name: "VK".to_string(),
        password: "Random1234".to_string(),
    };
    let res = signup(&state, &input).ok().unwrap();
    assert_eq!(res.data, "User created Successfully");
}

#[test]
fn register_twice_is_refused() {
    let state = prepare_global_state();
    let input = User {
        email: "twice@x.com".to_string(),
        name: "First".to_string(),
        password: "one".to_string(),
    };
    assert!(signup(&state, &input).is_ok());
    let again = User {
        email: "twice@x.com".to_string(),
        name: "Second".to_string(),
        password: "two".to_string(),
    };
    let e = signup(&state, &again).err().unwrap();
    assert_eq!(e, AppError::AlreadyExists);
    assert_eq!(e.message(), "User exists already");
    let ok = signin(&state, &SigninInput { email: "twice@x.com".to_string(), password: "one".to_string() });
    assert!(ok.is_ok());
    let bad = signin(&state, &SigninInput { email: "twice@x.com".to_string(), password: "two".to_string() });
    assert_eq!(bad.err().unwrap(), AppError::WrongPassword);
}

#[test]
fn signin_unregistered_fails() {
    let state = prepare_global_state();
    let res = signin(&state, &SigninInput { email: "nobody@x.com".to_string(), password: "pw".to_string() });
    assert_eq!(res.err().unwrap(), AppError::NotRegistered);
}

#[test]
fn other_users_tasks_are_hidden_and_protected() {
    let state = prepare_global_state();
    let a = "a@x.com".to_string();
    let b = "b@x.com".to_string();
    let t = create_todo(&state, a.clone(), &CreateTodo { title: "A's".to_string(), done: false }).ok().unwrap();
    assert_eq!(t.id, 1);
    assert!(get_todos(&state, b.clone()).ok().unwrap().is_empty());

    let e = update_todo(&state, b, &CreateTodo { title: "hijack".to_string(), done: true }, t.id).err().unwrap();
    assert_eq!(e, AppError::NotOwner);
    assert_eq!(e.message(), "UNAUTHORISED");
    let mine = get_todos(&state, a.clone()).ok().unwrap();
    assert_eq!(mine.len(), 1);
    assert_eq!(mine[0].title, "A's");
    assert_eq!(mine[0].done, false);

    let e = update_todo(&state, a, &CreateTodo { title: "x".to_string(), done: true }, 99).err().unwrap();
    assert_eq!(e, AppError::NotFound);
    assert_eq!(e.category(), ErrorCategory::ClientError);
}

#[test]
fn repeated_creates_are_not_lost() {
    let state = prepare_global_state();
    let n: u32 = 16;
    let mut ids: Vec<u32> = Vec::new();
    for i in 0..n {
        let s = state.clone();
        let t = create_todo(&s, "c@x.com".to_string(), &CreateTodo { title: format!("t{}", i), done: false }).ok().unwrap();
        ids.push(t.id);
    }
    ids.sort();
    ids.dedup();
    assert_eq!(ids.len(), n as usize);
    assert_eq!(get_todos(&state, "c@x.com".to_string()).ok().unwrap().len(), n as usize);
}

#[test]
fn gate_rejects_bad_credentials() {
    assert_eq!(authorize(Some(None)).err().unwrap(), AppError::MalformedHeader);
    let e = authorize(Some(Some("not-a-token".to_string()))).err().unwrap();
    assert_eq!(e, AppError::InvalidToken);
    assert_eq!(e.category(), ErrorCategory::Unauthorized);
}
