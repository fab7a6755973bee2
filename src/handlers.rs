use vstd::prelude::*;
use crate::errors::AppError;
use crate::state::{acquire, authenticate_post, create_post, guarded, register_post, update_post, GlobalState};
use crate::todo::{owned_by, Todo};
use crate::user::User;

verus! {

/// The body of a create or update request.
pub struct CreateTodo {
    pub title: String,
    pub done: bool,
}

/// A confirmation or refusal message.
pub struct Message {
    pub message: String,
}

/// The body of a sign-in request.
pub struct SigninInput {
    pub email: String,
    pub password: String,
}

/// The body of a registration or sign-in response.
pub struct AppResponse {
    pub data: String,
}

pub open spec fn response_view(r: Result<AppResponse, AppError>) -> Result<String, AppError> {
    match r {
        Ok(a) => Ok(a.data),
        Err(e) => Err(e),
    }
}

pub open spec fn message_view(r: Result<Message, AppError>) -> Result<String, AppError> {
    match r {
        Ok(m) => Ok(m.message),
        Err(e) => Err(e),
    }
}

/// Registers `input` (its `password` in plaintext) under the store's lock.
/// Whatever the store held, the outcome is that of a registration on it;
/// `StoreUnavailable` when the lock is poisoned.
pub fn signup(data: &GlobalState, input: &User) -> (r: Result<AppResponse, AppError>)
    ensures
        r == Err::<AppResponse, AppError>(AppError::StoreUnavailable) || exists|before: Seq<User>, after: Seq<User>|
            #[trigger] register_post(before, after, input.email@, input.name@, input.password@, response_view(r)),
{
    let mut guard = match acquire(&data.overall_state) {
        Some(g) => g,
        None => return Err(AppError::StoreUnavailable),
    };
    let state = guarded(&mut guard);
    let ghost before = state.users_spec();
    let r = state.register(input.email.clone(), input.name.clone(), input.password.as_str());
    let ghost after = state.users_spec();
    let out = match r {
        Ok(m) => Ok(AppResponse { data: m }),
        Err(e) => Err(e),
    };
    assert(register_post(before, after, input.email@, input.name@, input.password@, response_view(out)));
    out
}

/// Signs in under the store's lock and returns the session token as
/// `data`; `StoreUnavailable` when the lock is poisoned.
pub fn signin(data: &GlobalState, input: &SigninInput) -> (r: Result<AppResponse, AppError>)
    ensures
        r == Err::<AppResponse, AppError>(AppError::StoreUnavailable) || exists|users: Seq<User>, now: int|
            #[trigger] authenticate_post(users, input.email@, input.password@, now, response_view(r)),
{
    let mut guard = match acquire(&data.overall_state) {
        Some(g) => g,
        None => return Err(AppError::StoreUnavailable),
    };
    let state = guarded(&mut guard);
    let r = state.authenticate(&input.email, &input.password);
    match r {
        Ok(t) => Ok(AppResponse { data: t }),
        Err(e) => Err(e),
    }
}

/// Creates a task owned by `identity` under the store's lock;
/// `StoreUnavailable` when the lock is poisoned.
pub fn create_todo(data: &GlobalState, identity: String, input: &CreateTodo) -> (r: Result<Todo, AppError>)
    ensures
        r == Err::<Todo, AppError>(AppError::StoreUnavailable) || exists|before: Seq<Todo>, after: Seq<Todo>|
            #[trigger] create_post(before, after, identity@, input.title@, input.done, r),
        r matches Ok(t) ==> t.user_email@ == identity@ && t.title@ == input.title@ && t.done == input.done,
{
    let mut guard = match acquire(&data.overall_state) {
        Some(g) => g,
        None => return Err(AppError::StoreUnavailable),
    };
    let state = guarded(&mut guard);
    let ghost before = state.todos_spec();
    let r = state.create(identity, input.title.clone(), input.done);
    let ghost after = state.todos_spec();
    assert(create_post(before, after, identity@, input.title@, input.done, r));
    r
}

/// Updates task `id` on behalf of `identity` under the store's lock;
/// `StoreUnavailable` when the lock is poisoned.
pub fn update_todo(data: &GlobalState, identity: String, input: &CreateTodo, id: u32) -> (r: Result<Message, AppError>)
    ensures
        r == Err::<Message, AppError>(AppError::StoreUnavailable) || exists|before: Seq<Todo>, after: Seq<Todo>|
            #[trigger] update_post(before, after, id, identity@, input.title@, input.done, message_view(r)),
{
    let mut guard = match acquire(&data.overall_state) {
        Some(g) => g,
        None => return Err(AppError::StoreUnavailable),
    };
    let state = guarded(&mut guard);
    let ghost before = state.todos_spec();
    let r = state.update(id, identity.clone(), input.title.clone(), input.done);
    let ghost after = state.todos_spec();
    let out = match r {
        Ok(m) => Ok(Message { message: m }),
        Err(e) => Err(e),
    };
    assert(update_post(before, after, id, identity@, input.title@, input.done, message_view(out)));
    out
}

/// The tasks of `identity`, in creation order, read under the store's
/// lock; `StoreUnavailable` when the lock is poisoned.
pub fn get_todos(data: &GlobalState, identity: String) -> (r: Result<Vec<Todo>, AppError>)
    ensures
        r is Err ==> r == Err::<Vec<Todo>, AppError>(AppError::StoreUnavailable),
        r matches Ok(v) ==> exists|todos: Seq<Todo>| v@ == #[trigger] owned_by(todos, identity@),
{
    let mut guard = match acquire(&data.overall_state) {
        Some(g) => g,
        None => return Err(AppError::StoreUnavailable),
    };
    let state = guarded(&mut guard);
    let v = state.list(identity);
    Ok(v)
}

} // verus!
