use std::sync::{Arc, Mutex, MutexGuard};
use vstd::prelude::*;
use crate::errors::AppError;
use crate::todo::{first_with_id, has_id, owned_by, after_update, Todo};
use crate::token::{expiry_of, issue_token_at, jwt_claims, unix_now, JWT_SECRET};
use crate::user::{first_with_email, has_email, User};
use crate::vault::{argon2_accepts, get_hashed_password, verify_password};

verus! {

/// The two collections of the service. Emails are unique among the users,
/// and the task at position `i` has id `i + 1`.
pub struct CombinedState {
    users: Vec<User>,
    todos: Vec<Todo>,
}

/// Emails are pairwise distinct.
pub open spec fn emails_unique(users: Seq<User>) -> bool {
    forall|i: int, j: int| 0 <= i < j < users.len() ==> #[trigger] users[i].email@ != #[trigger] users[j].email@
}

/// Each task's id is its position plus one, and every id fits in a `u32`.
pub open spec fn ids_by_position(todos: Seq<Todo>) -> bool {
    &&& todos.len() <= u32::MAX
    &&& forall|i: int| 0 <= i < todos.len() ==> #[trigger] todos[i].id == i + 1
}

/// What a registration of `email` leaves, from `users` to `next`, given its
/// result `r`.
pub open spec fn register_post(
    users: Seq<User>,
    next: Seq<User>,
    email: Seq<char>,
    name: Seq<char>,
    password: Seq<char>,
    r: Result<String, AppError>,
) -> bool {
    &&& has_email(users, email) ==> r == Err::<String, AppError>(AppError::AlreadyExists)
    &&& !has_email(users, email) ==> (r is Ok || r == Err::<String, AppError>(AppError::HashingFailure))
    &&& r is Err ==> next == users
    &&& r matches Ok(m) ==> {
        &&& m@ == "User created Successfully"@
        &&& next.len() == users.len() + 1
        &&& next.drop_last() == users
        &&& next.last().email@ == email
        &&& next.last().name@ == name
        &&& argon2_accepts(next.last().password@, password)
    }
}

/// What a creation by `owner` leaves, from `todos` to `next`, given its
/// result `r`.
pub open spec fn create_post(
    todos: Seq<Todo>,
    next: Seq<Todo>,
    owner: Seq<char>,
    title: Seq<char>,
    done: bool,
    r: Result<Todo, AppError>,
) -> bool {
    &&& todos.len() < u32::MAX <==> r is Ok
    &&& r is Err ==> r == Err::<Todo, AppError>(AppError::IdSpaceExhausted) && next == todos
    &&& r matches Ok(t) ==> {
        &&& t.id == todos.len() + 1
        &&& t.title@ == title
        &&& t.done == done
        &&& t.user_email@ == owner
        &&& next == todos.push(t)
    }
}

/// What an update of task `id` by `caller` leaves, from `todos` to `next`,
/// given its result `r`.
pub open spec fn update_post(
    todos: Seq<Todo>,
    next: Seq<Todo>,
    id: u32,
    caller: Seq<char>,
    title: Seq<char>,
    done: bool,
    r: Result<String, AppError>,
) -> bool {
    &&& !has_id(todos, id) ==> r == Err::<String, AppError>(AppError::NotFound)
    &&& has_id(todos, id) ==> r != Err::<String, AppError>(AppError::NotFound)
    &&& has_id(todos, id) ==> (r is Ok <==> forall|i: int| first_with_id(todos, id, i) ==> todos[i].user_email@ == caller)
    &&& r is Err ==> (r == Err::<String, AppError>(AppError::NotFound) || r == Err::<String, AppError>(AppError::NotOwner))
    &&& r is Err ==> next == todos
    &&& r matches Ok(m) ==> m@ == "Updated Successfully"@
    &&& r is Ok ==> next.len() == todos.len()
    &&& r is Ok ==> forall|i: int| 0 <= i < todos.len() ==> after_update(#[trigger] todos[i], next[i], id, title, done)
}

/// What signing in as `email` with `password` at time `now` gives.
pub open spec fn authenticate_post(
    users: Seq<User>,
    email: Seq<char>,
    password: Seq<char>,
    now: int,
    r: Result<String, AppError>,
) -> bool {
    &&& !has_email(users, email) ==> r == Err::<String, AppError>(AppError::NotRegistered)
    &&& forall|i: int| #[trigger] first_with_email(users, email, i) ==> {
        &&& (r == Err::<String, AppError>(AppError::WrongPassword) <==> !argon2_accepts(users[i].password@, password))
        &&& argon2_accepts(users[i].password@, password) ==> (r is Ok <==> now >= 0)
        &&& argon2_accepts(users[i].password@, password) && now < 0 ==> r == Err::<String, AppError>(AppError::TokenIssueFailure)
    }
    &&& now < 0 && has_email(users, email) ==> r is Err
    &&& r matches Ok(t) ==> jwt_claims(t@, JWT_SECRET@) == Some((email, expiry_of(now)))
}

impl CombinedState {
    #[verifier::type_invariant]
    pub closed spec fn wf(self) -> bool {
        &&& emails_unique(self.users@)
        &&& ids_by_position(self.todos@)
    }

    /// The registered users, in order of registration.
    pub closed spec fn users_spec(self) -> Seq<User> {
        self.users@
    }

    /// The tasks, in order of creation.
    pub closed spec fn todos_spec(self) -> Seq<Todo> {
        self.todos@
    }

    /// An empty store.
    pub fn new() -> (r: CombinedState)
        ensures
            r.users_spec() == Seq::<User>::empty(),
            r.todos_spec() == Seq::<Todo>::empty(),
    {
        CombinedState { users: Vec::new(), todos: Vec::new() }
    }

    /// Registers `email` under `name`, storing a hash of `password`. Fails
    /// with `AlreadyExists` when the email is taken; the first user's
    /// record is then untouched.
    pub fn register(&mut self, email: String, name: String, password: &str) -> (r: Result<String, AppError>)
        ensures
            register_post(old(self).users_spec(), final(self).users_spec(), email@, name@, password@, r),
            final(self).todos_spec() == old(self).todos_spec(),
            emails_unique(final(self).users_spec()),
            ids_by_position(final(self).todos_spec()),
    {
        proof {
            use_type_invariant(&*self);
        }
        if User::get_user(&self.users, &email).is_some() {
            return Err(AppError::AlreadyExists);
        }
        let hash = match get_hashed_password(password) {
            Ok(h) => h,
            Err(e) => return Err(e),
        };
        let user = User { email, name, password: hash };
        let mut taken = CombinedState::new();
        std::mem::swap(self, &mut taken);
        proof {
            use_type_invariant(&taken);
        }
        let CombinedState { mut users, todos } = taken;
        let ghost before = users@;
        let r = User::add_user(&mut users, &user);
        assert(r is Ok ==> users@.drop_last() =~= before);
        *self = CombinedState { users, todos };
        match r {
            Ok(m) => Ok(m),
            Err(_) => Err(AppError::AlreadyExists),
        }
    }

    /// Signs in as `email` with `password` at time `now` and returns a
    /// session token. Fails with `NotRegistered`, `WrongPassword`, or
    /// `TokenIssueFailure`.
    pub fn authenticate_at(&self, email: &String, password: &String, now: i64) -> (r: Result<String, AppError>)
        ensures
            authenticate_post(self.users_spec(), email@, password@, now as int, r),
    {
        proof {
            use_type_invariant(self);
        }
        let user = match User::get_user(&self.users, email) {
            Some(u) => u,
            None => return Err(AppError::NotRegistered),
        };
        proof {
            assert forall|i: int| #[trigger] first_with_email(self.users@, email@, i) implies self.users@[i] == user by {
                let k = choose|k: int| first_with_email(self.users@, email@, k) && user == self.users@[k];
                if k < i {
                    assert(self.users@[k].email@ == email@);
                } else if i < k {
                    assert(self.users@[i].email@ == email@);
                }
            }
        }
        if !verify_password(user.password.as_str(), password) {
            return Err(AppError::WrongPassword);
        }
        issue_token_at(email.as_str(), now)
    }

    /// Signs in as `email` with `password` at the current time.
    pub fn authenticate(&self, email: &String, password: &String) -> (r: Result<String, AppError>)
        ensures
            exists|now: int| i64::MIN <= now <= i64::MAX && #[trigger] authenticate_post(self.users_spec(), email@, password@, now, r),
    {
        let now = unix_now();
        self.authenticate_at(email, password, now)
    }

    /// Creates a task owned by `owner` with id one more than the number of
    /// existing tasks. Fails with `IdSpaceExhausted` when that id does not
    /// fit in a `u32`.
    pub fn create(&mut self, owner: String, title: String, done: bool) -> (r: Result<Todo, AppError>)
        ensures
            create_post(old(self).todos_spec(), final(self).todos_spec(), owner@, title@, done, r),
            final(self).users_spec() == old(self).users_spec(),
            emails_unique(final(self).users_spec()),
            ids_by_position(final(self).todos_spec()),
    {
        proof {
            use_type_invariant(&*self);
        }
        if self.todos.len() >= 4294967295 {
            return Err(AppError::IdSpaceExhausted);
        }
        let mut taken = CombinedState::new();
        std::mem::swap(self, &mut taken);
        proof {
            use_type_invariant(&taken);
        }
        let CombinedState { users, mut todos } = taken;
        let t = Todo::add_todo(title, done, owner, &mut todos);
        *self = CombinedState { users, todos };
        Ok(t)
    }

    /// The tasks owned by `owner`, in creation order.
    pub fn list(&self, owner: String) -> (r: Vec<Todo>)
        ensures
            r@ == owned_by(self.todos_spec(), owner@),
    {
        Todo::get_user_todos(owner, &self.todos)
    }

    /// Sets `title` and `done` of task `id` on behalf of `caller`. Fails with
    /// `NotFound` or `NotOwner`, leaving the tasks unchanged.
    pub fn update(&mut self, id: u32, caller: String, title: String, done: bool) -> (r: Result<String, AppError>)
        ensures
            update_post(old(self).todos_spec(), final(self).todos_spec(), id, caller@, title@, done, r),
            final(self).users_spec() == old(self).users_spec(),
            emails_unique(final(self).users_spec()),
            ids_by_position(final(self).todos_spec()),
    {
        proof {
            use_type_invariant(&*self);
        }
        let mut taken = CombinedState::new();
        std::mem::swap(self, &mut taken);
        proof {
            use_type_invariant(&taken);
        }
        let CombinedState { users, mut todos } = taken;
        let ghost before = todos@;
        let r = Todo::update_todo(id, caller, title, done, &mut todos);
        proof {
            if r is Ok {
                assert forall|i: int| 0 <= i < todos@.len() implies #[trigger] todos@[i].id == i + 1 by {
                    assert(after_update(before[i], todos@[i], id, title@, done));
                }
            }
        }
        *self = CombinedState { users, todos };
        r
    }
}

#[verifier::external_type_specification]
#[verifier::external_body]
#[verifier::reject_recursive_types(T)]
pub struct ExMutex<T: ?Sized>(Mutex<T>);

#[verifier::external_type_specification]
#[verifier::external_body]
#[verifier::reject_recursive_types(T)]
pub struct ExMutexGuard<'a, T: ?Sized + 'a>(MutexGuard<'a, T>);

/// Relies on `Mutex::new`: a lock, not yet held, around `t`.
pub assume_specification<T>[ Mutex::<T>::new ](t: T) -> Mutex<T>;

/// Relies on `Mutex::lock`: waits until the lock is free and holds it until
/// the guard is dropped; `None` when an earlier holder panicked and
/// poisoned it.
#[verifier::external_body]
pub(crate) fn acquire(m: &Mutex<CombinedState>) -> (r: Option<MutexGuard<'_, CombinedState>>) {
    m.lock().ok()
}

/// Relies on `DerefMut` of `MutexGuard`: the state that the held lock
/// protects. Which state that is depends on earlier holders.
#[verifier::external_body]
pub(crate) fn guarded<'a, 'b>(g: &'b mut MutexGuard<'a, CombinedState>) -> (r: &'b mut CombinedState) {
    &mut **g
}

/// The store shared by all requests: both collections behind one lock.
#[derive(Clone)]
pub struct GlobalState {
    pub overall_state: Arc<Mutex<CombinedState>>,
}

/// A shared store with no users and no tasks.
pub fn prepare_global_state() -> (r: GlobalState) {
    let combined_state = CombinedState::new();
    GlobalState { overall_state: Arc::new(Mutex::new(combined_state)) }
}

} // verus!
