use vstd::prelude::*;
use crate::errors::AppError;
use crate::state::{create_post, ids_by_position, register_post, update_post};
use crate::todo::{owned_by, Todo};
use crate::user::{add_user_post, User};
use crate::vault::argon2_accepts;

verus! {

/// Registering an email a second time fails with `AlreadyExists` and leaves
/// the users as they were, with the first user's record unchanged.
pub proof fn lemma_register_twice(
    s0: Seq<User>,
    s1: Seq<User>,
    s2: Seq<User>,
    email: Seq<char>,
    name1: Seq<char>,
    password1: Seq<char>,
    name2: Seq<char>,
    password2: Seq<char>,
    r1: Result<String, AppError>,
    r2: Result<String, AppError>,
)
    requires
        register_post(s0, s1, email, name1, password1, r1),
        r1 is Ok,
        register_post(s1, s2, email, name2, password2, r2),
    ensures
        r2 == Err::<String, AppError>(AppError::AlreadyExists),
        s2 == s1,
        s2.last().email@ == email,
        s2.last().name@ == name1,
        argon2_accepts(s2.last().password@, password1),
{
    assert(s1[s1.len() - 1].email@ == email);
}

/// Adding a user whose email was just added fails, and the stored users,
/// the first user's record among them, stay as the first call left them.
pub proof fn lemma_add_user_twice(
    users0: Seq<User>,
    users1: Seq<User>,
    users2: Seq<User>,
    first: User,
    second: User,
    r1: Result<String, String>,
    r2: Result<String, String>,
)
    requires
        add_user_post(users0, users1, first, r1),
        r1 is Ok,
        second.email@ == first.email@,
        add_user_post(users1, users2, second, r2),
    ensures
        r2 is Err,
        users2 == users0.push(first),
{
    assert(users1[users1.len() - 1].email@ == first.email@);
}

/// Every task listed for `email` is owned by `email`.
pub proof fn lemma_list_only_owned(todos: Seq<Todo>, email: Seq<char>)
    ensures
        forall|k: int| 0 <= k < owned_by(todos, email).len() ==> (#[trigger] owned_by(todos, email)[k]).user_email@ == email,
    decreases todos.len(),
{
    if todos.len() > 0 {
        let rest = owned_by(todos.drop_last(), email);
        lemma_list_only_owned(todos.drop_last(), email);
        assert forall|k: int| 0 <= k < owned_by(todos, email).len() implies (#[trigger] owned_by(todos, email)[k]).user_email@ == email by {
            if k < rest.len() {
                assert(owned_by(todos, email)[k] == rest[k]);
            }
        }
    }
}

/// A task created by `a` never appears among the tasks listed for another
/// user `b`.
pub proof fn lemma_created_not_listed_for_other(
    before: Seq<Todo>,
    after: Seq<Todo>,
    a: Seq<char>,
    b: Seq<char>,
    title: Seq<char>,
    done: bool,
    r: Result<Todo, AppError>,
)
    requires
        a != b,
        create_post(before, after, a, title, done, r),
        r is Ok,
    ensures
        !owned_by(after, b).contains(r->Ok_0),
{
    lemma_list_only_owned(after, b);
}

/// An update of task `id` by a caller who does not own it fails with
/// `NotOwner` and leaves every task, its title and done flag included,
/// unchanged.
pub proof fn lemma_non_owner_update(
    todos: Seq<Todo>,
    next: Seq<Todo>,
    id: u32,
    caller: Seq<char>,
    title: Seq<char>,
    done: bool,
    r: Result<String, AppError>,
    i: int,
)
    requires
        ids_by_position(todos),
        update_post(todos, next, id, caller, title, done, r),
        0 <= i < todos.len(),
        todos[i].id == id,
        todos[i].user_email@ != caller,
    ensures
        r == Err::<String, AppError>(AppError::NotOwner),
        next == todos,
        next[i].title == todos[i].title,
        next[i].done == todos[i].done,
{
    assert(crate::todo::first_with_id(todos, id, i));
}

/// Creations by one owner applied one after another, as the store's lock
/// serialises them: after `n` of them there are `n` more tasks, all ids are
/// distinct, and the owner's list holds exactly `n` more entries.
pub proof fn lemma_creates_accumulate(
    stages: Seq<Seq<Todo>>,
    owner: Seq<char>,
    titles: Seq<Seq<char>>,
    dones: Seq<bool>,
    results: Seq<Result<Todo, AppError>>,
    n: int,
)
    requires
        0 <= n,
        stages.len() == n + 1,
        titles.len() == n,
        dones.len() == n,
        results.len() == n,
        ids_by_position(stages[0]),
        forall|k: int| 0 <= k < n ==> create_post(stages[k], stages[k + 1], owner, titles[k], dones[k], #[trigger] results[k]) && results[k] is Ok,
    ensures
        stages[n].len() == stages[0].len() + n,
        ids_by_position(stages[n]),
        forall|i: int, j: int| 0 <= i < j < stages[n].len() ==> #[trigger] stages[n][i].id != #[trigger] stages[n][j].id,
        owned_by(stages[n], owner).len() == owned_by(stages[0], owner).len() + n,
    decreases n,
{
    if n > 0 {
        assert forall|k: int| 0 <= k < n - 1 implies create_post(stages.drop_last()[k], stages.drop_last()[k + 1], owner, titles.drop_last()[k], dones.drop_last()[k], #[trigger] results.drop_last()[k]) && results.drop_last()[k] is Ok by {
            assert(results.drop_last()[k] == results[k]);
        }
        lemma_creates_accumulate(stages.drop_last(), owner, titles.drop_last(), dones.drop_last(), results.drop_last(), n - 1);
        let prev = stages[n - 1];
        assert(results[n - 1] is Ok);
        assert(create_post(prev, stages[n], owner, titles[n - 1], dones[n - 1], results[n - 1]));
        let t = results[n - 1]->Ok_0;
        assert(stages[n].drop_last() =~= prev);
        assert(stages[n].last() == t);
        assert(forall|i: int| 0 <= i < stages[n].len() ==> #[trigger] stages[n][i].id == i + 1) by {
            assert forall|i: int| 0 <= i < stages[n].len() implies #[trigger] stages[n][i].id == i + 1 by {
                assert(stages.drop_last()[n - 1] == prev);
                if i < prev.len() {
                    assert(stages[n][i] == prev[i]);
                }
            }
        }
    } else {
        assert(forall|i: int| 0 <= i < stages[0].len() ==> #[trigger] stages[0][i].id == i + 1);
    }
}

} // verus!
