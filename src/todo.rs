use vstd::prelude::*;
use crate::errors::AppError;

verus! {

/// A task. `user_email` names its owner; `id` is one more than the number of
/// tasks that existed when it was created.
#[derive(Debug)]
pub struct Todo {
    pub id: u32,
    pub title: String,
    pub done: bool,
    pub user_email: String,
}

impl Clone for Todo {
    fn clone(&self) -> (r: Self)
        ensures
            r == *self,
    {
        Todo { id: self.id, title: self.title.clone(), done: self.done, user_email: self.user_email.clone() }
    }
}

/// The tasks of `todos` owned by `email`, in their order.
pub open spec fn owned_by(todos: Seq<Todo>, email: Seq<char>) -> Seq<Todo>
    decreases todos.len(),
{
    if todos.len() == 0 {
        Seq::empty()
    } else {
        let rest = owned_by(todos.drop_last(), email);
        if todos.last().user_email@ == email {
            rest.push(todos.last())
        } else {
            rest
        }
    }
}

/// Whether some task in `todos` has the id `id`.
pub open spec fn has_id(todos: Seq<Todo>, id: u32) -> bool {
    exists|i: int| 0 <= i < todos.len() && #[trigger] todos[i].id == id
}

/// `i` is the first position in `todos` whose id is `id`.
pub open spec fn first_with_id(todos: Seq<Todo>, id: u32, i: int) -> bool {
    &&& 0 <= i < todos.len()
    &&& todos[i].id == id
    &&& forall|j: int| 0 <= j < i ==> #[trigger] todos[j].id != id
}


/// What an update leaves at one position: the task rewritten when its id is
/// `id`, untouched otherwise.
pub open spec fn after_update(before: Todo, after: Todo, id: u32, title: Seq<char>, done: bool) -> bool {
    if before.id == id {
        &&& after.id == before.id
        &&& after.user_email == before.user_email
        &&& after.title@ == title
        &&& after.done == done
    } else {
        after == before
    }
}

impl Todo {
    /// Appends a new task owned by `email`, with id one more than the number
    /// of existing tasks, and returns it.
    pub fn add_todo(title: String, done: bool, email: String, todos: &mut Vec<Todo>) -> (r: Todo)
        requires
            old(todos).len() < u32::MAX,
        ensures
            r.id == old(todos).len() + 1,
            r.title == title,
            r.done == done,
            r.user_email == email,
            final(todos)@ == old(todos)@.push(r),
    {
        let id = (todos.len() + 1) as u32;
        let todo = Todo { id, done, title, user_email: email };
        todos.push(todo.clone());
        todo
    }

    /// The tasks owned by `email`, in insertion order.
    pub fn get_user_todos(email: String, todos: &Vec<Todo>) -> (r: Vec<Todo>)
        ensures
            r@ == owned_by(todos@, email@),
    {
        let mut user_todos: Vec<Todo> = Vec::new();
        let mut i: usize = 0;
        while i < todos.len()
            invariant
                i <= todos.len(),
                user_todos@ == owned_by(todos@.subrange(0, i as int), email@),
            decreases todos.len() - i,
        {
            let t = todos[i].clone();
            let ghost next = todos@.subrange(0, i as int + 1);
            assert(next.drop_last() =~= todos@.subrange(0, i as int));
            assert(next.last() == t);
            if t.user_email == email {
                user_todos.push(t);
            }
            assert(user_todos@ == owned_by(next, email@));
            i = i + 1;
        }
        assert(todos@.subrange(0, todos.len() as int) =~= todos@);
        user_todos
    }

    /// The first task with id `id`, if any.
    pub fn get_todo(id: u32, todos: &Vec<Todo>) -> (r: Option<Todo>)
        ensures
            r is None <==> !has_id(todos@, id),
            r matches Some(t) ==> exists|i: int| first_with_id(todos@, id, i) && t == todos@[i],
    {
        let mut i: usize = 0;
        while i < todos.len()
            invariant
                i <= todos.len(),
                forall|j: int| 0 <= j < i ==> #[trigger] todos@[j].id != id,
            decreases todos.len() - i,
        {
            if todos[i].id == id {
                let t = todos[i].clone();
                assert(first_with_id(todos@, id, i as int));
                return Some(t);
            }
            i = i + 1;
        }
        None
    }

    /// Sets `title` and `done` of task `id` when `email` owns it.
    /// Fails with `NotFound` when no task has that id, and with `NotOwner`
    /// when the first task with that id belongs to someone else; the tasks
    /// are then unchanged.
    pub fn update_todo(id: u32, email: String, title: String, done: bool, todos: &mut Vec<Todo>) -> (r: Result<String, AppError>)
        ensures
            !has_id(old(todos)@, id) ==> r == Err::<String, AppError>(AppError::NotFound),
            has_id(old(todos)@, id) ==> r != Err::<String, AppError>(AppError::NotFound),
            has_id(old(todos)@, id) ==> (r is Ok <==> forall|i: int| first_with_id(old(todos)@, id, i) ==> old(todos)@[i].user_email@ == email@),
            r is Err ==> r == Err::<String, AppError>(AppError::NotFound) || r == Err::<String, AppError>(AppError::NotOwner),
            r is Err ==> final(todos)@ == old(todos)@,
            r matches Ok(m) ==> m@ == "Updated Successfully"@,
            r is Ok ==> final(todos).len() == old(todos).len(),
            r is Ok ==> forall|i: int| 0 <= i < old(todos).len() ==> after_update(#[trigger] old(todos)@[i], final(todos)@[i], id, title@, done),
    {
        let existing = Todo::get_todo(id, todos);
        match existing {
            None => Err(AppError::NotFound),
            Some(t) => {
                if t.user_email != email {
                    return Err(AppError::NotOwner);
                }
                let ghost before = todos@;
                let mut i: usize = 0;
                while i < todos.len()
                    invariant
                        i <= todos.len(),
                        todos.len() == before.len(),
                        forall|j: int| 0 <= j < i ==> after_update(#[trigger] before[j], todos@[j], id, title@, done),
                        forall|j: int| i <= j < todos.len() ==> #[trigger] todos@[j] == before[j],
                    decreases todos.len() - i,
                {
                    if todos[i].id == id {
                        let mut item = todos[i].clone();
                        item.done = done;
                        item.title = title.clone();
                        todos.set(i, item);
                    }
                    i = i + 1;
                }
                Ok("Updated Successfully".to_owned())
            },
        }
    }
}

} // verus!
