use vstd::prelude::*;

verus! {

/// A registered account. `password` holds the password's hash, never the
/// plaintext.
#[derive(Debug)]
pub struct User {
    pub email: String,
    pub name: String,
    pub password: String,
}

impl Clone for User {
    fn clone(&self) -> (r: Self)
        ensures
            r == *self,
    {
        User { email: self.email.clone(), name: self.name.clone(), password: self.password.clone() }
    }
}

/// Whether some user in `users` has the email `email`.
pub open spec fn has_email(users: Seq<User>, email: Seq<char>) -> bool {
    exists|i: int| 0 <= i < users.len() && #[trigger] users[i].email@ == email
}

/// `i` is the first position in `users` whose email is `email`.
pub open spec fn first_with_email(users: Seq<User>, email: Seq<char>, i: int) -> bool {
    &&& 0 <= i < users.len()
    &&& users[i].email@ == email
    &&& forall|j: int| 0 <= j < i ==> #[trigger] users[j].email@ != email
}

/// What adding `user` to `before` leaves in `after`, given the result `r`.
pub open spec fn add_user_post(before: Seq<User>, after: Seq<User>, user: User, r: Result<String, String>) -> bool {
    &&& r is Err <==> has_email(before, user.email@)
    &&& r matches Ok(m) ==> m@ == "User created Successfully"@ && after == before.push(user)
    &&& r matches Err(m) ==> m@ == "User exists already"@ && after == before
}

impl User {
    /// Looks up the user registered under `email`.
    pub fn get_user(users: &Vec<User>, email: &String) -> (r: Option<User>)
        ensures
            r is None <==> !has_email(users@, email@),
            r matches Some(u) ==> exists|i: int| first_with_email(users@, email@, i) && u == users@[i],
    {
        let mut i: usize = 0;
        while i < users.len()
            invariant
                i <= users.len(),
                forall|j: int| 0 <= j < i ==> #[trigger] users@[j].email@ != email@,
            decreases users.len() - i,
        {
            if users[i].email == *email {
                let u = users[i].clone();
                assert(first_with_email(users@, email@, i as int));
                return Some(u);
            }
            i = i + 1;
        }
        None
    }

    /// Appends `user` unless its email is taken; on success returns the
    /// confirmation message.
    pub fn add_user(users: &mut Vec<User>, user: &User) -> (r: Result<String, String>)
        ensures
            add_user_post(old(users)@, final(users)@, *user, r),
    {
        match User::get_user(users, &user.email) {
            Some(_) => Err("User exists already".to_owned()),
            None => {
                users.push(user.clone());
                Ok("User created Successfully".to_owned())
            },
        }
    }
}

} // verus!
