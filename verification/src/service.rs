use vstd::prelude::*;
use crate::model::{outcome_view, Repository, User, UserView};

verus! {

/// A thin façade exposing user workflows over an injected [`Repository`]
/// implementation, which it owns exclusively for its own lifetime.
pub struct UserService<R: Repository> {
    pub repo: R,
}

impl<R: Repository> UserService<R> {
    /// Takes exclusive ownership of the given repository implementation.
    pub fn new(repo: R) -> (s: Self)
        ensures
            s.repo == repo,
    {
        UserService { repo }
    }

    /// Delegates directly to the repository's lookup: returns the stored
    /// user matching `id`, or nothing if the store holds none. No logic is
    /// added and no error is translated.
    pub fn get_user(&self, id: u64) -> (r: Option<&User>)
        ensures
            match r {
                Some(u) => self.repo.stored().contains_key(id) && u@ == self.repo.stored()[id],
                None => !self.repo.stored().contains_key(id),
            },
    {
        self.repo.find_by_id(id)
    }

    /// Constructs a user with the given name and email and an unassigned
    /// identifier, hands it to the repository's save, and forwards the
    /// outcome unchanged: result and state change are exactly those of the
    /// repository's own policy for that user. No validation is performed
    /// here.
    pub fn create_user(&mut self, name: String, email: String) -> (r: Result<(), String>)
        ensures
            R::save_outcome(
                old(self).repo,
                (UserView { id: 0, name: name@, email: email@ }),
                final(self).repo,
                outcome_view(r),
            ),
    {
        let user = User::new(name, email);
        self.repo.save(user)
    }
}

} // verus!
