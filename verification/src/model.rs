use vstd::prelude::*;
use vstd::string::StrSliceExecFns;

verus! {

/// A user's identity and contact data. Every field is fixed once the value
/// is constructed: there are no setters, so replacement means building a
/// new value.
pub struct User {
    /// Unsigned identifier; `0` means "not yet assigned/persisted".
    pub id: u64,
    pub name: String,
    pub email: String,
}

/// The mathematical value of a [`User`]: its identifier together with the
/// character sequences of its name and email.
pub struct UserView {
    pub id: u64,
    pub name: Seq<char>,
    pub email: Seq<char>,
}

impl View for User {
    type V = UserView;

    open spec fn view(&self) -> UserView {
        UserView { id: self.id, name: self.name@, email: self.email@ }
    }
}

/// Whether `email` contains at least one `'@'` character.
pub open spec fn has_at_sign(email: Seq<char>) -> bool {
    exists|i: int| 0 <= i < email.len() && email[i] == '@'
}

impl User {
    /// Constructs a user with the given name and email and an unassigned
    /// identifier. Performs no validation and never fails.
    pub fn new(name: String, email: String) -> (u: User)
        ensures
            u.id == 0,
            u.name@ == name@,
            u.email@ == email@,
    {
        User { id: 0, name, email }
    }

    /// Returns true iff the user's email contains at least one `'@'`
    /// character; no further format checking is done. This check stands on
    /// its own: no other operation here invokes it.
    pub fn validate_email(&self) -> (r: bool)
        ensures
            r == has_at_sign(self.email@),
    {
        let s = self.email.as_str();
        let len = s.unicode_len();
        let mut i: usize = 0;
        while i < len
            invariant
                s@ == self.email@,
                len == s@.len(),
                i <= len,
                forall|j: int| 0 <= j < i ==> s@[j] != '@',
            decreases len - i,
        {
            if s.get_char(i) == '@' {
                return true;
            }
            i += 1;
        }
        false
    }
}

/// The mathematical value of a save outcome: the error text, if any, as a
/// character sequence.
pub open spec fn outcome_view(r: Result<(), String>) -> Result<(), Seq<char>> {
    match r {
        Ok(u) => Ok(u),
        Err(e) => Err(e@),
    }
}

/// The capability any concrete backing store must satisfy: look a user up
/// by identifier, or persist one. No concrete store is supplied here; an
/// embedding application injects its own implementation.
pub trait Repository: Sized {
    /// The users the store currently holds, as a map from identifier to
    /// user value. Each implementation says what it holds; left abstract
    /// here.
    open spec fn stored(&self) -> Map<u64, UserView> {
        arbitrary()
    }

    /// The store's persistence policy: how the state before a save, the
    /// user handed in, the state after, and the reported outcome relate.
    /// Identifier assignment, idempotency and duplicate handling are each
    /// implementation's own to define through this relation; left abstract
    /// here.
    open spec fn save_outcome(pre: Self, user: UserView, post: Self, r: Result<(), Seq<char>>) -> bool {
        arbitrary()
    }

    /// Returns a reference to the stored user matching `id`, or nothing if
    /// the store holds no user under that identifier. Absence is not an
    /// error.
    fn find_by_id(&self, id: u64) -> (r: Option<&User>)
        ensures
            match r {
                Some(u) => self.stored().contains_key(id) && u@ == self.stored()[id],
                None => !self.stored().contains_key(id),
            },
    ;

    /// Takes ownership of `user` and persists it, reporting success or a
    /// descriptive failure; the outcome and the new state are whatever the
    /// implementation's own policy gives for this user.
    fn save(&mut self, user: User) -> (r: Result<(), String>)
        ensures
            Self::save_outcome(*old(self), user@, *final(self), outcome_view(r)),
    ;
}

} // verus!
