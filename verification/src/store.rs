//! The user store: the storage collaborator of the credential service.
//!
//! It holds the user rows and enforces, as an atomic constraint on `insert`,
//! that identifiers, usernames and emails are each globally unique.  The
//! credential service treats its own pre-check as an optimization only and
//! relies on this constraint as the source of truth.

use vstd::prelude::*;

use crate::errors::AuthError;

verus! {

/// A stored user row.  The password hash never leaves the credential
/// service; the public view of a user is `UserResponse`.
pub struct User {
    pub id: String,
    pub username: String,
    pub email: String,
    pub password_hash: String,
    /// Seconds since the epoch at which the row was created.
    pub created_at: u64,
    /// Seconds since the epoch at which the row was last written.
    pub updated_at: u64,
}

/// The mathematical value of a user row.
pub ghost struct UserV {
    pub id: Seq<char>,
    pub username: Seq<char>,
    pub email: Seq<char>,
    pub password_hash: Seq<char>,
    pub created_at: u64,
    pub updated_at: u64,
}

impl View for User {
    type V = UserV;

    open spec fn view(&self) -> UserV {
        UserV {
            id: self.id@,
            username: self.username@,
            email: self.email@,
            password_hash: self.password_hash@,
            created_at: self.created_at,
            updated_at: self.updated_at,
        }
    }
}

/// Some row of `s` carries this username.
pub open spec fn has_username(s: Seq<UserV>, username: Seq<char>) -> bool {
    exists|i: int| 0 <= i < s.len() && s[i].username == username
}

/// Some row of `s` carries this email.
pub open spec fn has_email(s: Seq<UserV>, email: Seq<char>) -> bool {
    exists|i: int| 0 <= i < s.len() && s[i].email == email
}

/// Some row of `s` carries this identifier.
pub open spec fn has_id(s: Seq<UserV>, id: Seq<char>) -> bool {
    exists|i: int| 0 <= i < s.len() && s[i].id == id
}

/// The position of the row carrying this username.
pub open spec fn username_index(s: Seq<UserV>, username: Seq<char>) -> int {
    choose|i: int| 0 <= i < s.len() && s[i].username == username
}

/// The row carrying this username (meaningful when `has_username` holds).
pub open spec fn user_by_username(s: Seq<UserV>, username: Seq<char>) -> UserV {
    s[username_index(s, username)]
}

/// The position of the row carrying this identifier.
pub open spec fn id_index(s: Seq<UserV>, id: Seq<char>) -> int {
    choose|i: int| 0 <= i < s.len() && s[i].id == id
}

/// The row carrying this identifier (meaningful when `has_id` holds).
pub open spec fn user_by_id(s: Seq<UserV>, id: Seq<char>) -> UserV {
    s[id_index(s, id)]
}

/// The store's invariant: identifiers, usernames and emails are each unique
/// across all rows.
pub open spec fn store_wf(s: Seq<UserV>) -> bool {
    forall|i: int, j: int|
        #![trigger s[i], s[j]]
        0 <= i < s.len() && 0 <= j < s.len() && i != j ==> s[i].username != s[j].username
            && s[i].email != s[j].email && s[i].id != s[j].id
}

/// String equality, stated over the views.
fn str_eq(a: &str, b: &str) -> (r: bool)
    ensures
        r == (a@ == b@),
{
    let owned_a = a.to_owned();
    let owned_b = b.to_owned();
    owned_a == owned_b
}

/// The user store.  Its view is the sequence of row values, oldest first.
pub struct UserStore {
    users: Vec<User>,
}

impl View for UserStore {
    type V = Seq<UserV>;

    closed spec fn view(&self) -> Seq<UserV> {
        self.users@.map_values(|u: User| u@)
    }
}

impl UserStore {
    /// An empty store.
    pub fn new() -> (s: Self)
        ensures
            s@ =~= Seq::<UserV>::empty(),
            store_wf(s@),
    {
        UserStore { users: Vec::new() }
    }

    /// How many rows the store holds.
    pub fn len(&self) -> (n: usize)
        ensures
            n == self@.len(),
    {
        self.users.len()
    }

    /// Looks a row up by username.
    pub fn find_by_username(&self, username: &str) -> (r: Option<&User>)
        requires
            store_wf(self@),
        ensures
            match r {
                Some(u) => has_username(self@, username@) && u@ == user_by_username(
                    self@,
                    username@,
                ),
                None => !has_username(self@, username@),
            },
    {
        let ghost s = self@;
        let mut i: usize = 0;
        while i < self.users.len()
            invariant
                i <= self.users.len(),
                s == self@,
                store_wf(s),
                s.len() == self.users.len(),
                forall|j: int| 0 <= j < i ==> s[j].username != username@,
            decreases self.users.len() - i,
        {
            if str_eq(self.users[i].username.as_str(), username) {
                proof {
                    assert(s[i as int].username == username@);
                    assert(has_username(s, username@));
                    let k = username_index(s, username@);
                    assert(0 <= k < s.len() && s[k].username == username@);
                    if k != i as int {
                        assert(s[k].username != s[i as int].username);
                        assert(false);
                    }
                }
                return Some(&self.users[i]);
            }
            i += 1;
        }
        None
    }

    /// Looks a row up by identifier.
    pub fn find_by_id(&self, id: &str) -> (r: Option<&User>)
        requires
            store_wf(self@),
        ensures
            match r {
                Some(u) => has_id(self@, id@) && u@ == user_by_id(self@, id@),
                None => !has_id(self@, id@),
            },
    {
        let ghost s = self@;
        let mut i: usize = 0;
        while i < self.users.len()
            invariant
                i <= self.users.len(),
                s == self@,
                store_wf(s),
                s.len() == self.users.len(),
                forall|j: int| 0 <= j < i ==> s[j].id != id@,
            decreases self.users.len() - i,
        {
            if str_eq(self.users[i].id.as_str(), id) {
                proof {
                    assert(s[i as int].id == id@);
                    assert(has_id(s, id@));
                    let k = id_index(s, id@);
                    assert(0 <= k < s.len() && s[k].id == id@);
                    if k != i as int {
                        assert(s[k].id != s[i as int].id);
                        assert(false);
                    }
                }
                return Some(&self.users[i]);
            }
            i += 1;
        }
        None
    }

    /// The pre-check of registration: is the username or the email taken?
    pub fn contains_username_or_email(&self, username: &str, email: &str) -> (r: bool)
        ensures
            r == (has_username(self@, username@) || has_email(self@, email@)),
    {
        let ghost s = self@;
        let mut i: usize = 0;
        while i < self.users.len()
            invariant
                i <= self.users.len(),
                s == self@,
                s.len() == self.users.len(),
                forall|j: int| 0 <= j < i ==> s[j].username != username@ && s[j].email != email@,
            decreases self.users.len() - i,
        {
            let hit_username = str_eq(self.users[i].username.as_str(), username);
            let hit_email = str_eq(self.users[i].email.as_str(), email);
            if hit_username || hit_email {
                proof {
                    if hit_username {
                        assert(s[i as int].username == username@);
                        assert(has_username(s, username@));
                    } else {
                        assert(s[i as int].email == email@);
                        assert(has_email(s, email@));
                    }
                }
                return true;
            }
            i += 1;
        }
        false
    }

    /// Inserts a row.  The uniqueness constraint is checked atomically with
    /// the insertion: on any collision of identifier, username or email the
    /// store is left unchanged and the conflict is reported as `UserExists`.
    pub fn insert(&mut self, user: User) -> (r: Result<(), AuthError>)
        requires
            store_wf(old(self)@),
        ensures
            store_wf(final (self)@),
            match r {
                Ok(()) => !has_username(old(self)@, user@.username) && !has_email(
                    old(self)@,
                    user@.email,
                ) && !has_id(old(self)@, user@.id) && final (self)@ =~= old(self)@.push(user@),
                Err(e) => e == AuthError::UserExists && final (self)@ == old(self)@ && (
                has_username(old(self)@, user@.username) || has_email(old(self)@, user@.email)
                    || has_id(old(self)@, user@.id)),
            },
    {
        let ghost s = self@;
        let mut i: usize = 0;
        while i < self.users.len()
            invariant
                i <= self.users.len(),
                *self == *old(self),
                s == self@,
                store_wf(s),
                s.len() == self.users.len(),
                forall|j: int|
                    0 <= j < i ==> s[j].username != user@.username && s[j].email != user@.email
                        && s[j].id != user@.id,
            decreases self.users.len() - i,
        {
            let hit_username = str_eq(self.users[i].username.as_str(), user.username.as_str());
            let hit_email = str_eq(self.users[i].email.as_str(), user.email.as_str());
            let hit_id = str_eq(self.users[i].id.as_str(), user.id.as_str());
            if hit_username || hit_email || hit_id {
                proof {
                    if hit_username {
                        assert(s[i as int].username == user@.username);
                        assert(has_username(s, user@.username));
                    } else if hit_email {
                        assert(s[i as int].email == user@.email);
                        assert(has_email(s, user@.email));
                    } else {
                        assert(s[i as int].id == user@.id);
                        assert(has_id(s, user@.id));
                    }
                }
                return Err(AuthError::UserExists);
            }
            i += 1;
        }
        let ghost uv = user@;
        self.users.push(user);
        proof {
            assert(self@ =~= s.push(uv));
            assert forall|i2: int, j2: int|
                0 <= i2 < self@.len() && 0 <= j2 < self@.len() && i2 != j2 implies #[trigger] self@[i2].username
                != #[trigger] self@[j2].username && self@[i2].email != self@[j2].email
                && self@[i2].id != self@[j2].id by {
                if i2 < s.len() && j2 < s.len() {
                } else if i2 == s.len() {
                    assert(self@[j2] == s[j2]);
                } else {
                    assert(self@[i2] == s[i2]);
                }
            }
        }
        Ok(())
    }
}

} // verus!
