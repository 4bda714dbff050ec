//! An in-memory user store: usernames, emails and uuids are each unique.

use vstd::prelude::*;
use crate::text::same_text;
use crate::user::{User, UserView, UserInfo, info_of};

verus! {

/// No two users share a uuid, a username or an email.
pub open spec fn distinct_users(s: Seq<UserView>) -> bool {
    forall|i: int, j: int|
        #![trigger s[i], s[j]]
        0 <= i < s.len() && 0 <= j < s.len() && i != j ==> s[i].uuid != s[j].uuid && s[i].username
            != s[j].username && s[i].email != s[j].email
}

pub open spec fn has_username(s: Seq<UserView>, name: Seq<char>) -> bool {
    exists|i: int| 0 <= i < s.len() && #[trigger] s[i].username == name
}

pub open spec fn has_email(s: Seq<UserView>, email: Seq<char>) -> bool {
    exists|i: int| 0 <= i < s.len() && #[trigger] s[i].email == email
}

pub open spec fn has_uuid(s: Seq<UserView>, uuid: Seq<char>) -> bool {
    exists|i: int| 0 <= i < s.len() && #[trigger] s[i].uuid == uuid
}

pub open spec fn username_index(s: Seq<UserView>, name: Seq<char>) -> int {
    choose|i: int| 0 <= i < s.len() && #[trigger] s[i].username == name
}

pub open spec fn email_index(s: Seq<UserView>, email: Seq<char>) -> int {
    choose|i: int| 0 <= i < s.len() && #[trigger] s[i].email == email
}

/// The user whose username is `ident`, else the user whose email is `ident`.
pub open spec fn ident_index(s: Seq<UserView>, ident: Seq<char>) -> Option<int> {
    if has_username(s, ident) {
        Some(username_index(s, ident))
    } else if has_email(s, ident) {
        Some(email_index(s, ident))
    } else {
        None
    }
}

/// The user whose email is `email`.
pub open spec fn email_lookup(s: Seq<UserView>, email: Seq<char>) -> Option<int> {
    if has_email(s, email) {
        Some(email_index(s, email))
    } else {
        None
    }
}

/// The user with uuid `uuid`.
pub open spec fn uuid_index(s: Seq<UserView>, uuid: Seq<char>) -> Option<int> {
    if has_uuid(s, uuid) {
        Some(choose|i: int| 0 <= i < s.len() && #[trigger] s[i].uuid == uuid)
    } else {
        None
    }
}

/// An index as a mathematical integer.
pub open spec fn as_int(o: Option<usize>) -> Option<int> {
    match o {
        Some(i) => Some(i as int),
        None => None,
    }
}

/// `u` conflicts with no stored user: its uuid, username and email are new.
pub open spec fn fits(s: Seq<UserView>, u: UserView) -> bool {
    !has_uuid(s, u.uuid) && !has_username(s, u.username) && !has_email(s, u.email)
}

/// The store after the password hash of user `i` became `pass`.
pub open spec fn with_pass(s: Seq<UserView>, i: int, pass: Seq<char>) -> Seq<UserView> {
    s.update(i, UserView { pass: pass, ..s[i] })
}

/// The stored users.
pub struct UserStore {
    users: Vec<User>,
}

impl View for UserStore {
    type V = Seq<UserView>;

    closed spec fn view(&self) -> Seq<UserView> {
        self.users@.map_values(|u: User| u@)
    }
}

impl UserStore {
    #[verifier::type_invariant]
    spec fn inv(self) -> bool {
        distinct_users(self@)
    }

    /// The empty store.
    pub fn new() -> (r: Self)
        ensures
            r@ == Seq::<UserView>::empty(),
    {
        let r = UserStore { users: Vec::new() };
        assert(r@ =~= Seq::<UserView>::empty());
        r
    }

    pub fn len(&self) -> (r: usize)
        ensures
            r == self@.len(),
            distinct_users(self@),
    {
        proof {
            use_type_invariant(self);
        }
        self.users.len()
    }

    pub fn get(&self, i: usize) -> (r: &User)
        requires
            i < self@.len(),
        ensures
            r@ == self@[i as int],
    {
        &self.users[i]
    }

    fn find_username(&self, name: &str) -> (r: Option<usize>)
        ensures
            r matches Some(i) ==> i < self@.len() && self@[i as int].username == name@,
            r is None ==> !has_username(self@, name@),
    {
        let mut i: usize = 0;
        while i < self.users.len()
            invariant
                i <= self@.len(),
                self@.len() == self.users@.len(),
                forall|k: int| 0 <= k < i ==> self@[k].username != name@,
            decreases self.users@.len() - i,
        {
            if same_text(self.users[i].username.as_str(), name) {
                return Some(i);
            }
            i = i + 1;
        }
        None
    }

    fn find_email(&self, email: &str) -> (r: Option<usize>)
        ensures
            r matches Some(i) ==> i < self@.len() && self@[i as int].email == email@,
            r is None ==> !has_email(self@, email@),
    {
        let mut i: usize = 0;
        while i < self.users.len()
            invariant
                i <= self@.len(),
                self@.len() == self.users@.len(),
                forall|k: int| 0 <= k < i ==> self@[k].email != email@,
            decreases self.users@.len() - i,
        {
            if same_text(self.users[i].email.as_str(), email) {
                return Some(i);
            }
            i = i + 1;
        }
        None
    }

    fn find_uuid(&self, uuid: &str) -> (r: Option<usize>)
        ensures
            r matches Some(i) ==> i < self@.len() && self@[i as int].uuid == uuid@,
            r is None ==> !has_uuid(self@, uuid@),
    {
        let mut i: usize = 0;
        while i < self.users.len()
            invariant
                i <= self@.len(),
                self@.len() == self.users@.len(),
                forall|k: int| 0 <= k < i ==> self@[k].uuid != uuid@,
            decreases self.users@.len() - i,
        {
            if same_text(self.users[i].uuid.as_str(), uuid) {
                return Some(i);
            }
            i = i + 1;
        }
        None
    }

    /// The user whose username is `ident`, else the one whose email is `ident`.
    pub fn find_by_ident(&self, ident: &str) -> (r: Option<usize>)
        ensures
            as_int(r) == ident_index(self@, ident@),
            distinct_users(self@),
            r matches Some(i) ==> i < self@.len(),
    {
        proof {
            use_type_invariant(self);
        }
        match self.find_username(ident) {
            Some(i) => {
                proof {
                    let j = username_index(self@, ident@);
                    assert(self@[j].username == ident@);
                }
                Some(i)
            },
            None => {
                let r = self.find_email(ident);
                proof {
                    if r is Some {
                        let j = email_index(self@, ident@);
                        assert(self@[j].email == ident@);
                    }
                }
                r
            },
        }
    }

    /// The user whose email is `email`.
    pub fn find_by_email(&self, email: &str) -> (r: Option<usize>)
        ensures
            as_int(r) == email_lookup(self@, email@),
            r matches Some(i) ==> i < self@.len(),
            distinct_users(self@),
    {
        proof {
            use_type_invariant(self);
        }
        let r = self.find_email(email);
        proof {
            if r is Some {
                let j = email_index(self@, email@);
                assert(self@[j].email == email@);
            }
        }
        r
    }

    /// The user with uuid `uuid`.
    pub fn find_by_uuid(&self, uuid: &str) -> (r: Option<usize>)
        ensures
            as_int(r) == uuid_index(self@, uuid@),
            distinct_users(self@),
            r matches Some(i) ==> i < self@.len(),
    {
        proof {
            use_type_invariant(self);
        }
        let r = self.find_uuid(uuid);
        proof {
            if r is Some {
                let j = choose|i: int| 0 <= i < self@.len() && #[trigger] self@[i].uuid == uuid@;
                assert(self@[j].uuid == uuid@);
            }
        }
        r
    }

    /// Adds `user` unless its uuid, username or email is taken.
    pub fn insert(&mut self, user: User) -> (r: bool)
        ensures
            r == fits(old(self)@, user@),
            r ==> final(self)@ == old(self)@.push(user@),
            !r ==> final(self)@ == old(self)@,
    {
        proof {
            use_type_invariant(&*self);
        }
        if self.find_uuid(user.uuid.as_str()).is_some() || self.find_username(
            user.username.as_str(),
        ).is_some() || self.find_email(user.email.as_str()).is_some() {
            return false;
        }
        let ghost before = self@;
        let ghost u = user@;
        let mut users: Vec<User> = Vec::new();
        std::mem::swap(&mut self.users, &mut users);
        users.push(user);
        proof {
            let after = users@.map_values(|x: User| x@);
            assert(after =~= before.push(u));
            assert forall|i: int, j: int|
                0 <= i < after.len() && 0 <= j < after.len() && i != j implies #[trigger] after[i].uuid
                != #[trigger] after[j].uuid by {
                if i == before.len() {
                    assert(after[j] == before[j]);
                } else if j == before.len() {
                    assert(after[i] == before[i]);
                }
            }
        }
        self.users = users;
        proof {
            assert(self@ =~= before.push(u));
            assert forall|i: int, j: int|
                0 <= i < self@.len() && 0 <= j < self@.len() && i != j implies #[trigger] self@[i].uuid
                != #[trigger] self@[j].uuid by {
                if i == before.len() {
                    assert(self@[j] == before[j]);
                } else if j == before.len() {
                    assert(self@[i] == before[i]);
                }
            }
        }
        true
    }

    /// Replaces the password hash of user `i`.
    pub fn set_pass(&mut self, i: usize, pass: String)
        requires
            i < old(self)@.len(),
        ensures
            final(self)@ == with_pass(old(self)@, i as int, pass@),
    {
        proof {
            use_type_invariant(&*self);
        }
        let ghost before = self@;
        let ghost p = pass@;
        let mut users: Vec<User> = Vec::new();
        std::mem::swap(&mut self.users, &mut users);
        let mut u = users.remove(i);
        u.pass = pass;
        users.insert(i, u);
        proof {
            let after = users@.map_values(|x: User| x@);
            assert(after =~= with_pass(before, i as int, p));
        }
        self.users = users;
        proof {
            assert(self@ =~= with_pass(before, i as int, p));
        }
    }

    /// Removes the user with uuid `uuid`, if there is one.
    pub fn remove_by_uuid(&mut self, uuid: &str) -> (r: bool)
        ensures
            r == has_uuid(old(self)@, uuid@),
            r ==> final(self)@ == old(self)@.remove(uuid_index(old(self)@, uuid@)->0),
            !r ==> final(self)@ == old(self)@,
    {
        proof {
            use_type_invariant(&*self);
        }
        match self.find_by_uuid(uuid) {
            None => false,
            Some(i) => {
                let ghost before = self@;
                let mut users: Vec<User> = Vec::new();
                std::mem::swap(&mut self.users, &mut users);
                users.remove(i);
                proof {
                    let after = users@.map_values(|x: User| x@);
                    assert(after =~= before.remove(i as int));
                    assert forall|a: int, b: int|
                        0 <= a < after.len() && 0 <= b < after.len() && a != b implies #[trigger] after[a].uuid
                        != #[trigger] after[b].uuid by {
                        let a2 = if a < i { a } else { a + 1 };
                        let b2 = if b < i { b } else { b + 1 };
                        assert(after[a] == before[a2]);
                        assert(after[b] == before[b2]);
                    }
                }
                self.users = users;
                proof {
                    assert(self@ =~= before.remove(i as int));
                }
                true
            },
        }
    }

    /// The public projection of every user, in store order.
    pub fn infos(&self) -> (r: Vec<UserInfo>)
        ensures
            r@.map_values(|x: UserInfo| x@) == self@.map_values(|u: UserView| info_of(u)),
    {
        let mut out: Vec<UserInfo> = Vec::new();
        let mut i: usize = 0;
        while i < self.users.len()
            invariant
                i <= self@.len(),
                self@.len() == self.users@.len(),
                out@.len() == i,
                forall|k: int| 0 <= k < i ==> #[trigger] out@[k]@ == info_of(self@[k]),
            decreases self.users@.len() - i,
        {
            out.push(UserInfo::from_user(&self.users[i]));
            i = i + 1;
        }
        assert(out@.map_values(|x: UserInfo| x@) =~= self@.map_values(|u: UserView| info_of(u)));
        out
    }
}

} // verus!
