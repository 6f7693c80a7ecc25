use vstd::prelude::*;

use crate::find::{
    distinct_by, first_where, lemma_first_index_where_found, lemma_first_index_where_none,
    lemma_max_key_bound, max_key,
};

verus! {

/// An account: the authenticated principals the engine decides for.
#[derive(Debug)]
pub struct User {
    pub id: i32,
    pub login: String,
    pub user_name: String,
    pub email: String,
    pub is_active: bool,
}

/// The stored password hash of a user, one per account.
#[derive(Debug)]
pub struct PasswordRecord {
    pub user_id: i32,
    pub password_hash: String,
}

pub open spec fn user_id_pred(id: i32) -> spec_fn(User) -> bool {
    |u: User| u.id == id
}

pub open spec fn user_name_pred(name: Seq<char>) -> spec_fn(User) -> bool {
    |u: User| u.user_name@ == name
}

pub open spec fn password_pred(user_id: i32) -> spec_fn(PasswordRecord) -> bool {
    |p: PasswordRecord| p.user_id == user_id
}

pub open spec fn user_id_key() -> spec_fn(User) -> i32 {
    |u: User| u.id
}

pub open spec fn password_user_key() -> spec_fn(PasswordRecord) -> i32 {
    |p: PasswordRecord| p.user_id
}

/// The account table and the password table.
#[derive(Debug)]
pub struct UserStore {
    pub users: Vec<User>,
    pub passwords: Vec<PasswordRecord>,
}

impl UserStore {
    /// Well-formedness: user ids are unique, and each user has at most one
    /// password record.
    pub open spec fn wf(self) -> bool {
        &&& distinct_by(self.users@, user_id_key())
        &&& distinct_by(self.passwords@, password_user_key())
    }

    pub open spec fn user_by_id(self, id: i32) -> Option<User> {
        first_where(self.users@, user_id_pred(id))
    }

    /// The first user carrying this display name; sign-in looks accounts up
    /// by the name the user typed.
    pub open spec fn user_by_name(self, name: Seq<char>) -> Option<User> {
        first_where(self.users@, user_name_pred(name))
    }

    pub open spec fn password_of(self, user_id: i32) -> Option<PasswordRecord> {
        first_where(self.passwords@, password_pred(user_id))
    }

    pub fn new() -> (r: UserStore)
        ensures
            r.wf(),
            r.users@ =~= Seq::<User>::empty(),
            r.passwords@ =~= Seq::<PasswordRecord>::empty(),
    {
        UserStore { users: Vec::new(), passwords: Vec::new() }
    }

    #[verifier::loop_isolation(false)]
    pub fn find_user_by_id(&self, id: i32) -> (r: Option<&User>)
        ensures
            match r {
                Some(u) => self.user_by_id(id) == Some(*u),
                None => self.user_by_id(id) is None,
            },
    {
        let ghost p = user_id_pred(id);
        let mut i: usize = 0;
        while i < self.users.len()
            invariant
                i <= self.users@.len(),
                forall|j: int| 0 <= j < i ==> !p(#[trigger] self.users@[j]),
            decreases self.users@.len() - i,
        {
            if self.users[i].id == id {
                proof {
                    lemma_first_index_where_found(self.users@, p, i as int);
                }
                return Some(&self.users[i]);
            }
            i += 1;
        }
        proof {
            lemma_first_index_where_none(self.users@, p);
        }
        None
    }

    #[verifier::loop_isolation(false)]
    pub fn find_user_by_name(&self, name: &String) -> (r: Option<&User>)
        ensures
            match r {
                Some(u) => self.user_by_name(name@) == Some(*u),
                None => self.user_by_name(name@) is None,
            },
    {
        let ghost p = user_name_pred(name@);
        let mut i: usize = 0;
        while i < self.users.len()
            invariant
                i <= self.users@.len(),
                forall|j: int| 0 <= j < i ==> !p(#[trigger] self.users@[j]),
            decreases self.users@.len() - i,
        {
            if self.users[i].user_name.eq(name) {
                proof {
                    lemma_first_index_where_found(self.users@, p, i as int);
                }
                return Some(&self.users[i]);
            }
            i += 1;
        }
        proof {
            lemma_first_index_where_none(self.users@, p);
        }
        None
    }

    #[verifier::loop_isolation(false)]
    pub fn find_password(&self, user_id: i32) -> (r: Option<&PasswordRecord>)
        ensures
            match r {
                Some(p) => self.password_of(user_id) == Some(*p),
                None => self.password_of(user_id) is None,
            },
    {
        let ghost p = password_pred(user_id);
        let mut i: usize = 0;
        while i < self.passwords.len()
            invariant
                i <= self.passwords@.len(),
                forall|j: int| 0 <= j < i ==> !p(#[trigger] self.passwords@[j]),
            decreases self.passwords@.len() - i,
        {
            if self.passwords[i].user_id == user_id {
                proof {
                    lemma_first_index_where_found(self.passwords@, p, i as int);
                }
                return Some(&self.passwords[i]);
            }
            i += 1;
        }
        proof {
            lemma_first_index_where_none(self.passwords@, p);
        }
        None
    }

    /// A user id one past the table's high-water mark, when it fits in the
    /// id type.
    #[verifier::loop_isolation(false)]
    pub fn fresh_user_id(&self) -> (r: Option<i32>)
        ensures
            r is None <==> max_key(self.users@, user_id_key()) == i32::MAX as int,
            r matches Some(id) ==> id as int == max_key(self.users@, user_id_key()) + 1,
            r matches Some(id) ==> 1 <= id && forall|j: int|
                0 <= j < self.users@.len() ==> (#[trigger] self.users@[j]).id < id,
    {
        let ghost k = user_id_key();
        let mut max: i32 = 0;
        let mut i: usize = 0;
        while i < self.users.len()
            invariant
                i <= self.users@.len(),
                max >= 0,
                max as int == max_key(self.users@.take(i as int), k),
            decreases self.users@.len() - i,
        {
            proof {
                assert(self.users@.take(i + 1int).drop_last() =~= self.users@.take(i as int));
                assert(self.users@.take(i + 1int).last() == self.users@[i as int]);
            }
            if self.users[i].id > max {
                max = self.users[i].id;
            }
            i += 1;
        }
        proof {
            assert(self.users@.take(self.users@.len() as int) =~= self.users@);
            lemma_max_key_bound(self.users@, k);
        }
        if max == i32::MAX {
            None
        } else {
            Some(max + 1)
        }
    }

    /// Adds an account and its password record; the caller supplies a fresh
    /// id.
    pub fn insert_user(&mut self, u: User, password: PasswordRecord)
        requires
            old(self).wf(),
            u.id == password.user_id,
            forall|j: int|
                0 <= j < old(self).users@.len() ==> (#[trigger] old(self).users@[j]).id != u.id,
            forall|j: int|
                0 <= j < old(self).passwords@.len() ==> (#[trigger] old(
                    self,
                ).passwords@[j]).user_id != u.id,
        ensures
            final(self).wf(),
            final(self).users@ == old(self).users@.push(u),
            final(self).passwords@ == old(self).passwords@.push(password),
    {
        self.users.push(u);
        self.passwords.push(password);
    }
}

impl Clone for User {
    fn clone(&self) -> (res: Self)
        ensures
            res == *self,
    {
        User {
            id: self.id,
            login: self.login.clone(),
            user_name: self.user_name.clone(),
            email: self.email.clone(),
            is_active: self.is_active,
        }
    }
}

impl Clone for PasswordRecord {
    fn clone(&self) -> (res: Self)
        ensures
            res == *self,
    {
        PasswordRecord { user_id: self.user_id, password_hash: self.password_hash.clone() }
    }
}

} // verus!
