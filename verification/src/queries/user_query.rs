use vstd::prelude::*;

use crate::errors::CoreErrors;
use crate::find::max_key;
use crate::users::{user_id_key, PasswordRecord, User, UserStore};

verus! {

/// Queries and mutations about user accounts.
pub struct UserQuery;

impl UserQuery {
    /// The account with this id, if any.
    pub fn get_user_by_id(users: &UserStore, user_id: i32) -> (r: Option<User>)
        ensures
            r == users.user_by_id(user_id),
    {
        match users.find_user_by_id(user_id) {
            Some(u) => Some(u.clone()),
            None => None,
        }
    }

    /// The account whose display name equals the typed login, together with
    /// its password record. An account without a password record is broken
    /// data; an unknown name is simply no result.
    pub fn get_user_by_login(users: &UserStore, user_login: &String) -> (r: Result<
        Option<(User, PasswordRecord)>,
        CoreErrors,
    >)
        ensures
            users.user_by_name(user_login@) is None ==> r == Ok::<
                Option<(User, PasswordRecord)>,
                CoreErrors,
            >(None),
            users.user_by_name(user_login@) matches Some(u) ==> match users.password_of(u.id) {
                Some(pw) => r == Ok::<Option<(User, PasswordRecord)>, CoreErrors>(
                    Some((u, pw)),
                ),
                None => crate::errors::is_db_error(r, "user_data_broken"@),
            },
    {
        let user = match users.find_user_by_name(user_login) {
            Some(u) => u,
            None => {
                return Ok(None);
            },
        };
        match users.find_password(user.id) {
            Some(pw) => Ok(Some((user.clone(), pw.clone()))),
            None => {
                let s: &str = "user_data_broken";
                Err(CoreErrors::DatabaseServiceError(s.to_owned()))
            },
        }
    }

    /// Creates an account with its password hash; the account starts
    /// active.
    pub fn create_new_user(
        users: &mut UserStore,
        user_login: String,
        user_name: String,
        user_password: String,
        user_email: String,
    ) -> (r: Result<User, CoreErrors>)
        requires
            old(users).wf(),
        ensures
            final(users).wf(),
            r matches Ok(u) ==> {
                &&& u.login == user_login
                &&& u.user_name == user_name
                &&& u.email == user_email
                &&& u.is_active
                &&& (forall|j: int|
                    0 <= j < old(users).users@.len() ==> (#[trigger] old(users).users@[j]).id
                        < u.id)
                &&& final(users).users@ == old(users).users@.push(u)
                &&& final(users).passwords@ == old(users).passwords@.push(
                    PasswordRecord { user_id: u.id, password_hash: user_password },
                )
            },
            ({
                let top = max_key(old(users).users@, user_id_key());
                r is Ok <==> top < i32::MAX as int && old(users).password_of(
                    ((top + 1) as i32),
                ) is None
            }),
            r matches Ok(u) ==> u.id as int == max_key(old(users).users@, user_id_key()) + 1,
            r is Err ==> final(users).users@ == old(users).users@ && final(users).passwords@
                == old(users).passwords@,
    {
        let user_id = match users.fresh_user_id() {
            Some(id) => id,
            None => {
                let s: &str = "User creation failed: no account id is available";
                return Err(CoreErrors::DatabaseServiceError(s.to_owned()));
            },
        };
        let has_password_row = users.find_password(user_id).is_some();
        if has_password_row {
            let s: &str = "User creation failed: broken password data";
            return Err(CoreErrors::DatabaseServiceError(s.to_owned()));
        }
        let row = User {
            id: user_id,
            login: user_login,
            user_name,
            email: user_email,
            is_active: true,
        };
        let result = row.clone();
        let password = PasswordRecord { user_id, password_hash: user_password };
        proof {
            crate::find::lemma_first_index_where_properties(
                users.passwords@,
                crate::users::password_pred(user_id),
            );
        }
        users.insert_user(row, password);
        Ok(result)
    }
}

} // verus!
