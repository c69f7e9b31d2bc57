use vstd::prelude::*;
use vstd::string::StringExecFns;
use crate::models::{DBError, User, UserDetail};

verus! {

/// The mathematical content of a stored user.
pub ghost struct UserModel {
    pub username: Seq<char>,
    pub password: Seq<char>,
    pub email: Seq<char>,
    pub created_at: Seq<char>,
}

/// No two stored users share a name.
pub open spec fn names_unique(s: Seq<UserModel>) -> bool {
    forall|i: int, j: int|
        0 <= i < s.len() && 0 <= j < s.len() && i != j ==> s[i].username != s[j].username
}

/// Some stored user is called `name`.
pub open spec fn name_used(s: Seq<UserModel>, name: Seq<char>) -> bool {
    exists|i: int| 0 <= i < s.len() && #[trigger] s[i].username == name
}

/// Storage of users, keyed by name.
pub trait UsersDbo: View<V = Seq<UserModel>> + Sized {
    /// Stores a user whose `password` already holds its hash. Fails, changing
    /// nothing, when the name is taken.
    fn create_user(&mut self, user: User, created_at: &str) -> (r: Result<User, DBError>)
        requires
            names_unique(old(self)@),
        ensures
            names_unique(final(self)@),
            name_used(old(self)@, user.username@) ==> (r matches Err(DBError::Other(_)))
                && final(self)@ == old(self)@,
            !name_used(old(self)@, user.username@) ==> {
                &&& final(self)@ == old(self)@.push(
                    UserModel {
                        username: user.username@,
                        password: user.password@,
                        email: user.email@,
                        created_at: created_at@,
                    },
                )
                &&& r is Ok
                &&& r->Ok_0.username@ == user.username@
                &&& r->Ok_0.password@ == user.password@
                &&& r->Ok_0.email@ == user.email@
            },
    ;

    /// The stored user called `username`.
    fn get_user(&self, username: &str) -> (r: Result<UserDetail, DBError>)
        requires
            names_unique(self@),
        ensures
            !name_used(self@, username@) ==> (r matches Err(DBError::NotFound(_))),
            forall|i: int|
                0 <= i < self@.len() && #[trigger] self@[i].username == username@ ==> {
                    &&& r is Ok
                    &&& r->Ok_0.username@ == self@[i].username
                    &&& r->Ok_0.password@ == self@[i].password
                    &&& r->Ok_0.email@ == self@[i].email
                    &&& r->Ok_0.created_at@ == self@[i].created_at
                },
    ;
}

/// The registered users, keyed by name; passwords are stored hashed.
pub struct UsersDboImpl {
    users: Vec<UserDetail>,
}

impl View for UsersDboImpl {
    type V = Seq<UserModel>;

    closed spec fn view(&self) -> Seq<UserModel> {
        self.users@.map_values(
            |u: UserDetail|
                UserModel {
                    username: u.username@,
                    password: u.password@,
                    email: u.email@,
                    created_at: u.created_at@,
                },
        )
    }
}

impl UsersDboImpl {
    /// The store invariant: names are unique.
    pub open spec fn wf(&self) -> bool {
        names_unique(self@)
    }

    /// An empty store.
    pub fn new() -> (r: UsersDboImpl)
        ensures
            r@ == Seq::<UserModel>::empty(),
            r.wf(),
    {
        UsersDboImpl { users: Vec::new() }
    }

    /// The number of registered users.
    pub fn len(&self) -> (r: usize)
        ensures
            r == self@.len(),
    {
        self.users.len()
    }

    fn position(&self, username: &str) -> (r: Option<usize>)
        ensures
            r matches Some(i) ==> i < self@.len() && self@[i as int].username == username@,
            r is None ==> !name_used(self@, username@),
    {
        let name = String::from_str(username);
        let mut i: usize = 0;
        while i < self.users.len()
            invariant
                i <= self.users@.len(),
                name@ == username@,
                forall|k: int| 0 <= k < i ==> self@[k].username != username@,
            decreases self.users@.len() - i,
        {
            if self.users[i].username == name {
                return Some(i);
            }
            i = i + 1;
        }
        None
    }
}

impl UserDetail {
    /// A field-by-field copy.
    pub fn clone_detail(&self) -> (r: UserDetail)
        ensures
            r.username@ == self.username@,
            r.password@ == self.password@,
            r.email@ == self.email@,
            r.created_at@ == self.created_at@,
    {
        UserDetail {
            username: self.username.clone(),
            password: self.password.clone(),
            email: self.email.clone(),
            created_at: self.created_at.clone(),
        }
    }
}

impl UsersDbo for UsersDboImpl {
    fn create_user(&mut self, user: User, created_at: &str) -> (r: Result<User, DBError>)
    {
        if self.position(user.username.as_str()).is_some() {
            return Err(DBError::Other(String::from_str("user already exists")));
        }
        let d = UserDetail {
            username: user.username.clone(),
            password: user.password.clone(),
            email: user.email.clone(),
            created_at: String::from_str(created_at),
        };
        let ghost before = self@;
        self.users.push(d);
        assert(self@ =~= before.push(
            UserModel {
                username: user.username@,
                password: user.password@,
                email: user.email@,
                created_at: created_at@,
            },
        ));
        Ok(user)
    }

    fn get_user(&self, username: &str) -> (r: Result<UserDetail, DBError>)
    {
        match self.position(username) {
            Some(i) => Ok(self.users[i].clone_detail()),
            None => Err(DBError::NotFound(String::from_str("no such user"))),
        }
    }
}

} // verus!
