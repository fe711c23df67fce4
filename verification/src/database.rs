//! The repository of users and sessions: its configuration, its errors, and
//! the in-memory repository used in place of a database server.

use vstd::prelude::*;

pub mod table;

use crate::database::table::{Record, Table};
use crate::id::{SessionId, UserId};
use crate::model::{Session, SessionView, User, UserView};

verus! {

/// Where the MySQL database is reached and how many connections to it are kept.
pub struct MySQLDatabaseConfig {
    pub database_url: String,
    pub max_connections: u32,
}

/// Which repository the server uses.
pub enum DatabaseConfig {
    MySQL(MySQLDatabaseConfig),
    Mock,
}

/// A failed repository operation, by the constraint that refused it.
#[derive(Debug)]
pub enum DatabaseError {
    UniqueViolation(String),
    ForeignKeyViolation(String),
    NotNullViolation(String),
    CheckViolation(String),
    Other(String),
}

/// The kinds of failure that the database server reports.
#[derive(Clone, Copy, Debug, PartialEq, Eq, Structural)]
pub enum SqlErrorKind {
    UniqueViolation,
    ForeignKeyViolation,
    NotNullViolation,
    CheckViolation,
    Other,
}

/// A failed query: either the database server refused it, with a kind and its
/// message, or the query failed otherwise, described by the text.
pub enum SqlFailure {
    Database { kind: SqlErrorKind, message: String },
    Other(String),
}

/// The text that describes a repository failure.
pub open spec fn database_error_text(e: DatabaseError) -> Seq<char> {
    match e {
        DatabaseError::UniqueViolation(m) => "UniqueViolation: "@ + m@,
        DatabaseError::ForeignKeyViolation(m) => "ForeignKeyViolation: "@ + m@,
        DatabaseError::NotNullViolation(m) => "NotNullViolation: "@ + m@,
        DatabaseError::CheckViolation(m) => "CheckViolation: "@ + m@,
        DatabaseError::Other(m) => m@,
    }
}

impl DatabaseError {
    /// The text that describes the failure, as the server reports it.
    pub fn message(&self) -> (res: String)
        ensures
            res@ == database_error_text(*self),
    {
        match self {
            DatabaseError::UniqueViolation(m) => String::from_str("UniqueViolation: ").concat(m.as_str()),
            DatabaseError::ForeignKeyViolation(m) => String::from_str("ForeignKeyViolation: ").concat(m.as_str()),
            DatabaseError::NotNullViolation(m) => String::from_str("NotNullViolation: ").concat(m.as_str()),
            DatabaseError::CheckViolation(m) => String::from_str("CheckViolation: ").concat(m.as_str()),
            DatabaseError::Other(m) => m.clone(),
        }
    }

    /// The repository error for a failed query: a refusal by the database server
    /// keeps its kind and message; any other failure is `Other` with its text.
    pub fn from_sql_failure(value: SqlFailure) -> (res: DatabaseError)
        ensures
            (match value {
                SqlFailure::Database { kind, message } => match kind {
                    SqlErrorKind::UniqueViolation => res == DatabaseError::UniqueViolation(message),
                    SqlErrorKind::ForeignKeyViolation => res == DatabaseError::ForeignKeyViolation(message),
                    SqlErrorKind::NotNullViolation => res == DatabaseError::NotNullViolation(message),
                    SqlErrorKind::CheckViolation => res == DatabaseError::CheckViolation(message),
                    SqlErrorKind::Other => res == DatabaseError::Other(message),
                },
                SqlFailure::Other(text) => res == DatabaseError::Other(text),
            }),
    {
        match value {
            SqlFailure::Database { kind, message } => match kind {
                SqlErrorKind::UniqueViolation => DatabaseError::UniqueViolation(message),
                SqlErrorKind::ForeignKeyViolation => DatabaseError::ForeignKeyViolation(message),
                SqlErrorKind::NotNullViolation => DatabaseError::NotNullViolation(message),
                SqlErrorKind::CheckViolation => DatabaseError::CheckViolation(message),
                SqlErrorKind::Other => DatabaseError::Other(message),
            },
            SqlFailure::Other(text) => DatabaseError::Other(text),
        }
    }
}

impl Record for User {
    open spec fn key(&self) -> Seq<char> {
        self.id@
    }

    fn key_text(&self) -> (res: &str) {
        self.id.value()
    }

    fn duplicate(&self) -> (res: Self) {
        User::duplicate(self)
    }
}

impl Record for Session {
    open spec fn key(&self) -> Seq<char> {
        self.id@
    }

    fn key_text(&self) -> (res: &str) {
        self.id.value()
    }

    fn duplicate(&self) -> (res: Self) {
        Session::duplicate(self)
    }
}

/// The text of the error for a key that is already taken.
pub open spec fn occupied_text(key: Seq<char>) -> Seq<char> {
    "Entry is already occupied for: "@ + key
}

/// The text of the error for a key that is not held.
pub open spec fn missing_text(key: Seq<char>) -> Seq<char> {
    "Entry could not be found for: "@ + key
}

/// The repository kept in memory: users and sessions by identifier.
pub struct MockDatabase {
    users: Table<User>,
    sessions: Table<Session>,
}

impl MockDatabase {
    /// The repository's invariant: no identifier is held twice.
    pub closed spec fn wf(&self) -> bool {
        self.users.wf() && self.sessions.wf()
    }

    /// The users, by identifier.
    pub closed spec fn users(&self) -> Map<Seq<char>, UserView> {
        self.users.contents()
    }

    /// The sessions, by identifier.
    pub closed spec fn sessions(&self) -> Map<Seq<char>, SessionView> {
        self.sessions.contents()
    }

    /// An empty repository.
    pub fn new() -> (res: Self)
        ensures
            res.wf(),
            res.users() == Map::<Seq<char>, UserView>::empty(),
            res.sessions() == Map::<Seq<char>, SessionView>::empty(),
    {
        MockDatabase { users: Table::new(), sessions: Table::new() }
    }

    /// The user with identifier `id`, if there is one.
    pub fn get_user(&self, id: &UserId) -> (res: Result<Option<User>, DatabaseError>)
        requires
            self.wf(),
        ensures
            res matches Ok(found) && (found is Some <==> self.users().contains_key(id@)),
            res matches Ok(Some(u)) ==> u@ == self.users()[id@],
    {
        Ok(self.users.get(id.value()))
    }

    /// A user whose name is `name`, if there is one.
    pub fn find_user_by_name(&self, name: &str) -> (res: Result<Option<User>, DatabaseError>)
        requires
            self.wf(),
        ensures
            res matches Ok(found) && (found is None <==> forall|k: Seq<char>|
                #[trigger] self.users().contains_key(k) ==> self.users()[k].name != name@),
            res matches Ok(Some(u)) ==> self.users().contains_key(u.id@) && self.users()[u.id@]
                == u@ && u@.name == name@,
    {
        let n = self.users.len();
        for i in 0..n
            invariant
                n == self.users.rows().len(),
                self.wf(),
                forall|j: int| 0 <= j < i ==> #[trigger] self.users.rows()[j].name@ != name@,
        {
            let user = self.users.row(i);
            if crate::path::str_eq(user.name.as_str(), name) {
                proof {
                    self.users.lemma_row(i as int);
                    let k = self.users.rows()[i as int].key();
                    assert(self.users().contains_key(k) && self.users()[k].name == name@);
                }
                return Ok(Some(user.duplicate()));
            }
        }
        assert forall|k: Seq<char>| #[trigger] self.users().contains_key(k) implies self.users()[k].name
            != name@ by {
            self.users.lemma_key(k);
            let j = crate::database::table::index_of(self.users.rows(), k);
            self.users.lemma_row(j);
        }
        Ok(None)
    }

    /// Adds `user`, unless a user with its identifier is held already.
    pub fn create_user(&mut self, user: User) -> (res: Result<(), DatabaseError>)
        requires
            old(self).wf(),
        ensures
            final(self).wf(),
            final(self).sessions() == old(self).sessions(),
            old(self).users().contains_key(user.id@) ==> (res matches Err(DatabaseError::UniqueViolation(m))
                && m@ == occupied_text(user.id@) && final(self).users() == old(self).users()),
            !old(self).users().contains_key(user.id@) ==> (res is Ok && final(self).users()
                == old(self).users().insert(user.id@, user@)),
    {
        if self.users.contains(user.id.value()) {
            let msg = String::from_str("Entry is already occupied for: ").concat(user.id.value());
            return Err(DatabaseError::UniqueViolation(msg));
        }
        self.users.insert_new(user);
        Ok(())
    }

    /// The session with identifier `id`, if there is one.
    pub fn get_session(&self, id: &SessionId) -> (res: Result<Option<Session>, DatabaseError>)
        requires
            self.wf(),
        ensures
            res matches Ok(found) && (found is Some <==> self.sessions().contains_key(id@)),
            res matches Ok(Some(s)) ==> s@ == self.sessions()[id@],
    {
        Ok(self.sessions.get(id.value()))
    }

    /// Replaces the session with the identifier of `session`, if there is one.
    pub fn update_session(&mut self, session: Session) -> (res: Result<(), DatabaseError>)
        requires
            old(self).wf(),
        ensures
            final(self).wf(),
            final(self).users() == old(self).users(),
            old(self).sessions().contains_key(session.id@) ==> (res is Ok && final(self).sessions()
                == old(self).sessions().insert(session.id@, session@)),
            !old(self).sessions().contains_key(session.id@) ==> (res matches Err(DatabaseError::Other(m))
                && m@ == missing_text(session.id@) && final(self).sessions() == old(self).sessions()),
    {
        if !self.sessions.contains(session.id.value()) {
            let msg = String::from_str("Entry could not be found for: ").concat(session.id.value());
            return Err(DatabaseError::Other(msg));
        }
        self.sessions.replace(session);
        Ok(())
    }

    /// Adds `session`, unless a session with its identifier is held already.
    pub fn create_session(&mut self, session: Session) -> (res: Result<(), DatabaseError>)
        requires
            old(self).wf(),
        ensures
            final(self).wf(),
            final(self).users() == old(self).users(),
            old(self).sessions().contains_key(session.id@) ==> (res matches Err(DatabaseError::UniqueViolation(m))
                && m@ == occupied_text(session.id@) && final(self).sessions() == old(self).sessions()),
            !old(self).sessions().contains_key(session.id@) ==> (res is Ok && final(self).sessions()
                == old(self).sessions().insert(session.id@, session@)),
    {
        if self.sessions.contains(session.id.value()) {
            let msg = String::from_str("Entry is already occupied for: ").concat(session.id.value());
            return Err(DatabaseError::UniqueViolation(msg));
        }
        self.sessions.insert_new(session);
        Ok(())
    }

    /// Removes the session with identifier `id`, if there is one.
    pub fn delete_session(&mut self, id: &SessionId) -> (res: Result<(), DatabaseError>)
        requires
            old(self).wf(),
        ensures
            final(self).wf(),
            res is Ok,
            final(self).users() == old(self).users(),
            final(self).sessions() == old(self).sessions().remove(id@),
    {
        self.sessions.remove(id.value());
        Ok(())
    }
}

/// Sessions are read back as they were written: after a session is created
/// it is found, and a second creation under its identifier is refused; after
/// it is updated the update is found; deleting it afterwards leaves the
/// sessions as they were before it was created.
pub proof fn law_session_lifecycle(
    before: Map<Seq<char>, SessionView>,
    created: SessionView,
    updated: SessionView,
)
    requires
        !before.contains_key(created.id),
        updated.id == created.id,
    ensures
        before.insert(created.id, created).contains_key(created.id),
        before.insert(created.id, created)[created.id] == created,
        before.insert(created.id, created).insert(updated.id, updated)[created.id] == updated,
        before.insert(created.id, created).insert(updated.id, updated).remove(created.id) == before,
{
    assert(before.insert(created.id, created).insert(updated.id, updated).remove(created.id) =~= before);
}

/// A created user is found by its identifier, and a search by its name finds
/// a user of that name; the other users are untouched.
pub proof fn law_created_user_is_found(before: Map<Seq<char>, UserView>, user: UserView)
    requires
        !before.contains_key(user.id),
    ensures
        before.insert(user.id, user).contains_key(user.id),
        before.insert(user.id, user)[user.id] == user,
        exists|k: Seq<char>| #[trigger] before.insert(user.id, user).contains_key(k)
            && before.insert(user.id, user)[k].name == user.name,
        forall|k: Seq<char>| k != user.id ==> (#[trigger] before.insert(user.id, user).contains_key(k)
            == before.contains_key(k)),
{
    assert(before.insert(user.id, user).contains_key(user.id));
}

} // verus!
