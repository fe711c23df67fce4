//! The records the server keeps: users and their login sessions.

use vstd::prelude::*;
use crate::id::{SessionId, UserId};

verus! {

/// A registered user; `password` holds the hash of the user's password.
pub struct User {
    pub id: UserId,
    pub name: String,
    pub password: String,
}

/// A login session of a user; `refresh_token` holds the hash of the refresh
/// token that was last handed out for it.
pub struct Session {
    pub id: SessionId,
    pub user_id: UserId,
    pub refresh_token: String,
}

/// A user as plain values.
pub struct UserView {
    pub id: Seq<char>,
    pub name: Seq<char>,
    pub password: Seq<char>,
}

/// A session as plain values.
pub struct SessionView {
    pub id: Seq<char>,
    pub user_id: Seq<char>,
    pub refresh_token: Seq<char>,
}

impl View for User {
    type V = UserView;

    open spec fn view(&self) -> UserView {
        UserView { id: self.id@, name: self.name@, password: self.password@ }
    }
}

impl View for Session {
    type V = SessionView;

    open spec fn view(&self) -> SessionView {
        SessionView { id: self.id@, user_id: self.user_id@, refresh_token: self.refresh_token@ }
    }
}

impl User {
    /// A new user with a fresh identifier.
    pub fn new(name: String, password: String) -> (res: Self)
        ensures
            res.name == name,
            res.password == password,
            res.id@.len() == 36,
            crate::id::is_hyphenated_uuid(res.id@),
    {
        User { id: UserId::new(), name, password }
    }

    /// A copy of the user.
    pub fn duplicate(&self) -> (res: Self)
        ensures
            res@ == self@,
    {
        User { id: self.id.duplicate(), name: self.name.clone(), password: self.password.clone() }
    }
}

impl Session {
    /// A fresh session identifier.
    pub fn new_id() -> (res: SessionId)
        ensures
            res@.len() == 36,
            crate::id::is_hyphenated_uuid(res@),
    {
        SessionId::new()
    }

    /// A copy of the session.
    pub fn duplicate(&self) -> (res: Self)
        ensures
            res@ == self@,
    {
        Session {
            id: self.id.duplicate(),
            user_id: self.user_id.duplicate(),
            refresh_token: self.refresh_token.clone(),
        }
    }
}

} // verus!
