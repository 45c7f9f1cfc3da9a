//! The data the core works on: user rows as the persistence layer hands them
//! over (read-only here except for the attempt counter), session rows owned
//! by this crate, and the insertable forms of both. Each type has a view
//! struct giving its mathematical value.

use vstd::prelude::*;

verus! {

/// A user row. Owned by the persistence layer; this crate only ever writes
/// `login_attempts` and `last_login_at`, through [`User::update_login_attempts`].
#[derive(Clone)]
pub struct User {
    /// User identity, as a 128-bit value.
    pub id: u128,
    pub email: String,
    pub username: String,
    pub password_hash: String,
    pub full_name: Option<String>,
    pub role: String,
    pub status: String,
    /// Consecutive failed login attempts; reset to `0` only by a verified
    /// password, to `1` when a fresh window opens after an elapsed lockout.
    pub login_attempts: u16,
    /// Time of the last login attempt, seconds since the epoch.
    pub last_login_at: Option<u64>,
}

/// The user row as mathematical values.
pub struct UserV {
    pub id: u128,
    pub email: Seq<char>,
    pub username: Seq<char>,
    pub password_hash: Seq<char>,
    pub full_name: Option<Seq<char>>,
    pub role: Seq<char>,
    pub status: Seq<char>,
    pub login_attempts: u16,
    pub last_login_at: Option<u64>,
}

impl View for User {
    type V = UserV;

    open spec fn view(&self) -> UserV {
        UserV {
            id: self.id,
            email: self.email@,
            username: self.username@,
            password_hash: self.password_hash@,
            full_name: match self.full_name {
                Some(n) => Some(n@),
                None => None,
            },
            role: self.role@,
            status: self.status@,
            login_attempts: self.login_attempts,
            last_login_at: self.last_login_at,
        }
    }
}

impl User {
    /// Sets the attempt counter and stamps the time of the attempt; the two
    /// fields are always written together.
    pub fn update_login_attempts(&mut self, attempts_count: u16, now: u64)
        ensures
            *final(self) == (User {
                login_attempts: attempts_count,
                last_login_at: Some(now),
                ..*old(self)
            }),
    {
        self.login_attempts = attempts_count;
        self.last_login_at = Some(now);
    }
}

/// A user row to be inserted.
pub struct NewUser {
    pub username: String,
    pub email: String,
    pub password_hash: String,
    pub full_name: Option<String>,
    pub role: String,
    pub status: String,
}

/// The insertable user row as mathematical values.
pub struct NewUserV {
    pub username: Seq<char>,
    pub email: Seq<char>,
    pub password_hash: Seq<char>,
    pub full_name: Option<Seq<char>>,
    pub role: Seq<char>,
    pub status: Seq<char>,
}

impl View for NewUser {
    type V = NewUserV;

    open spec fn view(&self) -> NewUserV {
        NewUserV {
            username: self.username@,
            email: self.email@,
            password_hash: self.password_hash@,
            full_name: match self.full_name {
                Some(n) => Some(n@),
                None => None,
            },
            role: self.role@,
            status: self.status@,
        }
    }
}

/// A session row: the persisted binding between a user and the currently
/// valid token pair.
pub struct Session {
    pub id: u64,
    pub user_id: u128,
    /// The access token bound to this session.
    pub token: String,
    /// The refresh token bound to this session.
    pub refresh_token: String,
    /// Expiry of the access token, seconds since the epoch.
    pub expires_at: u64,
    pub created_at: Option<u64>,
}

/// The session row as mathematical values.
pub struct SessionV {
    pub id: u64,
    pub user_id: u128,
    pub token: Seq<char>,
    pub refresh_token: Seq<char>,
    pub expires_at: u64,
    pub created_at: Option<u64>,
}

impl View for Session {
    type V = SessionV;

    open spec fn view(&self) -> SessionV {
        SessionV {
            id: self.id,
            user_id: self.user_id,
            token: self.token@,
            refresh_token: self.refresh_token@,
            expires_at: self.expires_at,
            created_at: self.created_at,
        }
    }
}

impl DeepView for Session {
    type V = SessionV;

    open spec fn deep_view(&self) -> SessionV {
        self.view()
    }
}

/// A session row to be inserted; the row id and creation stamp are assigned
/// by the store.
pub struct NewSession {
    pub user_id: u128,
    pub token: String,
    pub refresh_token: String,
    pub expires_at: u64,
}

/// The insertable session row as mathematical values.
pub struct NewSessionV {
    pub user_id: u128,
    pub token: Seq<char>,
    pub refresh_token: Seq<char>,
    pub expires_at: u64,
}

impl View for NewSession {
    type V = NewSessionV;

    open spec fn view(&self) -> NewSessionV {
        NewSessionV {
            user_id: self.user_id,
            token: self.token@,
            refresh_token: self.refresh_token@,
            expires_at: self.expires_at,
        }
    }
}

} // verus!
