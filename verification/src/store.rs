//! The session store: a mapping from token pairs to users with the
//! guarantees the rest of the core relies on — access tokens, refresh tokens
//! and row ids are unique across rows, creation refuses a token value that is
//! already taken, rotation replaces both tokens of one row atomically and
//! loses (with `Conflict`) rather than overwrite, and deletion by access
//! token is idempotent.

use vstd::prelude::*;

use crate::errors::StoreError;
use crate::models::{NewSession, Session, SessionV};
use crate::text::str_eq;

verus! {

/// Some row holds `t` as its access token.
pub open spec fn has_token(s: Seq<SessionV>, t: Seq<char>) -> bool {
    exists|i: int| 0 <= i < s.len() && (#[trigger] s[i]).token == t
}

/// Some row holds `rt` as its refresh token.
pub open spec fn has_refresh_token(s: Seq<SessionV>, rt: Seq<char>) -> bool {
    exists|i: int| 0 <= i < s.len() && (#[trigger] s[i]).refresh_token == rt
}

/// Some row binds exactly this pair of tokens.
pub open spec fn has_pair(s: Seq<SessionV>, t: Seq<char>, rt: Seq<char>) -> bool {
    exists|i: int|
        0 <= i < s.len() && (#[trigger] s[i]).token == t && s[i].refresh_token == rt
}

/// Some row has id `id`.
pub open spec fn has_id(s: Seq<SessionV>, id: u64) -> bool {
    exists|i: int| 0 <= i < s.len() && (#[trigger] s[i]).id == id
}

/// The index of the row holding `t` as its access token.
pub open spec fn token_index(s: Seq<SessionV>, t: Seq<char>) -> int {
    choose|i: int| 0 <= i < s.len() && (#[trigger] s[i]).token == t
}

/// The index of the row binding exactly this pair.
pub open spec fn pair_index(s: Seq<SessionV>, t: Seq<char>, rt: Seq<char>) -> int {
    choose|i: int| 0 <= i < s.len() && (#[trigger] s[i]).token == t && s[i].refresh_token == rt
}

/// The index of the row with id `id`.
pub open spec fn id_index(s: Seq<SessionV>, id: u64) -> int {
    choose|i: int| 0 <= i < s.len() && (#[trigger] s[i]).id == id
}

/// A row other than the one at `excl` holds `t` as its access token.
pub open spec fn token_taken_elsewhere(s: Seq<SessionV>, excl: int, t: Seq<char>) -> bool {
    exists|j: int| 0 <= j < s.len() && j != excl && (#[trigger] s[j]).token == t
}

/// A row other than the one at `excl` holds `rt` as its refresh token.
pub open spec fn refresh_taken_elsewhere(s: Seq<SessionV>, excl: int, rt: Seq<char>) -> bool {
    exists|j: int| 0 <= j < s.len() && j != excl && (#[trigger] s[j]).refresh_token == rt
}

/// Two rows that may coexist: all three key values differ.
pub open spec fn distinct_rows(a: SessionV, b: SessionV) -> bool {
    a.token != b.token && a.refresh_token != b.refresh_token && a.id != b.id
}

/// The store invariant: pairwise distinct key values, and every row id lies
/// below the id counter.
pub open spec fn sessions_wf(s: Seq<SessionV>, next_id: u64) -> bool {
    &&& forall|i: int, j: int|
        0 <= i < s.len() && 0 <= j < s.len() && i != j ==> distinct_rows(
            #[trigger] s[i],
            #[trigger] s[j],
        )
    &&& forall|i: int| 0 <= i < s.len() ==> (#[trigger] s[i]).id < next_id
}

/// The store as mathematical values: the rows and the next row id.
pub struct StoreV {
    pub sessions: Seq<SessionV>,
    pub next_id: u64,
}

impl StoreV {
    pub open spec fn wf(self) -> bool {
        sessions_wf(self.sessions, self.next_id)
    }
}

/// In a well-formed store the row holding a given access token is unique, so
/// `token_index` names exactly the row any search finds.
pub proof fn lemma_token_index_unique(s: Seq<SessionV>, next_id: u64, i: int)
    requires
        sessions_wf(s, next_id),
        0 <= i < s.len(),
    ensures
        token_index(s, s[i].token) == i,
        pair_index(s, s[i].token, s[i].refresh_token) == i,
        id_index(s, s[i].id) == i,
{
    assert(has_token(s, s[i].token));
    let j = token_index(s, s[i].token);
    assert(s[j].token == s[i].token);
    assert(has_pair(s, s[i].token, s[i].refresh_token));
    let k = pair_index(s, s[i].token, s[i].refresh_token);
    assert(s[k].token == s[i].token);
    assert(has_id(s, s[i].id));
    let l = id_index(s, s[i].id);
    assert(s[l].id == s[i].id);
}

/// The session store.
pub struct SessionStore {
    sessions: Vec<Session>,
    next_id: u64,
}

impl View for SessionStore {
    type V = StoreV;

    closed spec fn view(&self) -> StoreV {
        StoreV { sessions: self.sessions.deep_view(), next_id: self.next_id }
    }
}

impl SessionStore {
    /// An empty store; row ids start at 1.
    pub fn new() -> (r: SessionStore)
        ensures
            r@.sessions == Seq::<SessionV>::empty(),
            r@.next_id == 1,
            r@.wf(),
    {
        let r = SessionStore { sessions: Vec::new(), next_id: 1 };
        proof {
            assert(r@.sessions =~= Seq::<SessionV>::empty());
        }
        r
    }

    /// The number of rows.
    pub fn len(&self) -> (r: usize)
        ensures
            r == self@.sessions.len(),
    {
        self.sessions.len()
    }

    /// The row at a given index.
    pub fn get(&self, i: usize) -> (r: &Session)
        requires
            i < self@.sessions.len(),
        ensures
            r@ == self@.sessions[i as int],
    {
        &self.sessions[i]
    }

    /// Looks a session up by its access token.
    pub fn find_by_access_token(&self, token: &str) -> (r: Option<usize>)
        ensures
            r matches Some(i) ==> i < self@.sessions.len() && self@.sessions[i as int].token
                == token@,
            (r is None) <==> !has_token(self@.sessions, token@),
    {
        let n = self.sessions.len();
        let mut i: usize = 0;
        while i < n
            invariant
                0 <= i <= n,
                n == self@.sessions.len(),
                forall|k: int| 0 <= k < i ==> (#[trigger] self@.sessions[k]).token != token@,
            decreases n - i,
        {
            let row = &self.sessions[i];
            proof {
                assert(self@.sessions[i as int] == self.sessions@[i as int]@);
            }
            if str_eq(row.token.as_str(), token) {
                proof {
                    assert(self@.sessions[i as int].token == token@);
                    assert(has_token(self@.sessions, token@));
                }
                return Some(i);
            }
            i += 1;
        }
        None
    }

    /// Looks a session up by its refresh token.
    fn find_by_refresh_token(&self, refresh_token: &str) -> (r: Option<usize>)
        ensures
            r matches Some(i) ==> i < self@.sessions.len()
                && self@.sessions[i as int].refresh_token == refresh_token@,
            (r is None) <==> !has_refresh_token(self@.sessions, refresh_token@),
    {
        let n = self.sessions.len();
        let mut i: usize = 0;
        while i < n
            invariant
                0 <= i <= n,
                n == self@.sessions.len(),
                forall|k: int|
                    0 <= k < i ==> (#[trigger] self@.sessions[k]).refresh_token != refresh_token@,
            decreases n - i,
        {
            let row = &self.sessions[i];
            proof {
                assert(self@.sessions[i as int] == self.sessions@[i as int]@);
            }
            if str_eq(row.refresh_token.as_str(), refresh_token) {
                proof {
                    assert(self@.sessions[i as int].refresh_token == refresh_token@);
                    assert(has_refresh_token(self@.sessions, refresh_token@));
                }
                return Some(i);
            }
            i += 1;
        }
        None
    }

    /// Looks a session up by its exact token pair: the proof that the refresh
    /// token presented was bound to the access token being renewed.
    pub fn find_by_pair(&self, token: &str, refresh_token: &str) -> (r: Option<usize>)
        ensures
            r matches Some(i) ==> i < self@.sessions.len() && self@.sessions[i as int].token
                == token@ && self@.sessions[i as int].refresh_token == refresh_token@,
            (r is None) <==> !has_pair(self@.sessions, token@, refresh_token@),
    {
        let n = self.sessions.len();
        let mut i: usize = 0;
        while i < n
            invariant
                0 <= i <= n,
                n == self@.sessions.len(),
                forall|k: int|
                    0 <= k < i ==> !((#[trigger] self@.sessions[k]).token == token@
                        && self@.sessions[k].refresh_token == refresh_token@),
            decreases n - i,
        {
            let row = &self.sessions[i];
            proof {
                assert(self@.sessions[i as int] == self.sessions@[i as int]@);
            }
            if str_eq(row.token.as_str(), token) && str_eq(
                row.refresh_token.as_str(),
                refresh_token,
            ) {
                proof {
                    assert(self@.sessions[i as int].token == token@);
                    assert(self@.sessions[i as int].refresh_token == refresh_token@);
                    assert(has_pair(self@.sessions, token@, refresh_token@));
                }
                return Some(i);
            }
            i += 1;
        }
        None
    }

    /// Looks a session up by its row id.
    fn find_by_id(&self, session_id: u64) -> (r: Option<usize>)
        ensures
            r matches Some(i) ==> i < self@.sessions.len() && self@.sessions[i as int].id
                == session_id,
            (r is None) <==> !has_id(self@.sessions, session_id),
    {
        let n = self.sessions.len();
        let mut i: usize = 0;
        while i < n
            invariant
                0 <= i <= n,
                n == self@.sessions.len(),
                forall|k: int| 0 <= k < i ==> (#[trigger] self@.sessions[k]).id != session_id,
            decreases n - i,
        {
            let row = &self.sessions[i];
            proof {
                assert(self@.sessions[i as int] == self.sessions@[i as int]@);
            }
            if row.id == session_id {
                proof {
                    assert(self@.sessions[i as int].id == session_id);
                    assert(has_id(self@.sessions, session_id));
                }
                return Some(i);
            }
            i += 1;
        }
        None
    }

    /// Inserts a new row. Fails, leaving the store unchanged, exactly when a
    /// token value of the new row is already taken or the id space is
    /// exhausted.
    pub fn create(&mut self, session: NewSession, now: u64) -> (r: Result<u64, StoreError>)
        requires
            old(self)@.wf(),
        ensures
            final(self)@.wf(),
            (r is Ok) <==> (!has_token(old(self)@.sessions, session.token@)
                && !has_refresh_token(old(self)@.sessions, session.refresh_token@) && old(
                self,
            )@.next_id < u64::MAX),
            r matches Ok(id) ==> id == old(self)@.next_id && final(self)@.next_id == old(
                self,
            )@.next_id + 1 && final(self)@.sessions == old(self)@.sessions.push(
                SessionV {
                    id: old(self)@.next_id,
                    user_id: session.user_id,
                    token: session.token@,
                    refresh_token: session.refresh_token@,
                    expires_at: session.expires_at,
                    created_at: Some(now),
                },
            ),
            r is Err ==> *final(self) == *old(self) && r == Err::<u64, StoreError>(
                StoreError::PersistenceError,
            ),
    {
        if self.next_id == u64::MAX {
            return Err(StoreError::PersistenceError);
        }
        if self.find_by_access_token(session.token.as_str()).is_some() {
            return Err(StoreError::PersistenceError);
        }
        if self.find_by_refresh_token(session.refresh_token.as_str()).is_some() {
            return Err(StoreError::PersistenceError);
        }
        let id = self.next_id;
        let row = Session {
            id,
            user_id: session.user_id,
            token: session.token,
            refresh_token: session.refresh_token,
            expires_at: session.expires_at,
            created_at: Some(now),
        };
        let ghost rowv = row@;
        let ghost o = self@.sessions;
        self.sessions.push(row);
        self.next_id = id + 1;
        proof {
            assert(self@.sessions =~= o.push(rowv));
            let s = self@.sessions;
            assert forall|i: int, j: int|
                0 <= i < s.len() && 0 <= j < s.len() && i != j implies distinct_rows(
                #[trigger] s[i],
                #[trigger] s[j],
            ) by {
                let n = o.len() as int;
                if i == n {
                    assert(s[j] == o[j]);
                    if o[j].token == rowv.token {
                        assert(has_token(o, rowv.token));
                    }
                    if o[j].refresh_token == rowv.refresh_token {
                        assert(has_refresh_token(o, rowv.refresh_token));
                    }
                } else if j == n {
                    assert(s[i] == o[i]);
                    if o[i].token == rowv.token {
                        assert(has_token(o, rowv.token));
                    }
                    if o[i].refresh_token == rowv.refresh_token {
                        assert(has_refresh_token(o, rowv.refresh_token));
                    }
                } else {
                    assert(s[i] == o[i] && s[j] == o[j]);
                }
            }
            assert forall|i: int| 0 <= i < s.len() implies (#[trigger] s[i]).id < self@.next_id by {
                if i < o.len() {
                    assert(s[i] == o[i]);
                }
            }
        }
        Ok(id)
    }

    /// Replaces both tokens and the expiry of the row with the given id, in
    /// one step, preserving the row identity. Fails with `Conflict`, leaving
    /// the store unchanged, exactly when the row is gone or a new token value
    /// is already taken by another row.
    pub fn rotate(
        &mut self,
        session_id: u64,
        new_token: String,
        new_refresh_token: String,
        new_expires_at: u64,
    ) -> (r: Result<(), StoreError>)
        requires
            old(self)@.wf(),
        ensures
            final(self)@.wf(),
            (r is Ok) <==> (has_id(old(self)@.sessions, session_id) && !token_taken_elsewhere(
                old(self)@.sessions,
                id_index(old(self)@.sessions, session_id),
                new_token@,
            ) && !refresh_taken_elsewhere(
                old(self)@.sessions,
                id_index(old(self)@.sessions, session_id),
                new_refresh_token@,
            )),
            r is Ok ==> final(self)@.next_id == old(self)@.next_id && final(self)@.sessions == old(
                self,
            )@.sessions.update(
                id_index(old(self)@.sessions, session_id),
                SessionV {
                    id: session_id,
                    user_id: old(self)@.sessions[id_index(old(self)@.sessions, session_id)].user_id,
                    token: new_token@,
                    refresh_token: new_refresh_token@,
                    expires_at: new_expires_at,
                    created_at: old(self)@.sessions[id_index(
                        old(self)@.sessions,
                        session_id,
                    )].created_at,
                },
            ),
            r is Err ==> *final(self) == *old(self) && r == Err::<(), StoreError>(
                StoreError::Conflict,
            ),
    {
        let idx = match self.find_by_id(session_id) {
            Some(i) => i,
            None => {
                return Err(StoreError::Conflict);
            },
        };
        proof {
            lemma_token_index_unique(self@.sessions, self@.next_id, idx as int);
        }
        let n = self.sessions.len();
        let mut j: usize = 0;
        while j < n
            invariant
                0 <= j <= n,
                *self == *old(self),
                self@.wf(),
                n == self@.sessions.len(),
                idx < n,
                self@.sessions[idx as int].id == session_id,
                id_index(self@.sessions, session_id) == idx,
                forall|k: int|
                    0 <= k < j && k != idx ==> (#[trigger] self@.sessions[k]).token != new_token@
                        && self@.sessions[k].refresh_token != new_refresh_token@,
            decreases n - j,
        {
            if j != idx {
                let row = &self.sessions[j];
                proof {
                    assert(self@.sessions[j as int] == self.sessions@[j as int]@);
                }
                if str_eq(row.token.as_str(), new_token.as_str()) || str_eq(
                    row.refresh_token.as_str(),
                    new_refresh_token.as_str(),
                ) {
                    proof {
                        if self@.sessions[j as int].token == new_token@ {
                            assert(token_taken_elsewhere(self@.sessions, idx as int, new_token@));
                        } else {
                            assert(refresh_taken_elsewhere(
                                self@.sessions,
                                idx as int,
                                new_refresh_token@,
                            ));
                        }
                    }
                    return Err(StoreError::Conflict);
                }
            }
            j += 1;
        }
        let old_row = self.sessions.remove(idx);
        let new_row = Session {
            id: session_id,
            user_id: old_row.user_id,
            token: new_token,
            refresh_token: new_refresh_token,
            expires_at: new_expires_at,
            created_at: old_row.created_at,
        };
        let ghost newv = new_row@;
        let ghost o = old(self)@.sessions;
        self.sessions.insert(idx, new_row);
        proof {
            assert(self@.sessions =~= o.update(idx as int, newv));
            let s = self@.sessions;
            assert forall|i: int, j2: int|
                0 <= i < s.len() && 0 <= j2 < s.len() && i != j2 implies distinct_rows(
                #[trigger] s[i],
                #[trigger] s[j2],
            ) by {
                if i == idx {
                    assert(s[j2] == o[j2]);
                    assert(o[j2].id != session_id);
                } else if j2 == idx {
                    assert(s[i] == o[i]);
                    assert(o[i].id != session_id);
                } else {
                    assert(s[i] == o[i] && s[j2] == o[j2]);
                }
            }
            assert forall|i: int| 0 <= i < s.len() implies (#[trigger] s[i]).id < self@.next_id by {
                if i != idx {
                    assert(s[i] == o[i]);
                } else {
                    assert(o[idx as int].id == session_id);
                }
            }
        }
        Ok(())
    }

    /// Deletes the session holding the given access token, if any; idempotent.
    pub fn delete_by_access_token(&mut self, token: &str)
        requires
            old(self)@.wf(),
        ensures
            final(self)@.wf(),
            final(self)@.next_id == old(self)@.next_id,
            !has_token(old(self)@.sessions, token@) ==> final(self)@.sessions == old(
                self,
            )@.sessions,
            has_token(old(self)@.sessions, token@) ==> final(self)@.sessions == old(
                self,
            )@.sessions.remove(token_index(old(self)@.sessions, token@)),
            !has_token(final(self)@.sessions, token@),
    {
        let idx = match self.find_by_access_token(token) {
            Some(i) => i,
            None => {
                return;
            },
        };
        proof {
            lemma_token_index_unique(self@.sessions, self@.next_id, idx as int);
        }
        let ghost o = self@.sessions;
        let _removed = self.sessions.remove(idx);
        proof {
            assert(self@.sessions =~= o.remove(idx as int));
            let s = self@.sessions;
            assert forall|i: int, j: int|
                0 <= i < s.len() && 0 <= j < s.len() && i != j implies distinct_rows(
                #[trigger] s[i],
                #[trigger] s[j],
            ) by {
                let i0: int = if i < idx {
                    i
                } else {
                    i + 1
                };
                let j0: int = if j < idx {
                    j
                } else {
                    j + 1
                };
                assert(s[i] == o[i0]);
                assert(s[j] == o[j0]);
            }
            assert forall|i: int| 0 <= i < s.len() implies (#[trigger] s[i]).id < self@.next_id by {
                let i0: int = if i < idx {
                    i
                } else {
                    i + 1
                };
                assert(s[i] == o[i0]);
            }
            assert forall|i: int| 0 <= i < s.len() implies (#[trigger] s[i]).token != token@ by {
                let i0: int = if i < idx {
                    i
                } else {
                    i + 1
                };
                assert(s[i] == o[i0]);
                if o[i0].token == token@ {
                    lemma_token_index_unique(o, self@.next_id, i0);
                }
            }
        }
    }
}

} // verus!
