//! The user service: an in-memory table of identity rows with the
//! registration and login logic. Registration validates the request,
//! refuses a taken username or email, and stores only the derived
//! password credential; login verifies the password against the stored
//! credential and issues a signed session token.

use vstd::prelude::*;

use crate::error::ServiceError;
use crate::jwt::{decoded_claims, issued_claims, TOKEN_LIFETIME_SECONDS};
use crate::password::{hash_password, spec_verify, verify_password};
use crate::text::{blank, is_blank, spec_dec, str_eq, u64_to_dec};
use crate::user::{user_response_matches, CreateUserRequest, LoginRequest, User, UserResponse};

verus! {

/// Whether a row is a valid stored row under a key bound.
pub open spec fn valid_user_row(u: User, next_id: i64) -> bool {
    u.id matches Some(id) && 0 < id < next_id
}

/// Whether some row carries the id.
pub open spec fn has_user(users: Seq<User>, id: i64) -> bool {
    exists|i: int| 0 <= i < users.len() && users[i].id == Some(id)
}

/// Index of the row carrying the id (unique in a well-formed table).
pub open spec fn user_index(users: Seq<User>, id: i64) -> int {
    choose|i: int| 0 <= i < users.len() && users[i].id == Some(id)
}

/// Whether some row carries the email.
pub open spec fn has_email(users: Seq<User>, email: Seq<char>) -> bool {
    exists|i: int| 0 <= i < users.len() && users[i].email@ == email
}

/// Index of the row carrying the email (unique in a well-formed table).
pub open spec fn email_index(users: Seq<User>, email: Seq<char>) -> int {
    choose|i: int| 0 <= i < users.len() && users[i].email@ == email
}

/// Whether a registration collides with a stored row's username or
/// email.
pub open spec fn user_conflict(users: Seq<User>, username: Seq<char>, email: Seq<char>) -> bool {
    exists|i: int|
        0 <= i < users.len() && ((#[trigger] users[i]).username@ == username || users[i].email@
            == email)
}

/// Whether a fresh row is what a registration asked for: the identity
/// fields, a credential that verifies against the request's password,
/// and both timestamps at `now`.
pub open spec fn user_created_from(u: User, request: CreateUserRequest, id: i64, now: i64) -> bool {
    &&& u.id == Some(id)
    &&& u.username == request.username
    &&& u.email == request.email
    &&& spec_verify(request.password@, u.password_hash@) == Some(true)
    &&& u.created_at == Some(now)
    &&& u.updated_at == Some(now)
}

/// A successful login: the user's public view and a signed session
/// token.
#[derive(Debug, Clone, PartialEq)]
pub struct AuthResponse {
    pub user: UserResponse,
    pub token: String,
}

/// The subject string of a user's tokens: the id in decimal.
pub open spec fn user_subject(u: User) -> Seq<char> {
    spec_dec(u.id.unwrap_or(0) as int)
}

/// Whether an authentication response is correct for a row: the public
/// view matches, and the token decodes (under the secret) to claims
/// issued for the row's identity at `now`.
pub open spec fn auth_response_matches(
    r: AuthResponse,
    u: User,
    secret: Seq<u8>,
    now: usize,
) -> bool {
    &&& user_response_matches(r.user, u)
    &&& decoded_claims(secret, r.token@) == Some(
        issued_claims(user_subject(u), u.email@, u.username@, now as int),
    )
}

/// The user service: the stored identity rows, in creation order, and
/// the next primary key.
pub struct UserService {
    /// Stored rows, in creation order.
    pub users: Vec<User>,
    /// The key the next created row receives.
    pub next_id: i64,
}

impl UserService {
    /// Well-formedness: every row has a positive key below `next_id`;
    /// keys, usernames and emails are unique.
    pub open spec fn wf(self) -> bool {
        &&& 1 <= self.next_id
        &&& forall|i: int|
            0 <= i < self.users@.len() ==> valid_user_row(#[trigger] self.users@[i], self.next_id)
        &&& forall|i: int, j: int|
            0 <= i < j < self.users@.len() ==> self.users@[i].id != self.users@[j].id
        &&& forall|i: int, j: int|
            0 <= i < j < self.users@.len() ==> self.users@[i].username@ != self.users@[j].username@
        &&& forall|i: int, j: int|
            0 <= i < j < self.users@.len() ==> self.users@[i].email@ != self.users@[j].email@
    }

    /// An empty table.
    pub fn new() -> (s: UserService)
        ensures
            s.wf(),
            s.users@.len() == 0,
            s.next_id == 1,
    {
        UserService { users: Vec::new(), next_id: 1 }
    }

    /// Index of the row carrying the id, if any.
    fn find(&self, id: i64) -> (r: Option<usize>)
        ensures
            match r {
                Some(i) => i < self.users@.len() && self.users@[i as int].id == Some(id),
                None => !has_user(self.users@, id),
            },
    {
        let n = self.users.len();
        let mut i: usize = 0;
        while i < n
            invariant
                0 <= i <= n,
                n == self.users@.len(),
                forall|j: int| 0 <= j < i ==> self.users@[j].id != Some(id),
            decreases n - i,
        {
            let found = match self.users[i].id {
                Some(k) => k == id,
                None => false,
            };
            if found {
                return Some(i);
            }
            i += 1;
        }
        None
    }

    /// Index of the row carrying the email, if any.
    fn find_by_email(&self, email: &str) -> (r: Option<usize>)
        ensures
            match r {
                Some(i) => i < self.users@.len() && self.users@[i as int].email@ == email@,
                None => !has_email(self.users@, email@),
            },
    {
        let n = self.users.len();
        let mut i: usize = 0;
        while i < n
            invariant
                0 <= i <= n,
                n == self.users@.len(),
                forall|j: int| 0 <= j < i ==> self.users@[j].email@ != email@,
            decreases n - i,
        {
            if str_eq(self.users[i].email.as_str(), email) {
                return Some(i);
            }
            i += 1;
        }
        None
    }

    /// Whether a registration collides with a stored username or email.
    fn conflicts(&self, username: &str, email: &str) -> (r: bool)
        ensures
            r == user_conflict(self.users@, username@, email@),
    {
        let n = self.users.len();
        let mut i: usize = 0;
        while i < n
            invariant
                0 <= i <= n,
                n == self.users@.len(),
                forall|j: int|
                    0 <= j < i ==> !((#[trigger] self.users@[j]).username@ == username@
                        || self.users@[j].email@ == email@),
            decreases n - i,
        {
            if str_eq(self.users[i].username.as_str(), username) || str_eq(
                self.users[i].email.as_str(),
                email,
            ) {
                return true;
            }
            i += 1;
        }
        false
    }

    /// Register a user. A blank username, email or password is rejected;
    /// a taken username or email is a conflict and adds no second row;
    /// otherwise the derived credential is stored with the identity and
    /// the public view returned. Only a hashing failure is an internal
    /// error. In every failure nothing changes.
    pub fn create(&mut self, request: CreateUserRequest, now: i64) -> (r: Result<
        UserResponse,
        ServiceError,
    >)
        requires
            old(self).wf(),
            old(self).next_id < i64::MAX,
        ensures
            final(self).wf(),
            (blank(request.username@) || blank(request.email@) || blank(request.password@)) ==> (r
                matches Err(e) && e is Validation && *final(self) == *old(self)),
            !(blank(request.username@) || blank(request.email@) || blank(request.password@))
                && user_conflict(old(self).users@, request.username@, request.email@) ==> (r matches
                Err(e) && e is Conflict && *final(self) == *old(self)),
            !(blank(request.username@) || blank(request.email@) || blank(request.password@))
                && !user_conflict(old(self).users@, request.username@, request.email@) ==> match r {
                Ok(resp) => {
                    &&& final(self).next_id == old(self).next_id + 1
                    &&& final(self).users@.len() == old(self).users@.len() + 1
                    &&& final(self).users@.drop_last() == old(self).users@
                    &&& user_created_from(
                        final(self).users@.last(),
                        request,
                        old(self).next_id,
                        now,
                    )
                    &&& user_response_matches(resp, final(self).users@.last())
                },
                Err(e) => e is Internal && *final(self) == *old(self),
            },
    {
        if is_blank(request.username.as_str()) {
            return Err(ServiceError::validation("Username cannot be empty"));
        }
        if is_blank(request.email.as_str()) {
            return Err(ServiceError::validation("Email cannot be empty"));
        }
        if is_blank(request.password.as_str()) {
            return Err(ServiceError::validation("Password cannot be empty"));
        }
        if self.conflicts(request.username.as_str(), request.email.as_str()) {
            return Err(ServiceError::conflict("Username or email already exists"));
        }
        let credential = match hash_password(request.password.as_str()) {
            Ok(c) => c,
            Err(e) => {
                return Err(e);
            },
        };
        let row = User {
            id: Some(self.next_id),
            username: request.username,
            email: request.email,
            password_hash: credential,
            created_at: Some(now),
            updated_at: Some(now),
        };
        self.next_id = self.next_id + 1;
        self.users.push(row);
        proof {
            assert(self.users@.drop_last() =~= old(self).users@);
        }
        let idx = self.users.len() - 1;
        Ok(UserResponse::from_user(&self.users[idx]))
    }

    /// Authenticate by email and password and issue a session token. An
    /// unknown email and a wrong password are both unauthorized, told
    /// apart from a stored credential that cannot be checked or a signing
    /// failure, which are internal.
    pub fn authenticate(&self, secret: &[u8], request: &LoginRequest, now: usize) -> (r: Result<
        AuthResponse,
        ServiceError,
    >)
        requires
            self.wf(),
            now + TOKEN_LIFETIME_SECONDS <= usize::MAX,
        ensures
            !has_email(self.users@, request.email@) ==> (r matches Err(e) && e is Unauthorized),
            has_email(self.users@, request.email@) ==> {
                let u = self.users@[email_index(self.users@, request.email@)];
                match spec_verify(request.password@, u.password_hash@) {
                    Some(true) => match r {
                        Ok(resp) => auth_response_matches(resp, u, secret@, now),
                        Err(e) => e is Internal,
                    },
                    Some(false) => r matches Err(e) && e is Unauthorized,
                    None => r matches Err(e) && e is Internal,
                }
            },
    {
        let idx = match self.find_by_email(request.email.as_str()) {
            Some(i) => i,
            None => {
                return Err(ServiceError::unauthorized("Invalid email or password"));
            },
        };
        proof {
            let k = email_index(self.users@, request.email@);
            assert(self.users@[idx as int].email@ == request.email@);
            assert(0 <= k < self.users@.len() && self.users@[k].email@ == request.email@);
            assert(k == idx);
        }
        let user = &self.users[idx];
        match verify_password(request.password.as_str(), user.password_hash.as_str()) {
            Ok(true) => {},
            Ok(false) => {
                return Err(ServiceError::unauthorized("Invalid email or password"));
            },
            Err(e) => {
                return Err(e);
            },
        }
        let id = match user.id {
            Some(id) => id,
            None => {
                proof {
                    assert(false);
                }
                return Err(ServiceError::internal("Stored user row has no id"));
            },
        };
        let subject = u64_to_dec(id as u64);
        let token = match crate::jwt::create_token(
            secret,
            subject.as_str(),
            user.email.as_str(),
            user.username.as_str(),
            now,
        ) {
            Ok(t) => t,
            Err(e) => {
                return Err(e);
            },
        };
        Ok(AuthResponse { user: UserResponse::from_user(user), token })
    }

    /// Look a row up by key.
    pub fn get_by_id(&self, id: i64) -> (r: Result<UserResponse, ServiceError>)
        requires
            self.wf(),
        ensures
            match r {
                Ok(resp) => has_user(self.users@, id) && user_response_matches(
                    resp,
                    self.users@[user_index(self.users@, id)],
                ),
                Err(e) => e is NotFound && !has_user(self.users@, id),
            },
    {
        match self.find(id) {
            Some(i) => {
                proof {
                    let k = user_index(self.users@, id);
                    assert(self.users@[i as int].id == Some(id));
                    assert(0 <= k < self.users@.len() && self.users@[k].id == Some(id));
                    assert(k == i);
                }
                Ok(UserResponse::from_user(&self.users[i]))
            },
            None => Err(ServiceError::not_found("User")),
        }
    }

    /// Look a row up by email.
    pub fn get_by_email(&self, email: &str) -> (r: Result<UserResponse, ServiceError>)
        requires
            self.wf(),
        ensures
            match r {
                Ok(resp) => has_email(self.users@, email@) && user_response_matches(
                    resp,
                    self.users@[email_index(self.users@, email@)],
                ),
                Err(e) => e is NotFound && !has_email(self.users@, email@),
            },
    {
        match self.find_by_email(email) {
            Some(i) => {
                proof {
                    let k = email_index(self.users@, email@);
                    assert(self.users@[i as int].email@ == email@);
                    assert(0 <= k < self.users@.len() && self.users@[k].email@ == email@);
                    assert(k == i);
                }
                Ok(UserResponse::from_user(&self.users[i]))
            },
            None => Err(ServiceError::not_found("User")),
        }
    }

    /// Look a row up by email and hand back the full row together with
    /// its stored credential.
    pub fn get_with_password(&self, email: &str) -> (r: Result<(User, String), ServiceError>)
        requires
            self.wf(),
        ensures
            match r {
                Ok(pair) => has_email(self.users@, email@) && pair.0 == self.users@[email_index(
                    self.users@,
                    email@,
                )] && pair.1 == pair.0.password_hash,
                Err(e) => e is NotFound && !has_email(self.users@, email@),
            },
    {
        match self.find_by_email(email) {
            Some(i) => {
                proof {
                    let k = email_index(self.users@, email@);
                    assert(self.users@[i as int].email@ == email@);
                    assert(0 <= k < self.users@.len() && self.users@[k].email@ == email@);
                    assert(k == i);
                }
                let row = clone_user(&self.users[i]);
                let credential = row.password_hash.clone();
                Ok((row, credential))
            },
            None => Err(ServiceError::not_found("User")),
        }
    }
}

/// Field-for-field copy of a row.
fn clone_user(u: &User) -> (r: User)
    ensures
        r == *u,
{
    User {
        id: u.id,
        username: u.username.clone(),
        email: u.email.clone(),
        password_hash: u.password_hash.clone(),
        created_at: u.created_at,
        updated_at: u.updated_at,
    }
}

} // verus!
