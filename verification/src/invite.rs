//! Invites of a user to a community, with an expiry time.

use vstd::prelude::*;
use crate::store::{DbError, Timestamp, fresh_id, is_clock_reading, is_drawn_id, is_v4, now};

verus! {

/// A stored invite row.
#[derive(Debug, Clone, Copy, PartialEq, Eq)]
pub struct Invite {
    pub id: u128,
    pub community: u128,
    pub user: u128,
    pub created: Timestamp,
    pub exp: Timestamp,
}

/// What a client sends to create an invite.
#[derive(Debug, Clone, Copy, PartialEq, Eq)]
pub struct CreateInvite {
    pub community: u128,
    pub user: u128,
    pub exp: Timestamp,
}

/// Why an invite operation failed. Database failures are not passed on:
/// an insert that the database refuses because a unique or primary key
/// already holds the value means the invite exists already, and every
/// other failure is reported as `DbError`.
#[derive(Debug, Clone, Copy, PartialEq, Eq)]
pub enum InviteRepositoryError {
    NotFound,
    AlreadyExists,
    DbError,
}

impl InviteRepositoryError {
    /// The text shown for the error.
    pub fn message(&self) -> (m: String)
        ensures
            match self {
                InviteRepositoryError::NotFound => m@ == "invite not found"@,
                InviteRepositoryError::AlreadyExists => m@ == "invite already exists"@,
                InviteRepositoryError::DbError => m@ == "database error"@,
            },
    {
        match self {
            InviteRepositoryError::NotFound => "invite not found".to_owned(),
            InviteRepositoryError::AlreadyExists => "invite already exists".to_owned(),
            InviteRepositoryError::DbError => "database error".to_owned(),
        }
    }
}

/// The row for a new invite with this id and creation time.
pub fn build_invite(request: CreateInvite, id: u128, created: Timestamp) -> (i: Invite)
    ensures
        i == (Invite {
            id,
            community: request.community,
            user: request.user,
            created,
            exp: request.exp,
        }),
{
    Invite { id, community: request.community, user: request.user, created, exp: request.exp }
}

/// Builds the row for a new invite: a fresh random id, the requested
/// community, user and expiry, and the current time. When the clock
/// cannot be read the answer is `DbError`, as for any other failure
/// that is not the database's own.
pub fn new_invite(request: CreateInvite) -> (r: Result<Invite, InviteRepositoryError>)
    ensures
        match r {
            Ok(i) => {
                &&& i.community == request.community
                &&& i.user == request.user
                &&& i.exp == request.exp
                &&& is_drawn_id(i.id)
                &&& is_v4(i.id)
                &&& is_clock_reading(i.created)
                &&& i.created.secs >= 0
                &&& i.created.nanos < 1_000_000_000
            },
            Err(e) => e == InviteRepositoryError::DbError,
        },
{
    let id = fresh_id();
    match now() {
        Some(created) => Ok(build_invite(request, id, created)),
        None => Err(InviteRepositoryError::DbError),
    }
}

/// The answer of `create`, given the row built for it and the outcome of
/// its `INSERT`: a unique or primary key violation means the invite
/// exists already; any other error is a `DbError`.
pub fn inserted_invite(invite: Invite, outcome: Result<(), DbError>) -> (r: Result<
    Invite,
    InviteRepositoryError,
>)
    ensures
        match outcome {
            Ok(()) => r == Ok::<Invite, InviteRepositoryError>(invite),
            Err(DbError::UniqueViolation(_)) => r == Err::<Invite, InviteRepositoryError>(
                InviteRepositoryError::AlreadyExists,
            ),
            Err(_) => r == Err::<Invite, InviteRepositoryError>(InviteRepositoryError::DbError),
        },
{
    match outcome {
        Ok(()) => Ok(invite),
        Err(DbError::UniqueViolation(_)) => Err(InviteRepositoryError::AlreadyExists),
        Err(_) => Err(InviteRepositoryError::DbError),
    }
}

/// The answer of `get_by_id`, given what the `SELECT` by id returned.
pub fn fetched_invite(fetched: Result<Option<Invite>, DbError>) -> (r: Result<
    Invite,
    InviteRepositoryError,
>)
    ensures
        match fetched {
            Ok(Some(i)) => r == Ok::<Invite, InviteRepositoryError>(i),
            Ok(None) => r == Err::<Invite, InviteRepositoryError>(
                InviteRepositoryError::NotFound,
            ),
            Err(_) => r == Err::<Invite, InviteRepositoryError>(InviteRepositoryError::DbError),
        },
{
    match fetched {
        Ok(Some(i)) => Ok(i),
        Ok(None) => Err(InviteRepositoryError::NotFound),
        Err(_) => Err(InviteRepositoryError::DbError),
    }
}

/// The answer of `list` and `list_by_user`, given what the `SELECT`
/// returned (the rows come from the store newest first).
pub fn listed_invites(fetched: Result<Vec<Invite>, DbError>) -> (r: Result<
    Vec<Invite>,
    InviteRepositoryError,
>)
    ensures
        match fetched {
            Ok(rows) => r == Ok::<Vec<Invite>, InviteRepositoryError>(rows),
            Err(_) => r == Err::<Vec<Invite>, InviteRepositoryError>(
                InviteRepositoryError::DbError,
            ),
        },
{
    match fetched {
        Ok(rows) => Ok(rows),
        Err(_) => Err(InviteRepositoryError::DbError),
    }
}

/// The answer of `delete`, given how many rows the `DELETE` removed:
/// none means there was no such invite.
pub fn invite_deletion(affected: Result<u64, DbError>) -> (r: Result<(), InviteRepositoryError>)
    ensures
        match affected {
            Ok(n) => if n == 0 {
                r == Err::<(), InviteRepositoryError>(InviteRepositoryError::NotFound)
            } else {
                r == Ok::<(), InviteRepositoryError>(())
            },
            Err(_) => r == Err::<(), InviteRepositoryError>(InviteRepositoryError::DbError),
        },
{
    match affected {
        Ok(n) => if n == 0 {
            Err(InviteRepositoryError::NotFound)
        } else {
            Ok(())
        },
        Err(_) => Err(InviteRepositoryError::DbError),
    }
}

} // verus!
