//! Memberships: which member belongs to which community.

use vstd::prelude::*;
use crate::store::{
    DbError, Timestamp, clock_error, fresh_id, is_clock_error, is_clock_reading, is_drawn_id, is_v4,
    now,
};

verus! {

/// A stored membership row.
#[derive(Debug, Clone, Copy, PartialEq, Eq)]
pub struct Membership {
    pub id: u128,
    pub community: u128,
    pub member: u128,
    pub created: Timestamp,
}

/// What a client sends to create a membership.
#[derive(Debug, Clone, PartialEq, Eq)]
pub struct CreateMembership {
    pub community: u128,
    pub member: u128,
}

/// What a client sends to change a membership; a field left `None`
/// keeps its stored value.
#[derive(Debug, Clone, PartialEq, Eq)]
pub struct UpdateMembership {
    pub community: Option<u128>,
    pub member: Option<u128>,
}

/// Why a membership operation failed.
#[derive(Debug, Clone, PartialEq, Eq)]
pub enum MembershipRepositoryError {
    NotFound,
    Sqlx(DbError),
}

impl MembershipRepositoryError {
    /// Whether `m` is the text shown for the error: a fixed sentence for
    /// `NotFound`, the database's own text otherwise.
    pub open spec fn shows(self, m: String) -> bool {
        match self {
            MembershipRepositoryError::NotFound => m@ == "membership not found"@,
            MembershipRepositoryError::Sqlx(e) => m == e.text(),
        }
    }

    /// The text shown for the error.
    pub fn message(&self) -> (m: String)
        ensures
            self.shows(m),
    {
        match self {
            MembershipRepositoryError::NotFound => "membership not found".to_owned(),
            MembershipRepositoryError::Sqlx(e) => e.message(),
        }
    }
}

impl Default for UpdateMembership {
    /// The update that changes nothing.
    fn default() -> (u: Self)
        ensures
            u.community is None,
            u.member is None,
    {
        UpdateMembership { community: None, member: None }
    }
}

impl UpdateMembership {
    /// The row that the update leaves where `current` stood: each field
    /// given replaces the stored one; id and creation time stay.
    pub open spec fn updated(self, current: Membership) -> Membership {
        Membership {
            community: match self.community { Some(c) => c, None => current.community },
            member: match self.member { Some(m) => m, None => current.member },
            ..current
        }
    }

    /// The (community, member) pair that the update writes over `current`.
    pub fn apply(&self, current: &Membership) -> (r: (u128, u128))
        ensures
            r.0 == self.updated(*current).community,
            r.1 == self.updated(*current).member,
            self.community matches Some(c) ==> r.0 == c,
            self.community is None ==> r.0 == current.community,
            self.member matches Some(m) ==> r.1 == m,
            self.member is None ==> r.1 == current.member,
    {
        let community = match self.community {
            Some(c) => c,
            None => current.community,
        };
        let member = match self.member {
            Some(m) => m,
            None => current.member,
        };
        (community, member)
    }
}

/// Each field given in an update replaces the stored one, whatever the
/// other field holds; a field left out keeps the stored value; the id
/// and the creation time never change.
pub proof fn lemma_membership_update_replaces_given_fields(
    request: UpdateMembership,
    current: Membership,
)
    ensures
        request.community matches Some(c) ==> request.updated(current).community == c,
        request.community is None ==> request.updated(current).community == current.community,
        request.member matches Some(m) ==> request.updated(current).member == m,
        request.member is None ==> request.updated(current).member == current.member,
        request.updated(current).id == current.id,
        request.updated(current).created == current.created,
{
}

/// Leaving every field out of an update keeps the row as it is, and
/// applying an update to the row it produced changes nothing more.
pub proof fn lemma_membership_update_laws(request: UpdateMembership, current: Membership)
    ensures
        (UpdateMembership { community: None, member: None }).updated(current) == current,
        request.updated(request.updated(current)) == request.updated(current),
{
}

/// The row for a new membership with this id and creation time.
pub fn build_membership(request: CreateMembership, id: u128, created: Timestamp) -> (m: Membership)
    ensures
        m == (Membership { id, community: request.community, member: request.member, created }),
{
    Membership { id, community: request.community, member: request.member, created }
}

/// Builds the row for a new membership: a fresh random id, the requested
/// community and member, and the current time. When the clock cannot be
/// read the answer is a database error that says so.
pub fn new_membership(request: CreateMembership) -> (r: Result<Membership, MembershipRepositoryError>)
    ensures
        match r {
            Ok(m) => {
                &&& m.community == request.community
                &&& m.member == request.member
                &&& is_drawn_id(m.id)
                &&& is_v4(m.id)
                &&& is_clock_reading(m.created)
                &&& m.created.secs >= 0
                &&& m.created.nanos < 1_000_000_000
            },
            Err(e) => e matches MembershipRepositoryError::Sqlx(d) && is_clock_error(d),
        },
{
    let id = fresh_id();
    match now() {
        Some(created) => Ok(build_membership(request, id, created)),
        None => Err(MembershipRepositoryError::Sqlx(clock_error())),
    }
}

/// The answer of `create`, given the row built for it and the outcome of
/// its `INSERT`.
pub fn inserted_membership(
    membership: Membership,
    outcome: Result<(), DbError>,
) -> (r: Result<Membership, MembershipRepositoryError>)
    ensures
        match outcome {
            Ok(()) => r == Ok::<Membership, MembershipRepositoryError>(membership),
            Err(e) => r == Err::<Membership, MembershipRepositoryError>(
                MembershipRepositoryError::Sqlx(e),
            ),
        },
{
    match outcome {
        Ok(()) => Ok(membership),
        Err(e) => Err(MembershipRepositoryError::Sqlx(e)),
    }
}

/// What a lookup by id answers, given what the `SELECT` by id returned:
/// the row, `NotFound` when there is none, the database error otherwise.
pub open spec fn fetch_outcome(
    fetched: Result<Option<Membership>, DbError>,
) -> Result<Membership, MembershipRepositoryError> {
    match fetched {
        Ok(Some(m)) => Ok(m),
        Ok(None) => Err(MembershipRepositoryError::NotFound),
        Err(e) => Err(MembershipRepositoryError::Sqlx(e)),
    }
}

/// A lookup answers a row that the `SELECT` found unchanged, answers
/// `NotFound` exactly when no row was found, and passes a database error
/// on.
pub proof fn lemma_membership_lookup(fetched: Result<Option<Membership>, DbError>)
    ensures
        fetched matches Ok(Some(m)) ==> fetch_outcome(fetched) == Ok::<
            Membership,
            MembershipRepositoryError,
        >(m),
        (fetch_outcome(fetched) == Err::<Membership, MembershipRepositoryError>(
            MembershipRepositoryError::NotFound,
        )) <==> (fetched == Ok::<Option<Membership>, DbError>(None)),
        fetched matches Err(e) ==> fetch_outcome(fetched) == Err::<
            Membership,
            MembershipRepositoryError,
        >(MembershipRepositoryError::Sqlx(e)),
        fetch_outcome(fetched) is Ok <==> fetched matches Ok(Some(_)),
{
}

/// The answer of `get_by_id`, given what the `SELECT` by id returned.
pub fn fetched_membership(
    fetched: Result<Option<Membership>, DbError>,
) -> (r: Result<Membership, MembershipRepositoryError>)
    ensures
        r == fetch_outcome(fetched),
        fetched matches Ok(Some(m)) ==> r == Ok::<Membership, MembershipRepositoryError>(m),
        fetched is Ok && fetched->Ok_0 is None ==> r == Err::<Membership, MembershipRepositoryError>(
            MembershipRepositoryError::NotFound,
        ),
        fetched matches Err(e) ==> r == Err::<Membership, MembershipRepositoryError>(
            MembershipRepositoryError::Sqlx(e),
        ),
{
    match fetched {
        Ok(Some(m)) => Ok(m),
        Ok(None) => Err(MembershipRepositoryError::NotFound),
        Err(e) => Err(MembershipRepositoryError::Sqlx(e)),
    }
}

/// The answer of `list` and `list_by_member`, given what the `SELECT`
/// returned (the rows come from the store newest first).
pub fn listed_memberships(
    fetched: Result<Vec<Membership>, DbError>,
) -> (r: Result<Vec<Membership>, MembershipRepositoryError>)
    ensures
        match fetched {
            Ok(rows) => r == Ok::<Vec<Membership>, MembershipRepositoryError>(rows),
            Err(e) => r == Err::<Vec<Membership>, MembershipRepositoryError>(
                MembershipRepositoryError::Sqlx(e),
            ),
        },
{
    match fetched {
        Ok(rows) => Ok(rows),
        Err(e) => Err(MembershipRepositoryError::Sqlx(e)),
    }
}

/// The answer of `delete`, given how many rows the `DELETE` removed:
/// none means there was no such membership.
pub fn membership_deletion(
    affected: Result<u64, DbError>,
) -> (r: Result<(), MembershipRepositoryError>)
    ensures
        match affected {
            Ok(n) => if n == 0 {
                r == Err::<(), MembershipRepositoryError>(MembershipRepositoryError::NotFound)
            } else {
                r == Ok::<(), MembershipRepositoryError>(())
            },
            Err(e) => r == Err::<(), MembershipRepositoryError>(
                MembershipRepositoryError::Sqlx(e),
            ),
        },
{
    match affected {
        Ok(n) => if n == 0 {
            Err(MembershipRepositoryError::NotFound)
        } else {
            Ok(())
        },
        Err(e) => Err(MembershipRepositoryError::Sqlx(e)),
    }
}

/// A statement that updating a membership runs.
#[derive(Debug, Clone, PartialEq, Eq)]
pub enum MembershipStatement {
    /// Read the membership with this id.
    SelectById(u128),
    /// Write these values over the membership with this id; the store
    /// answers how many rows changed.
    Update { id: u128, community: u128, member: u128 },
}

/// What updating a membership does next: run a statement, or answer.
#[derive(Debug, PartialEq, Eq)]
pub enum UpdateMembershipStep {
    Run(MembershipStatement),
    Finished(Result<Membership, MembershipRepositoryError>),
}

/// Where an update of a membership stands. It reads the row, writes the
/// merged values, and reads the row again to answer with what is stored.
#[derive(Debug, PartialEq, Eq)]
pub enum UpdateMembershipRun {
    /// The first read is out.
    Reading { id: u128, request: UpdateMembership },
    /// The write is out.
    Writing { id: u128 },
    /// The second read is out.
    Rereading,
    /// The answer was given.
    Done,
}

impl UpdateMembershipRun {
    /// Begins the update of membership `id`: the first step reads it.
    pub fn start(id: u128, request: UpdateMembership) -> (r: (Self, UpdateMembershipStep))
        ensures
            r.0 == (UpdateMembershipRun::Reading { id, request }),
            r.1 == UpdateMembershipStep::Run(MembershipStatement::SelectById(id)),
    {
        (
            UpdateMembershipRun::Reading { id, request },
            UpdateMembershipStep::Run(MembershipStatement::SelectById(id)),
        )
    }

    /// Whether the run waits for the answer of a read.
    pub fn awaits_read(&self) -> (b: bool)
        ensures
            b == (self is Reading || self is Rereading),
    {
        match self {
            UpdateMembershipRun::Reading { .. } => true,
            UpdateMembershipRun::Rereading => true,
            _ => false,
        }
    }

    /// Whether the run waits for the answer of the write.
    pub fn awaits_write(&self) -> (b: bool)
        ensures
            b == (self is Writing),
    {
        match self {
            UpdateMembershipRun::Writing { .. } => true,
            _ => false,
        }
    }

    /// Takes the answer of a read. After the first read a missing row or
    /// an error ends the update; a row found is merged with the request
    /// and written. After the second read the update answers with the
    /// stored row.
    pub fn on_read(self, fetched: Result<Option<Membership>, DbError>) -> (r: (
        Self,
        UpdateMembershipStep,
    ))
        requires
            self is Reading || self is Rereading,
        ensures
            match self {
                UpdateMembershipRun::Reading { id, request } => match fetched {
                    Ok(Some(m)) => {
                        &&& r.0 == (UpdateMembershipRun::Writing { id })
                        &&& r.1 == UpdateMembershipStep::Run(
                            MembershipStatement::Update {
                                id,
                                community: request.updated(m).community,
                                member: request.updated(m).member,
                            },
                        )
                    },
                    _ => {
                        &&& r.0 == UpdateMembershipRun::Done
                        &&& r.1 == UpdateMembershipStep::Finished(fetch_outcome(fetched))
                    },
                },
                _ => {
                    &&& r.0 == UpdateMembershipRun::Done
                    &&& r.1 == UpdateMembershipStep::Finished(fetch_outcome(fetched))
                },
            },
    {
        match self {
            UpdateMembershipRun::Reading { id, request } => match fetched {
                Ok(Some(m)) => {
                    let (community, member) = request.apply(&m);
                    (
                        UpdateMembershipRun::Writing { id },
                        UpdateMembershipStep::Run(
                            MembershipStatement::Update { id, community, member },
                        ),
                    )
                },
                _ => (
                    UpdateMembershipRun::Done,
                    UpdateMembershipStep::Finished(fetched_membership(fetched)),
                ),
            },
            _ => (
                UpdateMembershipRun::Done,
                UpdateMembershipStep::Finished(fetched_membership(fetched)),
            ),
        }
    }

    /// Takes the answer of the write: an error ends the update, and so
    /// does a write that changed no row (the membership is gone); else
    /// the row is read again.
    pub fn on_written(self, affected: Result<u64, DbError>) -> (r: (Self, UpdateMembershipStep))
        requires
            self is Writing,
        ensures
            match affected {
                Ok(n) => if n == 0 {
                    &&& r.0 == UpdateMembershipRun::Done
                    &&& r.1 == UpdateMembershipStep::Finished(
                        Err(MembershipRepositoryError::NotFound),
                    )
                } else {
                    &&& r.0 == UpdateMembershipRun::Rereading
                    &&& r.1 == UpdateMembershipStep::Run(
                        MembershipStatement::SelectById(self->Writing_id),
                    )
                },
                Err(e) => {
                    &&& r.0 == UpdateMembershipRun::Done
                    &&& r.1 == UpdateMembershipStep::Finished(
                        Err(MembershipRepositoryError::Sqlx(e)),
                    )
                },
            },
    {
        let id = match self {
            UpdateMembershipRun::Writing { id } => id,
            _ => vstd::pervasive::unreached(),
        };
        match affected {
            Ok(n) => if n == 0 {
                (
                    UpdateMembershipRun::Done,
                    UpdateMembershipStep::Finished(Err(MembershipRepositoryError::NotFound)),
                )
            } else {
                (
                    UpdateMembershipRun::Rereading,
                    UpdateMembershipStep::Run(MembershipStatement::SelectById(id)),
                )
            },
            Err(e) => (
                UpdateMembershipRun::Done,
                UpdateMembershipStep::Finished(Err(MembershipRepositoryError::Sqlx(e))),
            ),
        }
    }
}

} // verus!
