//! Communities: creating one together with its owner's membership,
//! reading, listing, renaming and deleting them.

use vstd::prelude::*;
use crate::membership::{CreateMembership, Membership, build_membership};
use crate::store::{
    DbError, Timestamp, clock_error, fresh_id, is_clock_error, is_clock_reading, is_drawn_id, is_v4,
    now,
};

verus! {

/// A stored community row.
#[derive(Debug, Clone, PartialEq, Eq)]
pub struct Community {
    pub id: u128,
    pub name: String,
    pub created: Timestamp,
}

/// What a client sends to create a community.
#[derive(Debug, Clone, PartialEq, Eq)]
pub struct CreateCommunity {
    pub name: String,
}

/// What a client sends to rename a community; `None` keeps the name.
#[derive(Debug, Clone, PartialEq, Eq)]
pub struct UpdateCommunity {
    pub name: Option<String>,
}

/// Why a community operation failed.
#[derive(Debug, Clone, PartialEq, Eq)]
pub enum CommunityRepositoryError {
    NotFound,
    Sqlx(DbError),
}

impl CommunityRepositoryError {
    /// Whether `m` is the text shown for the error: a fixed sentence for
    /// `NotFound`, the database's own text otherwise.
    pub open spec fn shows(self, m: String) -> bool {
        match self {
            CommunityRepositoryError::NotFound => m@ == "community not found"@,
            CommunityRepositoryError::Sqlx(e) => m == e.text(),
        }
    }

    /// The text shown for the error.
    pub fn message(&self) -> (m: String)
        ensures
            self.shows(m),
    {
        match self {
            CommunityRepositoryError::NotFound => "community not found".to_owned(),
            CommunityRepositoryError::Sqlx(e) => e.message(),
        }
    }
}

impl Community {
    /// A copy of the row.
    pub fn duplicate(&self) -> (c: Community)
        ensures
            c == *self,
    {
        Community { id: self.id, name: self.name.clone(), created: self.created }
    }
}

impl Default for UpdateCommunity {
    /// The update that changes nothing.
    fn default() -> (u: Self)
        ensures
            u.name is None,
    {
        UpdateCommunity { name: None }
    }
}

impl UpdateCommunity {
    /// The row that the update leaves where `current` stood: a name given
    /// replaces the stored one; id and creation time stay.
    pub open spec fn updated(self, current: Community) -> Community {
        Community {
            name: match self.name { Some(n) => n, None => current.name },
            ..current
        }
    }

    /// The name that the update writes over `current`.
    pub fn apply(self, current: Community) -> (name: String)
        ensures
            name == self.updated(current).name,
            self.name matches Some(n) ==> name == n,
            self.name is None ==> name == current.name,
    {
        match self.name {
            Some(n) => n,
            None => current.name,
        }
    }
}

/// A name given in an update is the name written, whatever it is; a name
/// left out keeps the stored one; the id and the creation time never
/// change.
pub proof fn lemma_community_update_writes_given_name(
    request: UpdateCommunity,
    current: Community,
)
    ensures
        request.name matches Some(n) ==> request.updated(current).name == n,
        request.name is None ==> request.updated(current).name == current.name,
        request.updated(current).id == current.id,
        request.updated(current).created == current.created,
{
}

/// Leaving the name out of an update keeps the row as it is, and
/// applying an update to the row it produced changes nothing more.
pub proof fn lemma_community_update_laws(request: UpdateCommunity, current: Community)
    ensures
        (UpdateCommunity { name: None }).updated(current) == current,
        request.updated(request.updated(current)) == request.updated(current),
{
}

/// The row for a new community with this id and creation time.
pub fn build_community(request: CreateCommunity, id: u128, created: Timestamp) -> (c: Community)
    ensures
        c == (Community { id, name: request.name, created }),
{
    Community { id, name: request.name, created }
}

/// What a lookup by id answers, given what the `SELECT` by id returned:
/// the row, `NotFound` when there is none, the database error otherwise.
pub open spec fn fetch_outcome(
    fetched: Result<Option<Community>, DbError>,
) -> Result<Community, CommunityRepositoryError> {
    match fetched {
        Ok(Some(c)) => Ok(c),
        Ok(None) => Err(CommunityRepositoryError::NotFound),
        Err(e) => Err(CommunityRepositoryError::Sqlx(e)),
    }
}

/// A lookup answers a row that the `SELECT` found unchanged, answers
/// `NotFound` exactly when no row was found, and passes a database error
/// on.
pub proof fn lemma_community_lookup(fetched: Result<Option<Community>, DbError>)
    ensures
        fetched matches Ok(Some(c)) ==> fetch_outcome(fetched) == Ok::<
            Community,
            CommunityRepositoryError,
        >(c),
        (fetch_outcome(fetched) == Err::<Community, CommunityRepositoryError>(
            CommunityRepositoryError::NotFound,
        )) <==> (fetched == Ok::<Option<Community>, DbError>(None)),
        fetched matches Err(e) ==> fetch_outcome(fetched) == Err::<
            Community,
            CommunityRepositoryError,
        >(CommunityRepositoryError::Sqlx(e)),
        fetch_outcome(fetched) is Ok <==> fetched matches Ok(Some(_)),
{
}

/// The answer of `get_by_id`, given what the `SELECT` by id returned.
pub fn fetched_community(
    fetched: Result<Option<Community>, DbError>,
) -> (r: Result<Community, CommunityRepositoryError>)
    ensures
        r == fetch_outcome(fetched),
        fetched matches Ok(Some(c)) ==> r == Ok::<Community, CommunityRepositoryError>(c),
        fetched is Ok && fetched->Ok_0 is None ==> r == Err::<Community, CommunityRepositoryError>(
            CommunityRepositoryError::NotFound,
        ),
        fetched matches Err(e) ==> r == Err::<Community, CommunityRepositoryError>(
            CommunityRepositoryError::Sqlx(e),
        ),
{
    match fetched {
        Ok(Some(c)) => Ok(c),
        Ok(None) => Err(CommunityRepositoryError::NotFound),
        Err(e) => Err(CommunityRepositoryError::Sqlx(e)),
    }
}

/// The answer of `list` and `list_by_member`, given what the `SELECT`
/// returned (the rows come from the store newest first).
pub fn listed_communities(
    fetched: Result<Vec<Community>, DbError>,
) -> (r: Result<Vec<Community>, CommunityRepositoryError>)
    ensures
        match fetched {
            Ok(rows) => r == Ok::<Vec<Community>, CommunityRepositoryError>(rows),
            Err(e) => r == Err::<Vec<Community>, CommunityRepositoryError>(
                CommunityRepositoryError::Sqlx(e),
            ),
        },
{
    match fetched {
        Ok(rows) => Ok(rows),
        Err(e) => Err(CommunityRepositoryError::Sqlx(e)),
    }
}

/// The answer of `delete`, given how many rows the `DELETE` removed:
/// none means there was no such community.
pub fn community_deletion(
    affected: Result<u64, DbError>,
) -> (r: Result<(), CommunityRepositoryError>)
    ensures
        match affected {
            Ok(n) => if n == 0 {
                r == Err::<(), CommunityRepositoryError>(CommunityRepositoryError::NotFound)
            } else {
                r == Ok::<(), CommunityRepositoryError>(())
            },
            Err(e) => r == Err::<(), CommunityRepositoryError>(
                CommunityRepositoryError::Sqlx(e),
            ),
        },
{
    match affected {
        Ok(n) => if n == 0 {
            Err(CommunityRepositoryError::NotFound)
        } else {
            Ok(())
        },
        Err(e) => Err(CommunityRepositoryError::Sqlx(e)),
    }
}

/// A statement of the transaction that creates a community.
#[derive(Debug, PartialEq, Eq)]
pub enum CreateCommunityStatement {
    /// Open the transaction.
    Begin,
    /// Insert this community row.
    InsertCommunity(Community),
    /// Insert this membership row.
    InsertMembership(Membership),
    /// Commit the transaction.
    Commit,
}

/// What creating a community does next: run a statement, or answer.
/// An answer that is an error leaves the transaction uncommitted, so the
/// store rolls it back.
#[derive(Debug, PartialEq, Eq)]
pub enum CreateCommunityStep {
    Run(CreateCommunityStatement),
    Finished(Result<Community, CommunityRepositoryError>),
}

/// Where the creation of a community stands. In one transaction it
/// inserts the community and a membership of its owner, then commits.
#[derive(Debug, PartialEq, Eq)]
pub enum CreateCommunityRun {
    /// The transaction is being opened.
    Beginning { request: CreateCommunity, owner: u128 },
    /// The community row is being inserted.
    InsertingCommunity { community: Community, owner: u128 },
    /// The owner's membership row is being inserted.
    InsertingMembership { community: Community, membership: Membership },
    /// The transaction is being committed.
    Committing { community: Community },
    /// The answer was given.
    Done,
}

impl CreateCommunityRun {
    /// The membership row pending in a run names the run's community.
    pub open spec fn wf(self) -> bool {
        match self {
            CreateCommunityRun::InsertingMembership { community, membership } => {
                membership.community == community.id
            },
            _ => true,
        }
    }

    /// Begins creating a community named as requested, owned by `owner`:
    /// the first step opens the transaction.
    pub fn start(request: CreateCommunity, owner: u128) -> (r: (Self, CreateCommunityStep))
        ensures
            r.0 == (CreateCommunityRun::Beginning { request, owner }),
            r.1 == CreateCommunityStep::Run(CreateCommunityStatement::Begin),
            r.0.wf(),
    {
        (
            CreateCommunityRun::Beginning { request, owner },
            CreateCommunityStep::Run(CreateCommunityStatement::Begin),
        )
    }

    /// Whether the run still waits for the outcome of a statement.
    pub fn is_running(&self) -> (b: bool)
        ensures
            b == !(self is Done),
    {
        match self {
            CreateCommunityRun::Done => false,
            _ => true,
        }
    }

    /// Whether `r` is the end of a creation whose new row could not be
    /// stamped because the clock could not be read.
    pub open spec fn ends_on_clock(r: (Self, CreateCommunityStep)) -> bool {
        &&& r.0 == CreateCommunityRun::Done
        &&& r.1 matches CreateCommunityStep::Finished(Err(CommunityRepositoryError::Sqlx(d)))
        &&& is_clock_error(d)
    }

    /// Takes the outcome of the statement last run, with the id and the
    /// creation time (`None` when the clock could not be read) that a row
    /// built at this step receives. Any error ends the creation with that
    /// error, before the commit. On success the run goes on: after the
    /// transaction opens it builds and inserts the community; after that
    /// insert it builds and inserts the owner's membership of that
    /// community; after that insert it commits; after the commit it
    /// answers with the community. A row that cannot be stamped ends the
    /// creation with the clock error, before the commit. The id and the
    /// time are used only where a row is built.
    pub fn advance_with(
        self,
        outcome: Result<(), DbError>,
        id: u128,
        created: Option<Timestamp>,
    ) -> (r: (Self, CreateCommunityStep))
        requires
            !(self is Done),
            self.wf(),
        ensures
            r.0.wf(),
            match outcome {
                Err(e) => {
                    &&& r.0 == CreateCommunityRun::Done
                    &&& r.1 == CreateCommunityStep::Finished(
                        Err(CommunityRepositoryError::Sqlx(e)),
                    )
                },
                Ok(()) => match self {
                    CreateCommunityRun::Beginning { request, owner } => match created {
                        None => Self::ends_on_clock(r),
                        Some(t) => {
                            &&& r.0 == (CreateCommunityRun::InsertingCommunity {
                                community: Community { id, name: request.name, created: t },
                                owner,
                            })
                            &&& r.1 == CreateCommunityStep::Run(
                                CreateCommunityStatement::InsertCommunity(
                                    Community { id, name: request.name, created: t },
                                ),
                            )
                        },
                    },
                    CreateCommunityRun::InsertingCommunity { community, owner } => match created {
                        None => Self::ends_on_clock(r),
                        Some(t) => {
                            &&& r.0 == (CreateCommunityRun::InsertingMembership {
                                community,
                                membership: Membership {
                                    id,
                                    community: community.id,
                                    member: owner,
                                    created: t,
                                },
                            })
                            &&& r.1 == CreateCommunityStep::Run(
                                CreateCommunityStatement::InsertMembership(
                                    Membership {
                                        id,
                                        community: community.id,
                                        member: owner,
                                        created: t,
                                    },
                                ),
                            )
                        },
                    },
                    CreateCommunityRun::InsertingMembership { community, membership } => {
                        &&& r.0 == (CreateCommunityRun::Committing { community })
                        &&& r.1 == CreateCommunityStep::Run(CreateCommunityStatement::Commit)
                    },
                    CreateCommunityRun::Committing { community } => {
                        &&& r.0 == CreateCommunityRun::Done
                        &&& r.1 == CreateCommunityStep::Finished(Ok(community))
                    },
                    CreateCommunityRun::Done => false,
                },
            },
    {
        match outcome {
            Err(e) => (
                CreateCommunityRun::Done,
                CreateCommunityStep::Finished(Err(CommunityRepositoryError::Sqlx(e))),
            ),
            Ok(()) => match self {
                CreateCommunityRun::Beginning { request, owner } => match created {
                    None => (
                        CreateCommunityRun::Done,
                        CreateCommunityStep::Finished(
                            Err(CommunityRepositoryError::Sqlx(clock_error())),
                        ),
                    ),
                    Some(t) => {
                        let community = build_community(request, id, t);
                        let row = community.duplicate();
                        (
                            CreateCommunityRun::InsertingCommunity { community, owner },
                            CreateCommunityStep::Run(CreateCommunityStatement::InsertCommunity(row)),
                        )
                    },
                },
                CreateCommunityRun::InsertingCommunity { community, owner } => match created {
                    None => (
                        CreateCommunityRun::Done,
                        CreateCommunityStep::Finished(
                            Err(CommunityRepositoryError::Sqlx(clock_error())),
                        ),
                    ),
                    Some(t) => {
                        let membership = build_membership(
                            CreateMembership { community: community.id, member: owner },
                            id,
                            t,
                        );
                        (
                            CreateCommunityRun::InsertingMembership { community, membership },
                            CreateCommunityStep::Run(
                                CreateCommunityStatement::InsertMembership(membership),
                            ),
                        )
                    },
                },
                CreateCommunityRun::InsertingMembership { community, membership } => (
                    CreateCommunityRun::Committing { community },
                    CreateCommunityStep::Run(CreateCommunityStatement::Commit),
                ),
                CreateCommunityRun::Committing { community } => (
                    CreateCommunityRun::Done,
                    CreateCommunityStep::Finished(Ok(community)),
                ),
                CreateCommunityRun::Done => vstd::pervasive::unreached(),
            },
        }
    }

    /// Takes the outcome of the statement last run, as `advance_with`
    /// does, drawing a fresh random id and reading the clock where a row
    /// is built: the community when the transaction has opened, the
    /// owner's membership when the community is inserted.
    pub fn advance(self, outcome: Result<(), DbError>) -> (r: (Self, CreateCommunityStep))
        requires
            !(self is Done),
            self.wf(),
        ensures
            r.0.wf(),
            match outcome {
                Err(e) => {
                    &&& r.0 == CreateCommunityRun::Done
                    &&& r.1 == CreateCommunityStep::Finished(
                        Err(CommunityRepositoryError::Sqlx(e)),
                    )
                },
                Ok(()) => match self {
                    CreateCommunityRun::Beginning { request, owner } => {
                        ||| Self::ends_on_clock(r)
                        ||| {
                            &&& r.0 is InsertingCommunity
                            &&& r.0->InsertingCommunity_owner == owner
                            &&& r.0->InsertingCommunity_community.name == request.name
                            &&& is_drawn_id(r.0->InsertingCommunity_community.id)
                            &&& is_v4(r.0->InsertingCommunity_community.id)
                            &&& is_clock_reading(r.0->InsertingCommunity_community.created)
                            &&& r.0->InsertingCommunity_community.created.secs >= 0
                            &&& r.0->InsertingCommunity_community.created.nanos < 1_000_000_000
                            &&& r.1 == CreateCommunityStep::Run(
                                CreateCommunityStatement::InsertCommunity(
                                    r.0->InsertingCommunity_community,
                                ),
                            )
                        }
                    },
                    CreateCommunityRun::InsertingCommunity { community, owner } => {
                        ||| Self::ends_on_clock(r)
                        ||| {
                            &&& r.0 is InsertingMembership
                            &&& r.0->InsertingMembership_community == community
                            &&& r.0->InsertingMembership_membership.community == community.id
                            &&& r.0->InsertingMembership_membership.member == owner
                            &&& is_drawn_id(r.0->InsertingMembership_membership.id)
                            &&& is_v4(r.0->InsertingMembership_membership.id)
                            &&& is_clock_reading(r.0->InsertingMembership_membership.created)
                            &&& r.0->InsertingMembership_membership.created.secs >= 0
                            &&& r.0->InsertingMembership_membership.created.nanos < 1_000_000_000
                            &&& r.1 == CreateCommunityStep::Run(
                                CreateCommunityStatement::InsertMembership(
                                    r.0->InsertingMembership_membership,
                                ),
                            )
                        }
                    },
                    CreateCommunityRun::InsertingMembership { community, membership } => {
                        &&& r.0 == (CreateCommunityRun::Committing { community })
                        &&& r.1 == CreateCommunityStep::Run(CreateCommunityStatement::Commit)
                    },
                    CreateCommunityRun::Committing { community } => {
                        &&& r.0 == CreateCommunityRun::Done
                        &&& r.1 == CreateCommunityStep::Finished(Ok(community))
                    },
                    CreateCommunityRun::Done => false,
                },
            },
    {
        let builds_row = match (&outcome, &self) {
            (Ok(()), CreateCommunityRun::Beginning { .. }) => true,
            (Ok(()), CreateCommunityRun::InsertingCommunity { .. }) => true,
            _ => false,
        };
        if builds_row {
            let id = fresh_id();
            let created = now();
            self.advance_with(outcome, id, created)
        } else {
            self.advance_with(outcome, 0, None)
        }
    }
}

/// A statement that renaming a community runs.
#[derive(Debug, Clone, PartialEq, Eq)]
pub enum CommunityStatement {
    /// Read the community with this id.
    SelectById(u128),
    /// Write this name over the community with this id; the store
    /// answers how many rows changed.
    UpdateName { id: u128, name: String },
}

/// What an update of a community does next: run a statement, or answer.
#[derive(Debug, PartialEq, Eq)]
pub enum UpdateCommunityStep {
    Run(CommunityStatement),
    Finished(Result<Community, CommunityRepositoryError>),
}

/// Where an update of a community stands. It reads the row, writes the
/// merged name, and reads the row again to answer with what is stored.
#[derive(Debug, PartialEq, Eq)]
pub enum UpdateCommunityRun {
    /// The first read is out.
    Reading { id: u128, request: UpdateCommunity },
    /// The write is out.
    Writing { id: u128 },
    /// The second read is out.
    Rereading,
    /// The answer was given.
    Done,
}

impl UpdateCommunityRun {
    /// Begins the update of community `id`: the first step reads it.
    pub fn start(id: u128, request: UpdateCommunity) -> (r: (Self, UpdateCommunityStep))
        ensures
            r.0 == (UpdateCommunityRun::Reading { id, request }),
            r.1 == UpdateCommunityStep::Run(CommunityStatement::SelectById(id)),
    {
        (
            UpdateCommunityRun::Reading { id, request },
            UpdateCommunityStep::Run(CommunityStatement::SelectById(id)),
        )
    }

    /// Whether the run waits for the answer of a read.
    pub fn awaits_read(&self) -> (b: bool)
        ensures
            b == (self is Reading || self is Rereading),
    {
        match self {
            UpdateCommunityRun::Reading { .. } => true,
            UpdateCommunityRun::Rereading => true,
            _ => false,
        }
    }

    /// Whether the run waits for the answer of the write.
    pub fn awaits_write(&self) -> (b: bool)
        ensures
            b == (self is Writing),
    {
        match self {
            UpdateCommunityRun::Writing { .. } => true,
            _ => false,
        }
    }

    /// Takes the answer of a read. After the first read a missing row or
    /// an error ends the update; a row found is merged with the request
    /// and its name written. After the second read the update answers
    /// with the stored row.
    pub fn on_read(self, fetched: Result<Option<Community>, DbError>) -> (r: (
        Self,
        UpdateCommunityStep,
    ))
        requires
            self is Reading || self is Rereading,
        ensures
            match self {
                UpdateCommunityRun::Reading { id, request } => match fetched {
                    Ok(Some(c)) => {
                        &&& r.0 == (UpdateCommunityRun::Writing { id })
                        &&& r.1 == UpdateCommunityStep::Run(
                            CommunityStatement::UpdateName { id, name: request.updated(c).name },
                        )
                    },
                    _ => {
                        &&& r.0 == UpdateCommunityRun::Done
                        &&& r.1 == UpdateCommunityStep::Finished(fetch_outcome(fetched))
                    },
                },
                _ => {
                    &&& r.0 == UpdateCommunityRun::Done
                    &&& r.1 == UpdateCommunityStep::Finished(fetch_outcome(fetched))
                },
            },
    {
        match self {
            UpdateCommunityRun::Reading { id, request } => match fetched {
                Ok(Some(c)) => {
                    let name = request.apply(c);
                    (
                        UpdateCommunityRun::Writing { id },
                        UpdateCommunityStep::Run(CommunityStatement::UpdateName { id, name }),
                    )
                },
                _ => (
                    UpdateCommunityRun::Done,
                    UpdateCommunityStep::Finished(fetched_community(fetched)),
                ),
            },
            _ => (
                UpdateCommunityRun::Done,
                UpdateCommunityStep::Finished(fetched_community(fetched)),
            ),
        }
    }

    /// Takes the answer of the write: an error ends the update, and so
    /// does a write that changed no row (the community is gone); else
    /// the row is read again.
    pub fn on_written(self, affected: Result<u64, DbError>) -> (r: (Self, UpdateCommunityStep))
        requires
            self is Writing,
        ensures
            match affected {
                Ok(n) => if n == 0 {
                    &&& r.0 == UpdateCommunityRun::Done
                    &&& r.1 == UpdateCommunityStep::Finished(
                        Err(CommunityRepositoryError::NotFound),
                    )
                } else {
                    &&& r.0 == UpdateCommunityRun::Rereading
                    &&& r.1 == UpdateCommunityStep::Run(
                        CommunityStatement::SelectById(self->Writing_id),
                    )
                },
                Err(e) => {
                    &&& r.0 == UpdateCommunityRun::Done
                    &&& r.1 == UpdateCommunityStep::Finished(
                        Err(CommunityRepositoryError::Sqlx(e)),
                    )
                },
            },
    {
        let id = match self {
            UpdateCommunityRun::Writing { id } => id,
            _ => vstd::pervasive::unreached(),
        };
        match affected {
            Ok(n) => if n == 0 {
                (
                    UpdateCommunityRun::Done,
                    UpdateCommunityStep::Finished(Err(CommunityRepositoryError::NotFound)),
                )
            } else {
                (
                    UpdateCommunityRun::Rereading,
                    UpdateCommunityStep::Run(CommunityStatement::SelectById(id)),
                )
            },
            Err(e) => (
                UpdateCommunityRun::Done,
                UpdateCommunityStep::Finished(Err(CommunityRepositoryError::Sqlx(e))),
            ),
        }
    }
}

} // verus!
