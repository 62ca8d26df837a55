//! The decisions of the HTTP handlers: who may see or change a
//! community or a membership, and how each repository answer becomes a
//! response. Serving requests and encoding bodies happen outside.

use vstd::prelude::*;
use crate::community::{Community, CommunityRepositoryError, CreateCommunityRun, UpdateCommunity};
use crate::membership::{Membership, MembershipRepositoryError, UpdateMembership};

verus! {

/// The HTTP status of a response.
#[derive(Debug, Clone, Copy, PartialEq, Eq)]
pub enum Status {
    Success,
    Created,
    NoContent,
    Forbidden,
    NotFound,
    InternalServerError,
}

impl Status {
    /// The numeric status code.
    pub open spec fn spec_code(self) -> u16 {
        match self {
            Status::Success => 200,
            Status::Created => 201,
            Status::NoContent => 204,
            Status::Forbidden => 403,
            Status::NotFound => 404,
            Status::InternalServerError => 500,
        }
    }

    /// Computes `spec_code`.
    pub fn code(&self) -> (c: u16)
        ensures
            c == self.spec_code(),
    {
        match self {
            Status::Success => 200,
            Status::Created => 201,
            Status::NoContent => 204,
            Status::Forbidden => 403,
            Status::NotFound => 404,
            Status::InternalServerError => 500,
        }
    }
}

/// An error response: its status and the text sent as the body's
/// `error` field.
#[derive(Debug, Clone, PartialEq, Eq)]
pub struct ErrorReply {
    pub status: Status,
    pub message: String,
}

/// A response: `Body` (200) and `Created` (201) carry a body, `NoContent`
/// (204) none, `Error` an error body.
#[derive(Debug, PartialEq, Eq)]
pub enum Reply<T> {
    Body(T),
    Created(T),
    NoContent,
    Error(ErrorReply),
}

impl<T> Reply<T> {
    /// The status of the response.
    pub open spec fn spec_status(&self) -> Status {
        match self {
            Reply::Body(_) => Status::Success,
            Reply::Created(_) => Status::Created,
            Reply::NoContent => Status::NoContent,
            Reply::Error(e) => e.status,
        }
    }

    /// Computes `spec_status`.
    pub fn status(&self) -> (s: Status)
        ensures
            s == self.spec_status(),
    {
        match self {
            Reply::Body(_) => Status::Success,
            Reply::Created(_) => Status::Created,
            Reply::NoContent => Status::NoContent,
            Reply::Error(e) => e.status,
        }
    }
}

/// The refusal sent to a user who may not touch what they asked for.
pub open spec fn is_forbidden(e: ErrorReply) -> bool {
    e.status == Status::Forbidden && e.message@ == "Forbidden"@
}

/// The answer to a request for a community that does not exist.
pub open spec fn is_community_not_found(e: ErrorReply) -> bool {
    e.status == Status::NotFound && e.message@ == "Community not found"@
}

/// The answer to a request for a membership that does not exist.
pub open spec fn is_membership_not_found(e: ErrorReply) -> bool {
    e.status == Status::NotFound && e.message@ == "Membership not found"@
}

/// An internal error whose body is the failure's own text.
pub open spec fn is_internal(e: ErrorReply, text: String) -> bool {
    e.status == Status::InternalServerError && e.message == text
}

fn forbidden() -> (e: ErrorReply)
    ensures
        is_forbidden(e),
{
    ErrorReply { status: Status::Forbidden, message: "Forbidden".to_owned() }
}

fn internal(message: String) -> (e: ErrorReply)
    ensures
        is_internal(e, message),
{
    ErrorReply { status: Status::InternalServerError, message }
}

/// Whether one of `memberships` is a membership of `community`.
pub open spec fn lists_community(memberships: Seq<Membership>, community: u128) -> bool {
    exists|i: int| 0 <= i < memberships.len() && (#[trigger] memberships[i]).community == community
}

/// The creator of a community passes the membership check on it: once
/// the owner's membership that the creation inserts is among the
/// memberships listed for the owner, they name the new community.
pub proof fn lemma_creator_passes_membership_check(
    run: CreateCommunityRun,
    memberships: Seq<Membership>,
)
    requires
        run is InsertingMembership,
        run.wf(),
        memberships.contains(run->InsertingMembership_membership),
    ensures
        lists_community(memberships, run->InsertingMembership_community.id),
{
    let i = choose|i: int|
        0 <= i < memberships.len() && memberships[i] == run->InsertingMembership_membership;
    assert(memberships[i].community == run->InsertingMembership_community.id);
}

/// Computes `lists_community`.
pub fn is_member_of(memberships: &Vec<Membership>, community: u128) -> (b: bool)
    ensures
        b == lists_community(memberships@, community),
{
    let mut i: usize = 0;
    while i < memberships.len()
        invariant
            i <= memberships.len(),
            forall|j: int| 0 <= j < i ==> (#[trigger] memberships@[j]).community != community,
        decreases memberships.len() - i,
    {
        if memberships[i].community == community {
            assert(memberships@[i as int].community == community);
            return true;
        }
        i = i + 1;
    }
    false
}

/// Checks, from the memberships of the requesting user, that the user
/// belongs to `community`. A failed lookup is answered with an internal
/// error carrying its text; a user without a membership of the community
/// is answered `Forbidden`.
pub fn assert_member_of(
    memberships: Result<Vec<Membership>, MembershipRepositoryError>,
    community: u128,
) -> (r: Result<(), ErrorReply>)
    ensures
        match memberships {
            Err(e) => r matches Err(reply) && e.shows(reply.message)
                && reply.status == Status::InternalServerError,
            Ok(list) => if lists_community(list@, community) {
                r is Ok
            } else {
                r matches Err(reply) && is_forbidden(reply)
            },
        },
{
    match memberships {
        Err(e) => Err(internal(e.message())),
        Ok(list) => if is_member_of(&list, community) {
            Ok(())
        } else {
            Err(forbidden())
        },
    }
}

/// The response to creating a community.
pub fn created_community_reply(created: Result<Community, CommunityRepositoryError>) -> (r: Reply<
    Community,
>)
    ensures
        match created {
            Ok(c) => r == Reply::Created(c),
            Err(e) => r matches Reply::Error(reply) && e.shows(reply.message)
                && reply.status == Status::InternalServerError,
        },
{
    match created {
        Ok(c) => Reply::Created(c),
        Err(e) => Reply::Error(internal(e.message())),
    }
}

/// The response to listing the communities of the requesting user.
pub fn community_list_reply(listed: Result<Vec<Community>, CommunityRepositoryError>) -> (r: Reply<
    Vec<Community>,
>)
    ensures
        match listed {
            Ok(v) => r == Reply::Body(v),
            Err(e) => r matches Reply::Error(reply) && e.shows(reply.message)
                && reply.status == Status::InternalServerError,
        },
{
    match listed {
        Ok(v) => Reply::Body(v),
        Err(e) => Reply::Error(internal(e.message())),
    }
}

/// The response to creating a membership.
pub fn created_membership_reply(
    created: Result<Membership, MembershipRepositoryError>,
) -> (r: Reply<Membership>)
    ensures
        match created {
            Ok(m) => r == Reply::Created(m),
            Err(e) => r matches Reply::Error(reply) && e.shows(reply.message)
                && reply.status == Status::InternalServerError,
        },
{
    match created {
        Ok(m) => Reply::Created(m),
        Err(e) => Reply::Error(internal(e.message())),
    }
}

/// The response to listing the memberships of the requesting user.
pub fn membership_list_reply(
    listed: Result<Vec<Membership>, MembershipRepositoryError>,
) -> (r: Reply<Vec<Membership>>)
    ensures
        match listed {
            Ok(v) => r == Reply::Body(v),
            Err(e) => r matches Reply::Error(reply) && e.shows(reply.message)
                && reply.status == Status::InternalServerError,
        },
{
    match listed {
        Ok(v) => Reply::Body(v),
        Err(e) => Reply::Error(internal(e.message())),
    }
}

/// What a user asks of one community.
#[derive(Debug, PartialEq, Eq)]
pub enum CommunityRequest {
    Get,
    Update(UpdateCommunity),
    Delete,
}

/// A repository call that a community request makes.
#[derive(Debug, PartialEq, Eq)]
pub enum CommunityCall {
    /// `MembershipRepository::list_by_member` for this user.
    ListMemberships(u128),
    /// `CommunityRepository::get_by_id`.
    Get(u128),
    /// `CommunityRepository::update`.
    Update(u128, UpdateCommunity),
    /// `CommunityRepository::delete`.
    Delete(u128),
}

/// What a community request does next: make a call, or respond.
#[derive(Debug, PartialEq, Eq)]
pub enum CommunityHandlerStep {
    Call(CommunityCall),
    Respond(Reply<Community>),
}

/// Where a request on one community stands. Only a member of the
/// community may read, rename or delete it, so the request first lists
/// the user's memberships.
#[derive(Debug, PartialEq, Eq)]
pub enum CommunityHandler {
    /// The user's memberships are being listed.
    CheckingMembership { user: u128, community: u128, request: CommunityRequest },
    /// A read or an update of the community is out.
    AwaitingCommunity,
    /// A deletion of the community is out.
    AwaitingDeletion,
    /// The response was given.
    Answered,
}

/// Whether `r` is the response to `result`, the outcome of a read or an
/// update of a community: the community, or `Community not found`, or
/// an internal error with the database's text.
pub open spec fn answers_community(
    result: Result<Community, CommunityRepositoryError>,
    r: Reply<Community>,
) -> bool {
    match result {
        Ok(c) => r == Reply::Body(c),
        Err(CommunityRepositoryError::NotFound) => r matches Reply::Error(reply)
            && is_community_not_found(reply),
        Err(CommunityRepositoryError::Sqlx(e)) => r matches Reply::Error(reply)
            && is_internal(reply, e.text()),
    }
}

/// Whether `r` is the response to `result`, the outcome of a deletion of
/// a community: no content, or `Community not found`, or an internal
/// error with the database's text.
pub open spec fn answers_community_deletion(
    result: Result<(), CommunityRepositoryError>,
    r: Reply<Community>,
) -> bool {
    match result {
        Ok(()) => r == Reply::<Community>::NoContent,
        Err(CommunityRepositoryError::NotFound) => r matches Reply::Error(reply)
            && is_community_not_found(reply),
        Err(CommunityRepositoryError::Sqlx(e)) => r matches Reply::Error(reply)
            && is_internal(reply, e.text()),
    }
}

/// The response to a read or an update of a community.
pub fn community_reply(result: Result<Community, CommunityRepositoryError>) -> (r: Reply<
    Community,
>)
    ensures
        answers_community(result, r),
{
    match result {
        Ok(c) => Reply::Body(c),
        Err(CommunityRepositoryError::NotFound) => Reply::Error(
            ErrorReply { status: Status::NotFound, message: "Community not found".to_owned() },
        ),
        Err(CommunityRepositoryError::Sqlx(e)) => Reply::Error(internal(e.message())),
    }
}

/// The response to a deletion of a community.
pub fn community_deletion_reply(result: Result<(), CommunityRepositoryError>) -> (r: Reply<
    Community,
>)
    ensures
        answers_community_deletion(result, r),
{
    match result {
        Ok(()) => Reply::NoContent,
        Err(CommunityRepositoryError::NotFound) => Reply::Error(
            ErrorReply { status: Status::NotFound, message: "Community not found".to_owned() },
        ),
        Err(CommunityRepositoryError::Sqlx(e)) => Reply::Error(internal(e.message())),
    }
}

impl CommunityHandler {
    /// Begins `request` on `community` for `user`: the first call lists
    /// the user's memberships.
    pub fn start(user: u128, community: u128, request: CommunityRequest) -> (r: (
        Self,
        CommunityCall,
    ))
        ensures
            r.0 == (CommunityHandler::CheckingMembership { user, community, request }),
            r.1 == CommunityCall::ListMemberships(user),
    {
        (
            CommunityHandler::CheckingMembership { user, community, request },
            CommunityCall::ListMemberships(user),
        )
    }

    /// Whether the handler waits for the user's memberships.
    pub fn awaits_memberships(&self) -> (b: bool)
        ensures
            b == (self is CheckingMembership),
    {
        match self {
            CommunityHandler::CheckingMembership { .. } => true,
            _ => false,
        }
    }

    /// Whether the handler waits for a read or an update of the community.
    pub fn awaits_community(&self) -> (b: bool)
        ensures
            b == (self is AwaitingCommunity),
    {
        match self {
            CommunityHandler::AwaitingCommunity => true,
            _ => false,
        }
    }

    /// Whether the handler waits for a deletion of the community.
    pub fn awaits_deletion(&self) -> (b: bool)
        ensures
            b == (self is AwaitingDeletion),
    {
        match self {
            CommunityHandler::AwaitingDeletion => true,
            _ => false,
        }
    }

    /// Takes the user's memberships. A failed lookup is answered with an
    /// internal error and a user who is no member of the community with
    /// `Forbidden`: then the community repository is never called. A
    /// member's request goes on to the community repository, on the
    /// community named in the request.
    pub fn on_memberships(
        self,
        memberships: Result<Vec<Membership>, MembershipRepositoryError>,
    ) -> (r: (Self, CommunityHandlerStep))
        requires
            self is CheckingMembership,
        ensures
            match memberships {
                Err(e) => {
                    &&& r.0 == CommunityHandler::Answered
                    &&& r.1 matches CommunityHandlerStep::Respond(Reply::Error(reply))
                    &&& e.shows(reply.message)
                    &&& reply.status == Status::InternalServerError
                },
                Ok(list) => if !lists_community(list@, self->community) {
                    &&& r.0 == CommunityHandler::Answered
                    &&& r.1 matches CommunityHandlerStep::Respond(Reply::Error(reply))
                    &&& is_forbidden(reply)
                } else {
                    match self->request {
                        CommunityRequest::Get => {
                            &&& r.0 == CommunityHandler::AwaitingCommunity
                            &&& r.1 == CommunityHandlerStep::Call(
                                CommunityCall::Get(self->community),
                            )
                        },
                        CommunityRequest::Update(u) => {
                            &&& r.0 == CommunityHandler::AwaitingCommunity
                            &&& r.1 == CommunityHandlerStep::Call(
                                CommunityCall::Update(self->community, u),
                            )
                        },
                        CommunityRequest::Delete => {
                            &&& r.0 == CommunityHandler::AwaitingDeletion
                            &&& r.1 == CommunityHandlerStep::Call(
                                CommunityCall::Delete(self->community),
                            )
                        },
                    }
                },
            },
    {
        match self {
            CommunityHandler::CheckingMembership { user, community, request } => {
                match assert_member_of(memberships, community) {
                    Err(reply) => (CommunityHandler::Answered, CommunityHandlerStep::Respond(Reply::Error(reply))),
                    Ok(()) => match request {
                        CommunityRequest::Get => (
                            CommunityHandler::AwaitingCommunity,
                            CommunityHandlerStep::Call(CommunityCall::Get(community)),
                        ),
                        CommunityRequest::Update(u) => (
                            CommunityHandler::AwaitingCommunity,
                            CommunityHandlerStep::Call(CommunityCall::Update(community, u)),
                        ),
                        CommunityRequest::Delete => (
                            CommunityHandler::AwaitingDeletion,
                            CommunityHandlerStep::Call(CommunityCall::Delete(community)),
                        ),
                    },
                }
            },
            _ => vstd::pervasive::unreached(),
        }
    }

    /// Takes the outcome of the read or the update of the community and
    /// answers it.
    pub fn on_community(self, result: Result<Community, CommunityRepositoryError>) -> (r: Reply<
        Community,
    >)
        requires
            self is AwaitingCommunity,
        ensures
            answers_community(result, r),
    {
        community_reply(result)
    }

    /// Takes the outcome of the deletion of the community and answers it.
    pub fn on_deleted(self, result: Result<(), CommunityRepositoryError>) -> (r: Reply<Community>)
        requires
            self is AwaitingDeletion,
        ensures
            answers_community_deletion(result, r),
    {
        community_deletion_reply(result)
    }
}

/// What a user asks of one membership.
#[derive(Debug, PartialEq, Eq)]
pub enum MembershipRequest {
    Get,
    Update(UpdateMembership),
    Delete,
}

/// A repository call that a membership request makes.
#[derive(Debug, PartialEq, Eq)]
pub enum MembershipCall {
    /// `MembershipRepository::get_by_id`.
    Get(u128),
    /// `MembershipRepository::update`.
    Update(u128, UpdateMembership),
    /// `MembershipRepository::delete`.
    Delete(u128),
}

/// What a membership request does next: make a call, or respond.
#[derive(Debug, PartialEq, Eq)]
pub enum MembershipHandlerStep {
    Call(MembershipCall),
    Respond(Reply<Membership>),
}

/// Where a request on one membership stands. Only the member a
/// membership belongs to may read, change or delete it, so the request
/// first reads the membership.
#[derive(Debug, PartialEq, Eq)]
pub enum MembershipHandler {
    /// The membership is being read.
    Fetching { user: u128, id: u128, request: MembershipRequest },
    /// An update of the membership is out.
    AwaitingUpdate,
    /// A deletion of the membership is out.
    AwaitingDeletion,
    /// The response was given.
    Answered,
}

/// Whether `r` answers a failed repository call on a membership:
/// `Membership not found`, or an internal error with the database's text.
pub open spec fn answers_membership_error(e: MembershipRepositoryError, r: Reply<Membership>) -> bool {
    match e {
        MembershipRepositoryError::NotFound => r matches Reply::Error(reply)
            && is_membership_not_found(reply),
        MembershipRepositoryError::Sqlx(d) => r matches Reply::Error(reply)
            && is_internal(reply, d.text()),
    }
}

fn membership_error_reply(e: MembershipRepositoryError) -> (r: Reply<Membership>)
    ensures
        answers_membership_error(e, r),
{
    match e {
        MembershipRepositoryError::NotFound => Reply::Error(
            ErrorReply { status: Status::NotFound, message: "Membership not found".to_owned() },
        ),
        MembershipRepositoryError::Sqlx(d) => Reply::Error(internal(d.message())),
    }
}

impl MembershipHandler {
    /// Begins `request` on membership `id` for `user`: the first call
    /// reads the membership.
    pub fn start(user: u128, id: u128, request: MembershipRequest) -> (r: (Self, MembershipCall))
        ensures
            r.0 == (MembershipHandler::Fetching { user, id, request }),
            r.1 == MembershipCall::Get(id),
    {
        (MembershipHandler::Fetching { user, id, request }, MembershipCall::Get(id))
    }

    /// Whether the handler waits for the membership it reads first.
    pub fn awaits_membership(&self) -> (b: bool)
        ensures
            b == (self is Fetching),
    {
        match self {
            MembershipHandler::Fetching { .. } => true,
            _ => false,
        }
    }

    /// Whether the handler waits for an update of the membership.
    pub fn awaits_update(&self) -> (b: bool)
        ensures
            b == (self is AwaitingUpdate),
    {
        match self {
            MembershipHandler::AwaitingUpdate => true,
            _ => false,
        }
    }

    /// Whether the handler waits for a deletion of the membership.
    pub fn awaits_deletion(&self) -> (b: bool)
        ensures
            b == (self is AwaitingDeletion),
    {
        match self {
            MembershipHandler::AwaitingDeletion => true,
            _ => false,
        }
    }

    /// Takes the membership read first. A failed read is answered at
    /// once, and a membership of another member with `Forbidden`: then
    /// nothing is changed. The owner's read is answered with the
    /// membership; the owner's update or deletion goes on to the
    /// repository, on the membership named in the request.
    pub fn on_fetched(self, fetched: Result<Membership, MembershipRepositoryError>) -> (r: (
        Self,
        MembershipHandlerStep,
    ))
        requires
            self is Fetching,
        ensures
            match fetched {
                Err(e) => {
                    &&& r.0 == MembershipHandler::Answered
                    &&& r.1 matches MembershipHandlerStep::Respond(reply)
                    &&& answers_membership_error(e, reply)
                },
                Ok(m) => if m.member != self->user {
                    &&& r.0 == MembershipHandler::Answered
                    &&& r.1 matches MembershipHandlerStep::Respond(Reply::Error(reply))
                    &&& is_forbidden(reply)
                } else {
                    match self->request {
                        MembershipRequest::Get => {
                            &&& r.0 == MembershipHandler::Answered
                            &&& r.1 == MembershipHandlerStep::Respond(Reply::Body(m))
                        },
                        MembershipRequest::Update(u) => {
                            &&& r.0 == MembershipHandler::AwaitingUpdate
                            &&& r.1 == MembershipHandlerStep::Call(
                                MembershipCall::Update(self->id, u),
                            )
                        },
                        MembershipRequest::Delete => {
                            &&& r.0 == MembershipHandler::AwaitingDeletion
                            &&& r.1 == MembershipHandlerStep::Call(
                                MembershipCall::Delete(self->id),
                            )
                        },
                    }
                },
            },
    {
        match self {
            MembershipHandler::Fetching { user, id, request } => match fetched {
                Err(e) => (MembershipHandler::Answered, MembershipHandlerStep::Respond(
                    membership_error_reply(e),
                )),
                Ok(m) => if m.member != user {
                    (
                        MembershipHandler::Answered,
                        MembershipHandlerStep::Respond(Reply::Error(forbidden())),
                    )
                } else {
                    match request {
                        MembershipRequest::Get => (
                            MembershipHandler::Answered,
                            MembershipHandlerStep::Respond(Reply::Body(m)),
                        ),
                        MembershipRequest::Update(u) => (
                            MembershipHandler::AwaitingUpdate,
                            MembershipHandlerStep::Call(MembershipCall::Update(id, u)),
                        ),
                        MembershipRequest::Delete => (
                            MembershipHandler::AwaitingDeletion,
                            MembershipHandlerStep::Call(MembershipCall::Delete(id)),
                        ),
                    }
                },
            },
            _ => vstd::pervasive::unreached(),
        }
    }

    /// Takes the outcome of the update and answers it: the stored
    /// membership, or the error.
    pub fn on_updated(self, result: Result<Membership, MembershipRepositoryError>) -> (r: Reply<
        Membership,
    >)
        requires
            self is AwaitingUpdate,
        ensures
            match result {
                Ok(m) => r == Reply::Body(m),
                Err(e) => answers_membership_error(e, r),
            },
    {
        match result {
            Ok(m) => Reply::Body(m),
            Err(e) => membership_error_reply(e),
        }
    }

    /// Takes the outcome of the deletion and answers it: no content, or
    /// the error.
    pub fn on_deleted(self, result: Result<(), MembershipRepositoryError>) -> (r: Reply<
        Membership,
    >)
        requires
            self is AwaitingDeletion,
        ensures
            match result {
                Ok(()) => r == Reply::<Membership>::NoContent,
                Err(e) => answers_membership_error(e, r),
            },
    {
        match result {
            Ok(()) => Reply::NoContent,
            Err(e) => membership_error_reply(e),
        }
    }
}

/// A repository call that a listing request makes.
#[derive(Debug, PartialEq, Eq)]
pub enum ListingCall {
    /// `CommunityRepository::list_by_member` for this user.
    CommunitiesOf(u128),
    /// `MembershipRepository::list_by_member` for this user.
    MembershipsOf(u128),
}

/// A request for the communities of the requesting user: it lists the
/// communities of that user and of no one else.
#[derive(Debug, PartialEq, Eq)]
pub struct CommunityListing {
    pub user: u128,
}

impl CommunityListing {
    /// Begins the listing for `user`: the one call lists that user's
    /// communities.
    pub fn start(user: u128) -> (r: (Self, ListingCall))
        ensures
            r.0 == (CommunityListing { user }),
            r.1 == ListingCall::CommunitiesOf(user),
    {
        (CommunityListing { user }, ListingCall::CommunitiesOf(user))
    }

    /// Takes the listed communities and answers them, or the error.
    pub fn on_listed(self, listed: Result<Vec<Community>, CommunityRepositoryError>) -> (r: Reply<
        Vec<Community>,
    >)
        ensures
            match listed {
                Ok(v) => r == Reply::Body(v),
                Err(e) => r matches Reply::Error(reply) && e.shows(reply.message)
                    && reply.status == Status::InternalServerError,
            },
    {
        community_list_reply(listed)
    }
}

/// A request for the memberships of the requesting user: it lists the
/// memberships of that user and of no one else.
#[derive(Debug, PartialEq, Eq)]
pub struct MembershipListing {
    pub user: u128,
}

impl MembershipListing {
    /// Begins the listing for `user`: the one call lists that user's
    /// memberships.
    pub fn start(user: u128) -> (r: (Self, ListingCall))
        ensures
            r.0 == (MembershipListing { user }),
            r.1 == ListingCall::MembershipsOf(user),
    {
        (MembershipListing { user }, ListingCall::MembershipsOf(user))
    }

    /// Takes the listed memberships and answers them, or the error.
    pub fn on_listed(
        self,
        listed: Result<Vec<Membership>, MembershipRepositoryError>,
    ) -> (r: Reply<Vec<Membership>>)
        ensures
            match listed {
                Ok(v) => r == Reply::Body(v),
                Err(e) => r matches Reply::Error(reply) && e.shows(reply.message)
                    && reply.status == Status::InternalServerError,
            },
    {
        membership_list_reply(listed)
    }
}

} // verus!
