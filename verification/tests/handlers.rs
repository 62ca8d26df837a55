use communities::community::{
    Community, CommunityRepositoryError, CreateCommunity, CreateCommunityRun,
    CreateCommunityStatement, CreateCommunityStep, UpdateCommunity,
};
use communities::handlers::{
    CommunityCall, CommunityHandler, CommunityHandlerStep, CommunityListing, CommunityRequest,
    ErrorReply, ListingCall, MembershipListing, MembershipCall, MembershipHandler, MembershipHandlerStep, MembershipRequest, Reply, Status,
    assert_member_of, community_deletion_reply, community_list_reply, community_reply,
    created_community_reply, created_membership_reply, is_member_of, membership_list_reply,
};
use communities::membership::{Membership, MembershipRepositoryError, UpdateMembership};
use communities::store::{DbError, Timestamp};

const USER: u128 = 0x1111;
const OTHER: u128 = 0x2222;

fn at(secs: i64) -> Timestamp {
    Timestamp { secs, nanos: 0 }
}

fn membership(id: u128, community: u128, member: u128) -> Membership {
    Membership { id, community, member, created: at(50) }
}

fn community(id: u128) -> Community {
    Community { id, name: "c".to_string(), created: at(50) }
}

fn error(status: Status, message: &str) -> ErrorReply {
    ErrorReply { status, message: message.to_string() }
}

#[test]
fn status_codes() {
    assert_eq!(Status::Success.code(), 200);
    assert_eq!(Status::Created.code(), 201);
    assert_eq!(Status::NoContent.code(), 204);
    assert_eq!(Status::Forbidden.code(), 403);
    assert_eq!(Status::NotFound.code(), 404);
    assert_eq!(Status::InternalServerError.code(), 500);
    assert_eq!(Reply::<Community>::NoContent.status(), Status::NoContent);
    assert_eq!(Reply::Created(community(1)).status(), Status::Created);
    assert_eq!(Reply::<Community>::Error(error(Status::Forbidden, "Forbidden")).status(), Status::Forbidden);
}

#[test]
fn membership_check() {
    let list = vec![membership(1, 5, USER), membership(2, 6, USER), membership(3, 7, USER)];
    assert!(is_member_of(&list, 6));
    assert!(is_member_of(&list, 7));
    assert!(!is_member_of(&list, 8));
    assert!(!is_member_of(&vec![], 5));
    assert_eq!(assert_member_of(Ok(list.clone()), 7), Ok(()));
    assert_eq!(assert_member_of(Ok(list), 8), Err(error(Status::Forbidden, "Forbidden")));
    let e = MembershipRepositoryError::Sqlx(DbError::Other("pool closed".to_string()));
    assert_eq!(assert_member_of(Err(e), 7), Err(error(Status::InternalServerError, "pool closed")));
}

#[test]
fn member_reads_updates_and_deletes_a_community() {
    let mine = vec![membership(1, 5, USER)];
    let (h, call) = CommunityHandler::start(USER, 5, CommunityRequest::Get);
    assert_eq!(call, CommunityCall::ListMemberships(USER));
    assert!(h.awaits_memberships());
    let (h, step) = h.on_memberships(Ok(mine.clone()));
    assert_eq!(step, CommunityHandlerStep::Call(CommunityCall::Get(5)));
    assert!(h.awaits_community());
    assert_eq!(h.on_community(Ok(community(5))), Reply::Body(community(5)));

    let rename = UpdateCommunity { name: Some("n".to_string()) };
    let (h, _) = CommunityHandler::start(USER, 5, CommunityRequest::Update(rename.clone()));
    let (h, step) = h.on_memberships(Ok(mine.clone()));
    assert_eq!(step, CommunityHandlerStep::Call(CommunityCall::Update(5, rename)));
    assert_eq!(
        h.on_community(Err(CommunityRepositoryError::NotFound)),
        Reply::Error(error(Status::NotFound, "Community not found"))
    );

    let (h, _) = CommunityHandler::start(USER, 5, CommunityRequest::Delete);
    let (h, step) = h.on_memberships(Ok(mine));
    assert_eq!(step, CommunityHandlerStep::Call(CommunityCall::Delete(5)));
    assert!(h.awaits_deletion());
    assert_eq!(h.on_deleted(Ok(())), Reply::NoContent);
}

#[test]
fn non_member_is_forbidden_before_any_community_call() {
    let elsewhere = vec![membership(1, 6, USER)];
    for request in [CommunityRequest::Get, CommunityRequest::Update(UpdateCommunity::default()), CommunityRequest::Delete] {
        let (h, _) = CommunityHandler::start(USER, 5, request);
        let (h, step) = h.on_memberships(Ok(elsewhere.clone()));
        assert_eq!(step, CommunityHandlerStep::Respond(Reply::Error(error(Status::Forbidden, "Forbidden"))));
        assert_eq!(h, CommunityHandler::Answered);
    }
    let (h, _) = CommunityHandler::start(USER, 5, CommunityRequest::Get);
    let e = MembershipRepositoryError::Sqlx(DbError::Other("timeout".to_string()));
    let (_, step) = h.on_memberships(Err(e));
    assert_eq!(step, CommunityHandlerStep::Respond(Reply::Error(error(Status::InternalServerError, "timeout"))));
}

#[test]
fn community_replies() {
    assert_eq!(community_reply(Ok(community(3))), Reply::Body(community(3)));
    let e = CommunityRepositoryError::Sqlx(DbError::Database("no such table: communities".to_string()));
    assert_eq!(community_reply(Err(e.clone())), Reply::Error(error(Status::InternalServerError, "no such table: communities")));
    assert_eq!(community_deletion_reply(Ok(())), Reply::NoContent);
    assert_eq!(community_deletion_reply(Err(CommunityRepositoryError::NotFound)), Reply::Error(error(Status::NotFound, "Community not found")));
    assert_eq!(community_deletion_reply(Err(e.clone())), Reply::Error(error(Status::InternalServerError, "no such table: communities")));
    assert_eq!(created_community_reply(Ok(community(3))), Reply::Created(community(3)));
    assert_eq!(created_community_reply(Err(e.clone())), Reply::Error(error(Status::InternalServerError, "no such table: communities")));
    assert_eq!(community_list_reply(Ok(vec![community(2), community(1)])), Reply::Body(vec![community(2), community(1)]));
    assert_eq!(community_list_reply(Err(e)), Reply::Error(error(Status::InternalServerError, "no such table: communities")));
    assert_eq!(
        created_community_reply(Err(CommunityRepositoryError::NotFound)),
        Reply::Error(error(Status::InternalServerError, "community not found"))
    );
}

#[test]
fn membership_replies() {
    let m = membership(1, 2, USER);
    assert_eq!(created_membership_reply(Ok(m)), Reply::Created(m));
    let e = MembershipRepositoryError::Sqlx(DbError::Other("x".to_string()));
    assert_eq!(created_membership_reply(Err(e.clone())), Reply::Error(error(Status::InternalServerError, "x")));
    assert_eq!(membership_list_reply(Ok(vec![m])), Reply::Body(vec![m]));
    assert_eq!(membership_list_reply(Err(e)), Reply::Error(error(Status::InternalServerError, "x")));
}

#[test]
fn only_the_member_reads_a_membership() {
    let (h, call) = MembershipHandler::start(USER, 1, MembershipRequest::Get);
    assert_eq!(call, MembershipCall::Get(1));
    assert!(h.awaits_membership());
    let (h, step) = h.on_fetched(Ok(membership(1, 2, USER)));
    assert_eq!(step, MembershipHandlerStep::Respond(Reply::Body(membership(1, 2, USER))));
    assert_eq!(h, MembershipHandler::Answered);

    let (h, _) = MembershipHandler::start(USER, 1, MembershipRequest::Get);
    let (_, step) = h.on_fetched(Ok(membership(1, 2, OTHER)));
    assert_eq!(step, MembershipHandlerStep::Respond(Reply::Error(error(Status::Forbidden, "Forbidden"))));

    let (h, _) = MembershipHandler::start(USER, 1, MembershipRequest::Get);
    let (_, step) = h.on_fetched(Err(MembershipRepositoryError::NotFound));
    assert_eq!(step, MembershipHandlerStep::Respond(Reply::Error(error(Status::NotFound, "Membership not found"))));

    let (h, _) = MembershipHandler::start(USER, 1, MembershipRequest::Get);
    let e = MembershipRepositoryError::Sqlx(DbError::Other("boom".to_string()));
    let (_, step) = h.on_fetched(Err(e));
    assert_eq!(step, MembershipHandlerStep::Respond(Reply::Error(error(Status::InternalServerError, "boom"))));
}

#[test]
fn only_the_member_changes_or_deletes_a_membership() {
    let u = UpdateMembership { community: Some(9), member: None };
    let (h, _) = MembershipHandler::start(USER, 1, MembershipRequest::Update(u.clone()));
    let (h, step) = h.on_fetched(Ok(membership(1, 2, USER)));
    assert_eq!(step, MembershipHandlerStep::Call(MembershipCall::Update(1, u.clone())));
    assert!(h.awaits_update());
    assert_eq!(h.on_updated(Ok(membership(1, 9, USER))), Reply::Body(membership(1, 9, USER)));

    let (h, _) = MembershipHandler::start(USER, 1, MembershipRequest::Update(u));
    let (h, step) = h.on_fetched(Ok(membership(1, 2, OTHER)));
    assert_eq!(step, MembershipHandlerStep::Respond(Reply::Error(error(Status::Forbidden, "Forbidden"))));
    assert_eq!(h, MembershipHandler::Answered);

    let (h, _) = MembershipHandler::start(USER, 1, MembershipRequest::Delete);
    let (h, step) = h.on_fetched(Ok(membership(1, 2, USER)));
    assert_eq!(step, MembershipHandlerStep::Call(MembershipCall::Delete(1)));
    assert!(h.awaits_deletion());
    assert_eq!(h.on_deleted(Err(MembershipRepositoryError::NotFound)), Reply::Error(error(Status::NotFound, "Membership not found")));

    let (h, _) = MembershipHandler::start(USER, 1, MembershipRequest::Delete);
    let (h, _) = h.on_fetched(Ok(membership(1, 2, USER)));
    assert_eq!(h.on_deleted(Ok(())), Reply::NoContent);

    let (h, _) = MembershipHandler::start(USER, 1, MembershipRequest::Delete);
    let (_, step) = h.on_fetched(Ok(membership(1, 2, OTHER)));
    assert_eq!(step, MembershipHandlerStep::Respond(Reply::Error(error(Status::Forbidden, "Forbidden"))));
}

#[test]
fn the_creator_of_a_community_passes_its_membership_check() {
    let (run, _) = CreateCommunityRun::start(CreateCommunity { name: "poetry".to_string() }, USER);
    let (run, step) = run.advance(Ok(()));
    let community = match step {
        CreateCommunityStep::Run(CreateCommunityStatement::InsertCommunity(c)) => c,
        other => panic!("unexpected step {:?}", other),
    };
    let (_, step) = run.advance(Ok(()));
    let owner_membership = match step {
        CreateCommunityStep::Run(CreateCommunityStatement::InsertMembership(m)) => m,
        other => panic!("unexpected step {:?}", other),
    };
    let listed = vec![membership(9, 1, USER), owner_membership];
    assert_eq!(assert_member_of(Ok(listed.clone()), community.id), Ok(()));
    let (h, _) = CommunityHandler::start(USER, community.id, CommunityRequest::Get);
    let (_, step) = h.on_memberships(Ok(listed));
    assert_eq!(step, CommunityHandlerStep::Call(CommunityCall::Get(community.id)));
}

#[test]
fn listings_ask_for_the_requesting_users_rows_only() {
    let (listing, call) = CommunityListing::start(USER);
    assert_eq!(call, ListingCall::CommunitiesOf(USER));
    assert_eq!(listing.on_listed(Ok(vec![community(1)])), Reply::Body(vec![community(1)]));
    let (listing, _) = CommunityListing::start(USER);
    let e = CommunityRepositoryError::Sqlx(DbError::Other("down".to_string()));
    assert_eq!(listing.on_listed(Err(e)), Reply::Error(error(Status::InternalServerError, "down")));

    let (listing, call) = MembershipListing::start(OTHER);
    assert_eq!(call, ListingCall::MembershipsOf(OTHER));
    let m = membership(1, 2, OTHER);
    assert_eq!(listing.on_listed(Ok(vec![m])), Reply::Body(vec![m]));
}
