use communities::community::{
    Community, CommunityRepositoryError, CreateCommunity, UpdateCommunity, build_community,
    community_deletion, fetched_community, listed_communities,
};
use communities::invite::{
    CreateInvite, Invite, InviteRepositoryError, build_invite, fetched_invite, invite_deletion,
    inserted_invite, listed_invites, new_invite,
};
use communities::membership::{
    CreateMembership, Membership, MembershipRepositoryError, UpdateMembership,
    build_membership, fetched_membership, inserted_membership, listed_memberships, membership_deletion,
    new_membership,
};
use communities::store::{DbError, Timestamp, clock_error, now, timestamp_since_epoch};

fn at(secs: i64) -> Timestamp {
    Timestamp { secs, nanos: 0 }
}

fn is_v4(id: u128) -> bool {
    (id >> 76) & 0xf == 4 && (id >> 62) & 0x3 == 2
}

fn community(id: u128, name: &str) -> Community {
    Community { id, name: name.to_string(), created: at(1_700_000_000) }
}

fn membership(id: u128, community: u128, member: u128) -> Membership {
    Membership { id, community, member, created: at(1_700_000_000) }
}

#[test]
fn builders_put_the_given_id_and_time_on_the_row() {
    let c = build_community(CreateCommunity { name: "chess".to_string() }, 42, at(7));
    assert_eq!(c, Community { id: 42, name: "chess".to_string(), created: at(7) });
    let m = build_membership(CreateMembership { community: 1, member: 2 }, 43, at(8));
    assert_eq!(m, Membership { id: 43, community: 1, member: 2, created: at(8) });
    let i = build_invite(CreateInvite { community: 1, user: 3, exp: at(99) }, 44, at(9));
    assert_eq!(i, Invite { id: 44, community: 1, user: 3, created: at(9), exp: at(99) });
}

#[test]
fn the_clock_reads_a_time_after_the_epoch() {
    let t = now().expect("the test machine's clock is after 1970");
    // after 2023-01-01
    assert!(t.secs > 1_672_531_200);
    assert!(t.nanos < 1_000_000_000);
    assert_eq!(
        clock_error(),
        DbError::Other("the system clock cannot be read as a time since the Unix epoch".to_string())
    );
}

#[test]
fn new_rows_get_fresh_v4_ids_and_the_current_time() {
    let m = new_membership(CreateMembership { community: 11, member: 22 }).unwrap();
    let n = new_membership(CreateMembership { community: 11, member: 22 }).unwrap();
    assert_eq!((m.community, m.member), (11, 22));
    assert!(is_v4(m.id));
    assert!(is_v4(n.id));
    assert_ne!(m.id, n.id);
    assert!(m.created.secs > 1_672_531_200);
    assert!(m.created.nanos < 1_000_000_000);
    let exp = at(1_900_000_000);
    let i = new_invite(CreateInvite { community: 11, user: 33, exp }).unwrap();
    assert_eq!((i.community, i.user, i.exp), (11, 33, exp));
    assert!(is_v4(i.id));
    assert!(i.created.secs > 1_672_531_200);
}

#[test]
fn community_update_replaces_only_what_is_given() {
    let current = community(5, "old");
    let keep = UpdateCommunity::default();
    assert_eq!(keep.apply(current.clone()), "old");
    let rename = UpdateCommunity { name: Some("new".to_string()) };
    assert_eq!(rename.clone().apply(current.clone()), "new");
    // applying the same update to the row it produced changes nothing more
    let renamed = Community { name: "new".to_string(), ..current };
    assert_eq!(rename.apply(renamed), "new");
}

#[test]
fn membership_update_replaces_only_what_is_given() {
    let current = membership(1, 10, 20);
    assert_eq!(UpdateMembership::default().apply(&current), (10, 20));
    let u = UpdateMembership { community: Some(30), member: None };
    assert_eq!(u.apply(&current), (30, 20));
    let u = UpdateMembership { community: None, member: Some(40) };
    assert_eq!(u.apply(&current), (10, 40));
    let u = UpdateMembership { community: Some(30), member: Some(40) };
    let once = u.apply(&current);
    let again = u.apply(&Membership { community: once.0, member: once.1, ..current });
    assert_eq!(once, again);
}

#[test]
fn lookups_map_a_missing_row_to_not_found() {
    let c = community(1, "a");
    assert_eq!(fetched_community(Ok(Some(c.clone()))), Ok(c));
    assert_eq!(fetched_community(Ok(None)), Err(CommunityRepositoryError::NotFound));
    let e = DbError::Other("pool timed out".to_string());
    assert_eq!(fetched_community(Err(e.clone())), Err(CommunityRepositoryError::Sqlx(e)));

    let m = membership(1, 2, 3);
    assert_eq!(fetched_membership(Ok(Some(m))), Ok(m));
    assert_eq!(fetched_membership(Ok(None)), Err(MembershipRepositoryError::NotFound));
    let e = DbError::Database("disk I/O error".to_string());
    assert_eq!(fetched_membership(Err(e.clone())), Err(MembershipRepositoryError::Sqlx(e)));

    let i = Invite { id: 1, community: 2, user: 3, created: at(1), exp: at(2) };
    assert_eq!(fetched_invite(Ok(Some(i))), Ok(i));
    assert_eq!(fetched_invite(Ok(None)), Err(InviteRepositoryError::NotFound));
    let e = DbError::Database("disk I/O error".to_string());
    assert_eq!(fetched_invite(Err(e)), Err(InviteRepositoryError::DbError));
}

#[test]
fn lists_pass_rows_through_and_wrap_errors() {
    let rows = vec![community(2, "b"), community(1, "a")];
    assert_eq!(listed_communities(Ok(rows.clone())), Ok(rows));
    let e = DbError::Other("closed".to_string());
    assert_eq!(listed_communities(Err(e.clone())), Err(CommunityRepositoryError::Sqlx(e)));

    let rows = vec![membership(1, 2, 3)];
    assert_eq!(listed_memberships(Ok(rows.clone())), Ok(rows));
    let e = DbError::Other("closed".to_string());
    assert_eq!(listed_memberships(Err(e.clone())), Err(MembershipRepositoryError::Sqlx(e)));

    assert_eq!(listed_invites(Ok(vec![])), Ok(vec![]));
    let e = DbError::Database("locked".to_string());
    assert_eq!(listed_invites(Err(e)), Err(InviteRepositoryError::DbError));
}

#[test]
fn deleting_nothing_is_not_found() {
    assert_eq!(community_deletion(Ok(0)), Err(CommunityRepositoryError::NotFound));
    assert_eq!(community_deletion(Ok(1)), Ok(()));
    let e = DbError::Other("gone".to_string());
    assert_eq!(community_deletion(Err(e.clone())), Err(CommunityRepositoryError::Sqlx(e)));

    assert_eq!(membership_deletion(Ok(0)), Err(MembershipRepositoryError::NotFound));
    assert_eq!(membership_deletion(Ok(3)), Ok(()));
    let e = DbError::Other("gone".to_string());
    assert_eq!(membership_deletion(Err(e.clone())), Err(MembershipRepositoryError::Sqlx(e)));

    assert_eq!(invite_deletion(Ok(0)), Err(InviteRepositoryError::NotFound));
    assert_eq!(invite_deletion(Ok(1)), Ok(()));
    assert_eq!(invite_deletion(Err(DbError::Other("gone".to_string()))), Err(InviteRepositoryError::DbError));
}

#[test]
fn inserts_answer_with_the_row_or_the_error() {
    let m = membership(1, 2, 3);
    assert_eq!(inserted_membership(m, Ok(())), Ok(m));
    let e = DbError::Database("UNIQUE constraint failed".to_string());
    assert_eq!(inserted_membership(m, Err(e.clone())), Err(MembershipRepositoryError::Sqlx(e)));

    let i = Invite { id: 1, community: 2, user: 3, created: at(1), exp: at(2) };
    assert_eq!(inserted_invite(i, Ok(())), Ok(i));
    let dup = DbError::UniqueViolation("UNIQUE constraint failed: invite.id".to_string());
    assert_eq!(inserted_invite(i, Err(dup)), Err(InviteRepositoryError::AlreadyExists));
    let foreign = DbError::Database("FOREIGN KEY constraint failed".to_string());
    assert_eq!(inserted_invite(i, Err(foreign)), Err(InviteRepositoryError::DbError));
    let locked = DbError::Database("database is locked".to_string());
    assert_eq!(inserted_invite(i, Err(locked)), Err(InviteRepositoryError::DbError));
    let other = DbError::Other("pool timed out".to_string());
    assert_eq!(inserted_invite(i, Err(other)), Err(InviteRepositoryError::DbError));
}

#[test]
fn error_texts() {
    assert_eq!(CommunityRepositoryError::NotFound.message(), "community not found");
    let e = CommunityRepositoryError::Sqlx(DbError::Other("error with configuration".to_string()));
    assert_eq!(e.message(), "error with configuration");
    assert_eq!(MembershipRepositoryError::NotFound.message(), "membership not found");
    let e = MembershipRepositoryError::Sqlx(DbError::Database("boom".to_string()));
    assert_eq!(e.message(), "boom");
    assert_eq!(InviteRepositoryError::NotFound.message(), "invite not found");
    assert_eq!(InviteRepositoryError::AlreadyExists.message(), "invite already exists");
    assert_eq!(InviteRepositoryError::DbError.message(), "database error");
}

#[test]
fn clock_readings_become_timestamps_while_the_seconds_fit() {
    assert_eq!(timestamp_since_epoch(1_700_000_000, 5), Some(Timestamp { secs: 1_700_000_000, nanos: 5 }));
    assert_eq!(timestamp_since_epoch(0, 0), Some(Timestamp { secs: 0, nanos: 0 }));
    assert_eq!(
        timestamp_since_epoch(i64::MAX as u64, 999_999_999),
        Some(Timestamp { secs: i64::MAX, nanos: 999_999_999 })
    );
    assert_eq!(timestamp_since_epoch(i64::MAX as u64 + 1, 0), None);
    assert_eq!(timestamp_since_epoch(u64::MAX, 0), None);
}

#[test]
fn unique_violations_show_their_text() {
    let e = DbError::UniqueViolation("UNIQUE constraint failed: memberships.id".to_string());
    assert_eq!(e.message(), "UNIQUE constraint failed: memberships.id");
}
