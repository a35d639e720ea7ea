use babangida::domain::auth::SessionToken;
use babangida::domain::community::{Group, GroupKind, GroupName, GroupSlug, MembershipRole};
use babangida::domain::identity::{
    Handle, Invite, InviteCode, InviteQuota, InviteStatus, IssuanceContext, UserId, UserRole,
    VerifiedStatus,
};
use babangida::domain::marketplace::ListingStatus;
use babangida::domain::music::TrackStatus;
use babangida::domain::openapi::ApiKeyStatus;
use babangida::domain::verification::RequestStatus;
use babangida::domain::RepositoryError;
use babangida::infrastructure::records::auth::{credential_from_row, session_from_row};
use babangida::infrastructure::records::community::reconstitute_group;
use babangida::infrastructure::records::content::row_to_post;
use babangida::infrastructure::records::identity::{
    active_invite_from_row, invite_acceptance, inviter_issuance_state, parse_role,
    require_updated, role_str, row_to_user,
};
use babangida::infrastructure::records::marketplace::{build_draft, reconstitute_listing, row_to_view as listing_row};
use babangida::infrastructure::records::messaging::{canonical, row_to_conversation};
use babangida::infrastructure::records::music::{reconstitute_track, row_to_view as track_row};
use babangida::infrastructure::records::openapi::reconstitute_key;
use babangida::infrastructure::records::verification::reconstitute_request;
use babangida::shared::id::Id;
use babangida::shared::time::{Duration, Timestamp};

fn unavailable(text: &str) -> RepositoryError {
    RepositoryError::Unavailable(text.to_owned())
}

fn uid() -> UserId {
    Id::generate()
}

#[test]
fn community_rows_rebuild_the_community() {
    let now = Timestamp::now();
    let (owner, second, moderator, member) = (uid(), uid(), uid(), uid());
    let rows = vec![
        (member.as_uuid(), "member".to_owned()),
        (owner.as_uuid(), "owner".to_owned()),
        (moderator.as_uuid(), "Moderator".to_owned()),
        (second.as_uuid(), "owner".to_owned()),
    ];
    let g = reconstitute_group(7, "podval".to_owned(), "Подвал".to_owned(), "public".to_owned(), now, rows).unwrap();
    assert_eq!(g.id().as_uuid(), 7);
    assert_eq!(g.kind(), GroupKind::Public);
    assert_eq!(g.member_count(), 4);
    // The first owner stands first; the others keep their order and roles.
    assert_eq!(g.members()[0].user, owner);
    assert_eq!(g.members()[1].user, member);
    assert_eq!(g.role_of(owner), Some(MembershipRole::Owner));
    assert_eq!(g.role_of(second), Some(MembershipRole::Owner));
    assert_eq!(g.role_of(moderator), Some(MembershipRole::Moderator));
    assert_eq!(g.role_of(member), Some(MembershipRole::Member));
}

#[test]
fn corrupt_community_rows_are_reported() {
    let now = Timestamp::now();
    let owner = uid();
    let ok_rows = || vec![(owner.as_uuid(), "owner".to_owned())];
    let text = |w: &str| format!("повреждённые данные сообщества: {w}");
    assert_eq!(
        reconstitute_group(1, "1bad".to_owned(), "Подвал".to_owned(), "public".to_owned(), now, ok_rows()).unwrap_err(),
        unavailable(&text("слаг"))
    );
    assert_eq!(
        reconstitute_group(1, "podval".to_owned(), " ".to_owned(), "public".to_owned(), now, ok_rows()).unwrap_err(),
        unavailable(&text("название"))
    );
    assert_eq!(
        reconstitute_group(1, "podval".to_owned(), "Подвал".to_owned(), "secret".to_owned(), now, ok_rows()).unwrap_err(),
        unavailable(&text("тип"))
    );
    assert_eq!(
        reconstitute_group(1, "podval".to_owned(), "Подвал".to_owned(), "closed".to_owned(), now, vec![(owner.as_uuid(), "boss".to_owned())]).unwrap_err(),
        unavailable(&text("роль участника"))
    );
    assert_eq!(
        reconstitute_group(1, "podval".to_owned(), "Подвал".to_owned(), "closed".to_owned(), now, vec![(owner.as_uuid(), "member".to_owned())]).unwrap_err(),
        unavailable(&text("нет владельца"))
    );
    let twice = uid().as_uuid();
    assert_eq!(
        reconstitute_group(
            1,
            "podval".to_owned(),
            "Подвал".to_owned(),
            "closed".to_owned(),
            now,
            vec![(owner.as_uuid(), "owner".to_owned()), (twice, "member".to_owned()), (twice, "moderator".to_owned())],
        )
        .unwrap_err(),
        unavailable(&text("членство"))
    );
}

#[test]
fn a_stored_community_loads_with_the_same_roles() {
    let now = Timestamp::now();
    let (founder, heir, member) = (uid(), uid(), uid());
    let (mut g, _) = Group::found(
        Id::generate(),
        GroupSlug::parse("podval").unwrap(),
        GroupName::parse("Подвал").unwrap(),
        GroupKind::Closed,
        founder,
        now,
    );
    g.add_member(founder, member, MembershipRole::Member, now).unwrap();
    g.add_member(founder, heir, MembershipRole::Moderator, now).unwrap();
    g.set_role(founder, heir, MembershipRole::Owner, now).unwrap();
    g.leave(founder, now).unwrap();
    let rows: Vec<(u128, String)> = g.members().iter().map(|m| (m.user.as_uuid(), m.role.as_str().to_owned())).collect();
    let loaded = reconstitute_group(
        g.id().as_uuid(),
        g.slug().as_str().to_owned(),
        g.name().as_str().to_owned(),
        g.kind().as_str().to_owned(),
        g.created_at(),
        rows,
    )
    .unwrap();
    for u in [founder, heir, member, uid()] {
        assert_eq!(loaded.role_of(u), g.role_of(u));
    }
    assert_eq!(loaded.member_count(), g.member_count());
}

#[test]
fn user_rows() {
    let now = Timestamp::now();
    let u = row_to_user(5, "MC_Test".to_owned(), "admin".to_owned(), "verified".to_owned(), now).unwrap();
    assert_eq!(u.id().as_uuid(), 5);
    assert_eq!(u.handle().as_str(), "mc_test");
    assert_eq!(u.role(), UserRole::Admin);
    assert_eq!(u.verified(), VerifiedStatus::Verified);
    let casual = row_to_user(5, "mc_test".to_owned(), "member".to_owned(), "casual".to_owned(), now).unwrap();
    assert_eq!(casual.verified(), VerifiedStatus::Casual);
    assert_eq!(
        row_to_user(5, "9x".to_owned(), "member".to_owned(), "casual".to_owned(), now).unwrap_err(),
        unavailable("повреждённый handle в БД")
    );
    assert_eq!(
        row_to_user(5, "mc_test".to_owned(), "root".to_owned(), "casual".to_owned(), now).unwrap_err(),
        unavailable("неизвестная роль в БД: root")
    );
}

#[test]
fn roles_are_stored_and_read_back() {
    for role in [UserRole::Member, UserRole::Admin] {
        assert_eq!(parse_role(role_str(role)), Ok(role));
    }
    assert_eq!(parse_role("Admin"), Err(unavailable("неизвестная роль в БД: Admin")));
}

#[test]
fn the_locked_inviter_state() {
    let last = Some(Timestamp::now());
    let s = inviter_issuance_state("member", 1, last).unwrap();
    assert_eq!(s.quota, InviteQuota::Limited(2));
    assert_eq!(s.active_count, 1);
    assert_eq!(s.last_issued_at, last);
    assert_eq!(inviter_issuance_state("admin", 0, None).unwrap().quota, InviteQuota::Unlimited);
    assert_eq!(inviter_issuance_state("member", -1, None).unwrap().active_count, u32::MAX);
    assert_eq!(inviter_issuance_state("member", 5_000_000_000, None).unwrap().active_count, u32::MAX);
    assert_eq!(inviter_issuance_state("ghost", 0, None).unwrap_err(), unavailable("неизвестная роль в БД: ghost"));
}

#[test]
fn invite_rows_and_acceptance() {
    let now = Timestamp::now();
    let inviter = uid();
    let invite = active_invite_from_row(9, " ABCD1234 ".to_owned(), inviter.as_uuid(), now).unwrap();
    assert!(invite.is_active());
    assert_eq!(invite.code().as_str(), "ABCD1234");
    assert_eq!(invite.inviter(), inviter);
    assert_eq!(invite.created_at(), now);
    assert_eq!(
        active_invite_from_row(9, "AB-1".to_owned(), inviter.as_uuid(), now).unwrap_err(),
        unavailable("повреждённый код инвайта в БД")
    );
    assert_eq!(invite_acceptance(&invite), Err(unavailable("инвайт не принят")));
    let (mut issued, _) = Invite::issue(
        Id::generate(),
        InviteCode::parse("ABCD1234").unwrap(),
        inviter,
        IssuanceContext { quota: InviteQuota::Unlimited, active_count: 0, last_issued_at: None, now },
    )
    .unwrap();
    let by = uid();
    issued.accept(by, now).unwrap();
    assert_eq!(issued.status(), &InviteStatus::Accepted { by, at: now });
    assert_eq!(invite_acceptance(&issued), Ok((by, now)));
    assert_eq!(require_updated(0), Err(RepositoryError::Conflict));
    assert_eq!(require_updated(1), Ok(()));
}

#[test]
fn session_and_credential_rows() {
    let issued = Timestamp::now();
    let expires = issued + Duration::days(3);
    let token = SessionToken::parse(&"b".repeat(40)).unwrap();
    let user = uid();
    let s = session_from_row(3, &token, user.as_uuid(), issued, expires);
    assert_eq!(s.expires_at(), expires);
    assert_eq!(s.user(), user);
    assert!(s.is_active(issued));
    assert!(!s.is_active(expires));
    let c = credential_from_row(user, "phc".to_owned(), issued);
    assert_eq!(c.hash().as_str(), "phc");
    assert_eq!(c.established_at(), issued);
}

#[test]
fn post_and_conversation_rows() {
    let now = Timestamp::now();
    let p = row_to_post(1, 2, " йоу ".to_owned(), now).unwrap();
    assert_eq!(p.body().as_str(), "йоу");
    assert_eq!(p.author().as_uuid(), 2);
    assert_eq!(row_to_post(1, 2, "  ".to_owned(), now).unwrap_err(), unavailable("повреждённый пост в БД"));
    let (a, b) = (uid(), uid());
    assert_eq!(canonical(a, b), canonical(b, a));
    let (lo, hi) = canonical(a, b);
    assert!(lo <= hi);
    let conv = row_to_conversation(4, lo, hi, now).unwrap();
    assert!(conv.has_participant(a) && conv.has_participant(b));
    assert_eq!(row_to_conversation(4, lo, lo, now).unwrap_err(), unavailable("повреждённый диалог в БД"));
}

#[test]
fn listing_rows() {
    let now = Timestamp::now();
    let seller = uid().as_uuid();
    let text = |w: &str| format!("повреждённый товар в БД: {w}");
    for (raw, status) in [("active", ListingStatus::Active), ("sold", ListingStatus::Sold), ("withdrawn", ListingStatus::Withdrawn)] {
        let l = reconstitute_listing(1, seller, "MPC".to_owned(), 100, Some("ok".to_owned()), raw.to_owned(), now).unwrap();
        assert_eq!(l.status(), status);
        assert_eq!(l.status().as_str(), raw);
        assert_eq!(l.seller().as_uuid(), seller);
    }
    let bad = |title: &str, price: i64, desc: Option<&str>, status: &str| {
        reconstitute_listing(1, seller, title.to_owned(), price, desc.map(str::to_owned), status.to_owned(), now).unwrap_err()
    };
    assert_eq!(bad(" ", 100, None, "active"), unavailable(&text("заголовок")));
    assert_eq!(bad("MPC", -1, None, "active"), unavailable(&text("цена")));
    assert_eq!(bad("MPC", 0, None, "active"), unavailable(&text("цена")));
    assert_eq!(bad("MPC", 10, Some(" "), "active"), unavailable(&text("описание")));
    assert_eq!(bad("MPC", 10, None, "lost"), unavailable(&text("неизвестный статус lost")));
    assert!(build_draft("MPC".to_owned(), 10, None).unwrap().description.is_none());
    let card = listing_row(1, seller, "mc".to_owned(), "MPC".to_owned(), 10, None, "sold".to_owned(), now).unwrap();
    assert_eq!(card.price_rubles, 10);
    assert_eq!(card.status, "sold");
    assert!(listing_row(1, seller, "mc".to_owned(), "MPC".to_owned(), -10, None, "sold".to_owned(), now).is_err());
}

#[test]
fn track_key_and_request_rows() {
    let now = Timestamp::now();
    let t = reconstitute_track(1, 2, "Подвал".to_owned(), "https://a.example/t.mp3".to_owned(), None, "withdrawn".to_owned(), now).unwrap();
    assert_eq!(t.status(), TrackStatus::Withdrawn);
    assert_eq!(
        reconstitute_track(1, 2, "Подвал".to_owned(), "ftp://a".to_owned(), None, "published".to_owned(), now).unwrap_err(),
        unavailable("повреждённый трек в БД: ссылка")
    );
    assert_eq!(
        reconstitute_track(1, 2, "Подвал".to_owned(), "https://a.example/t".to_owned(), None, "gone".to_owned(), now).unwrap_err(),
        unavailable("повреждённый трек в БД: неизвестный статус gone")
    );
    let card = track_row(1, 2, "mc".to_owned(), "T".to_owned(), "https://a".to_owned(), Some("rap".to_owned()), "published".to_owned(), now);
    assert_eq!(card.genre.as_deref(), Some("rap"));

    let k = reconstitute_key(1, 2, "ci".to_owned(), "deadbeef".to_owned(), "revoked".to_owned(), now).unwrap();
    assert_eq!(k.status(), ApiKeyStatus::Revoked);
    assert_eq!(k.hash().as_str(), "deadbeef");
    assert_eq!(
        reconstitute_key(1, 2, " ".to_owned(), "h".to_owned(), "active".to_owned(), now).err(),
        Some(unavailable("повреждённый API-ключ в БД: метка"))
    );

    let decided = Some(now + Duration::hours(1));
    let r = reconstitute_request(1, 2, "approved".to_owned(), Some("пруфы".to_owned()), None, Some("ок".to_owned()), now, decided).unwrap();
    assert_eq!(r.status(), RequestStatus::Approved);
    assert_eq!(r.decided_at(), decided);
    assert_eq!(r.decided_by(), None);
    assert_eq!(r.decision_reason().map(|d| d.as_str()), Some("ок"));
    let pending = reconstitute_request(1, 2, "pending".to_owned(), None, Some(3), Some("лишнее".to_owned()), now, None).unwrap();
    assert_eq!(pending.decided_by(), None);
    assert!(pending.decision_reason().is_none());
    assert_eq!(
        reconstitute_request(1, 2, "maybe".to_owned(), None, None, None, now, None).unwrap_err(),
        unavailable("повреждённая заявка верификации: неизвестный статус maybe")
    );
    let _ = Handle::parse("x_y").unwrap();
}
