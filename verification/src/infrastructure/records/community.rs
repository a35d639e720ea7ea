//! The rows of communities and their members.

use vstd::prelude::*;

use crate::domain::community::{
    law_role_text_roundtrip, lemma_owner_exists, lemma_role_in_push,
    members_wf, owner_count, unique_users, find_user, role_in, lemma_find_user_at, lemma_find_user_absent,
    lemma_find_user_none, lemma_find_user_some, lemma_owner_count_push, Group, GroupKind, GroupName, GroupSlug,
    GroupView, Membership, MembershipRole,
};
use crate::domain::identity::UserId;
use crate::domain::RepositoryError;
use crate::shared::id::{lemma_id_view_injective, lemma_spec_from_uuid, Id};
use crate::shared::time::Timestamp;

verus! {

broadcast use {lemma_id_view_injective, lemma_spec_from_uuid};

/// The message of a corrupt community row.
pub open spec fn corrupt_group_text(what: Seq<char>) -> Seq<char> {
    "повреждённые данные сообщества: "@ + what
}

/// A community row is corrupt: `what` says which part.
pub fn corrupt(what: &str) -> (r: RepositoryError)
    ensures
        r matches RepositoryError::Unavailable(m) && m@ == corrupt_group_text(what@),
{
    let mut m = String::new();
    m.push_str("повреждённые данные сообщества: ");
    m.push_str(what);
    RepositoryError::Unavailable(m)
}

/// A member's role as stored.
pub fn parse_role(raw: &str) -> (r: Result<MembershipRole, RepositoryError>)
    ensures
        match MembershipRole::spec_parse(raw@) {
            Ok(role) => r == Ok::<MembershipRole, RepositoryError>(role),
            Err(_) => r matches Err(RepositoryError::Unavailable(m)) && m@ == corrupt_group_text(
                "роль участника"@,
            ),
        },
{
    match MembershipRole::parse(raw) {
        Ok(role) => Ok(role),
        Err(_) => Err(corrupt("роль участника")),
    }
}

/// The memberships that member rows hold, where every stored role parses.
pub open spec fn parse_member_rows(rows: Seq<(u128, Seq<char>)>) -> Option<Seq<Membership>>
    decreases rows.len(),
{
    if rows.len() == 0 {
        Some(Seq::empty())
    } else {
        match parse_member_rows(rows.drop_last()) {
            None => None,
            Some(ms) => match MembershipRole::spec_parse(rows.last().1) {
                Ok(role) => Some(ms.push(Membership { user: Id::spec_from_uuid(rows.last().0), role })),
                Err(_) => None,
            },
        }
    }
}

/// The first position at or after `from` of an owner.
pub open spec fn first_owner(ms: Seq<Membership>, from: nat) -> Option<nat>
    decreases ms.len() - from,
{
    if from >= ms.len() {
        None
    } else if ms[from as int].role is Owner {
        Some(from)
    } else {
        first_owner(ms, from + 1)
    }
}

/// The memberships of all but `seed`, in order.
pub open spec fn others_of(ms: Seq<Membership>, seed: UserId) -> Seq<Membership>
    decreases ms.len(),
{
    if ms.len() == 0 {
        Seq::empty()
    } else if ms.last().user == seed {
        others_of(ms.drop_last(), seed)
    } else {
        others_of(ms.drop_last(), seed).push(ms.last())
    }
}

/// What rebuilding a community from its rows gives: the community, or the
/// part that is corrupt. The first owner among the members founds it anew;
/// everyone else joins in the stored order with the stored role.
pub open spec fn spec_reconstitute_group(
    id: u128,
    slug: Seq<char>,
    name: Seq<char>,
    kind: Seq<char>,
    created_at: Timestamp,
    rows: Seq<(u128, Seq<char>)>,
) -> Result<GroupView, Seq<char>> {
    match GroupSlug::spec_parse(slug) {
        Err(_) => Err("слаг"@),
        Ok(s) => match GroupName::spec_parse(name) {
            Err(_) => Err("название"@),
            Ok(n) => match GroupKind::spec_parse(kind) {
                Err(_) => Err("тип"@),
                Ok(k) => match parse_member_rows(rows) {
                    None => Err("роль участника"@),
                    Some(ms) => match first_owner(ms, 0) {
                        None => Err("нет владельца"@),
                        Some(i) => {
                            let seed = ms[i as int].user;
                            if unique_users(others_of(ms, seed)) {
                                Ok(GroupView {
                                    id: Id::spec_from_uuid(id),
                                    slug: s,
                                    name: n,
                                    kind: k,
                                    members: seq![Membership { user: seed, role: MembershipRole::Owner }]
                                        + others_of(ms, seed),
                                    created_at,
                                })
                            } else {
                                Err("членство"@)
                            }
                        },
                    },
                },
            },
        },
    }
}

/// The view of the member rows.
pub open spec fn member_rows_view(rows: Seq<(u128, String)>) -> Seq<(u128, Seq<char>)> {
    rows.map_values(|row: (u128, String)| (row.0, row.1@))
}

proof fn lemma_first_owner_some(ms: Seq<Membership>, from: nat)
    requires
        first_owner(ms, from) is Some,
    ensures
        from <= first_owner(ms, from)->0 < ms.len(),
        ms[first_owner(ms, from)->0 as int].role is Owner,
    decreases ms.len() - from,
{
    if from < ms.len() && !(ms[from as int].role is Owner) {
        lemma_first_owner_some(ms, from + 1);
    }
}

proof fn lemma_first_owner_none(ms: Seq<Membership>, from: nat)
    requires
        first_owner(ms, from) is None,
    ensures
        forall|k: int| from <= k < ms.len() ==> !(#[trigger] ms[k].role is Owner),
    decreases ms.len() - from,
{
    if from < ms.len() {
        lemma_first_owner_none(ms, from + 1);
    }
}

/// The others of a prefix are a prefix of the others.
proof fn lemma_others_prefix(ms: Seq<Membership>, seed: UserId, j: int)
    requires
        0 <= j <= ms.len(),
    ensures
        others_of(ms.take(j), seed).len() <= others_of(ms, seed).len(),
        others_of(ms.take(j), seed) == others_of(ms, seed).take(
            others_of(ms.take(j), seed).len() as int,
        ),
    decreases ms.len() - j,
{
    if j < ms.len() {
        lemma_others_prefix(ms, seed, j + 1);
        assert(ms.take(j + 1).drop_last() =~= ms.take(j));
        let a = others_of(ms.take(j), seed);
        let b = others_of(ms.take(j + 1), seed);
        let w = others_of(ms, seed);
        assert(b.take(a.len() as int) =~= a);
        assert(w.take(a.len() as int) =~= w.take(b.len() as int).take(a.len() as int));
    } else {
        assert(ms.take(j) =~= ms);
        assert(others_of(ms, seed).take(others_of(ms, seed).len() as int) =~= others_of(ms, seed));
    }
}

/// No other is the seed.
proof fn lemma_others_not_seed(ms: Seq<Membership>, seed: UserId)
    ensures
        forall|k: int| 0 <= k < others_of(ms, seed).len() ==> #[trigger] others_of(ms, seed)[k].user != seed,
    decreases ms.len(),
{
    if ms.len() > 0 {
        lemma_others_not_seed(ms.drop_last(), seed);
    }
}

/// Where a role fails to parse in a prefix, it fails in the whole.
proof fn lemma_parse_rows_none_extends(rows: Seq<(u128, Seq<char>)>, j: int)
    requires
        0 <= j <= rows.len(),
        parse_member_rows(rows.take(j)) is None,
    ensures
        parse_member_rows(rows) is None,
    decreases rows.len() - j,
{
    if j < rows.len() {
        assert(rows.take(j + 1).drop_last() =~= rows.take(j));
        lemma_parse_rows_none_extends(rows, j + 1);
    } else {
        assert(rows.take(j) =~= rows);
    }
}

/// A member who is already among the others makes them not unique.
proof fn lemma_duplicate_breaks(ms: Seq<Membership>, seed: UserId, j: int)
    requires
        0 <= j < ms.len(),
        ms[j].user != seed,
        role_in(seq![Membership { user: seed, role: MembershipRole::Owner }] + others_of(ms.take(j), seed), ms[j].user) is Some,
    ensures
        !unique_users(others_of(ms, seed)),
{
    let p = others_of(ms.take(j), seed);
    let mem = seq![Membership { user: seed, role: MembershipRole::Owner }] + p;
    let u = ms[j].user;
    lemma_find_user_some(mem, u, 0);
    let k = find_user(mem, u, 0)->0 as int;
    assert(k != 0);
    assert(mem[k] == p[k - 1]);
    assert(ms.take(j + 1).drop_last() =~= ms.take(j));
    assert(ms.take(j + 1).last() == ms[j]);
    assert(others_of(ms.take(j + 1), seed) == p.push(ms[j]));
    lemma_others_prefix(ms, seed, j + 1);
    let w = others_of(ms, seed);
    let q = others_of(ms.take(j + 1), seed);
    assert(q.len() == p.len() + 1);
    assert(q == w.take(q.len() as int));
    assert(w[k - 1] == q[k - 1]);
    assert(q[k - 1] == p[k - 1]);
    assert(w[p.len() as int] == q[p.len() as int]);
    assert(w[p.len() as int] == ms[j]);
    assert(w[k - 1].user == w[p.len() as int].user);
}

/// The member rows that storing `ms` writes: each user's UUID and the text of
/// the role.
pub open spec fn stored_member_rows(ms: Seq<Membership>) -> Seq<(u128, Seq<char>)> {
    ms.map_values(|m: Membership| (m.user@, m.role.spec_as_str()))
}

proof fn lemma_parse_stored_rows(ms: Seq<Membership>)
    ensures
        parse_member_rows(stored_member_rows(ms)) == Some(ms),
    decreases ms.len(),
{
    if ms.len() > 0 {
        lemma_parse_stored_rows(ms.drop_last());
        assert(stored_member_rows(ms).drop_last() =~= stored_member_rows(ms.drop_last()));
        law_role_text_roundtrip(ms.last().role);
        assert(Id::<crate::domain::identity::UserMarker>::spec_from_uuid(ms.last().user@) == ms.last().user);
        assert(ms.drop_last().push(ms.last()) =~= ms);
    } else {
        assert(stored_member_rows(ms) =~= Seq::<(u128, Seq<char>)>::empty());
    }
}

proof fn lemma_first_owner_found(ms: Seq<Membership>, from: nat, k: int)
    requires
        from <= k < ms.len(),
        ms[k].role is Owner,
    ensures
        first_owner(ms, from) is Some,
    decreases k - from,
{
    if from < k && !(ms[from as int].role is Owner) {
        lemma_first_owner_found(ms, from + 1, k);
    }
}

/// The roles among the others are those among all, but for the seed.
proof fn lemma_others_roles(ms: Seq<Membership>, seed: UserId, u: UserId)
    requires
        unique_users(ms),
        u != seed,
    ensures
        role_in(others_of(ms, seed), u) == role_in(ms, u),
    decreases ms.len(),
{
    if ms.len() > 0 {
        let dl = ms.drop_last();
        let last = ms.last();
        assert(unique_users(dl));
        assert(dl.push(last) =~= ms);
        assert forall|j: int| 0 <= j < dl.len() implies dl[j].user != last.user by {
            assert(ms[j].user != ms[ms.len() - 1].user);
        }
        lemma_find_user_absent(dl, last.user, 0);
        lemma_role_in_push(dl, last, u);
        lemma_others_roles(dl, seed, u);
        if last.user != seed {
            lemma_others_roles(dl, seed, last.user);
            lemma_role_in_push(others_of(dl, seed), last, u);
        }
    }
}

/// The others of unique members are unique.
proof fn lemma_others_unique(ms: Seq<Membership>, seed: UserId)
    requires
        unique_users(ms),
    ensures
        unique_users(others_of(ms, seed)),
    decreases ms.len(),
{
    if ms.len() > 0 {
        let dl = ms.drop_last();
        let last = ms.last();
        assert(unique_users(dl));
        lemma_others_unique(dl, seed);
        if last.user != seed {
            assert forall|j: int| 0 <= j < dl.len() implies dl[j].user != last.user by {
                assert(ms[j].user != ms[ms.len() - 1].user);
            }
            lemma_find_user_absent(dl, last.user, 0);
            lemma_others_roles(dl, seed, last.user);
            let o = others_of(dl, seed);
            lemma_find_user_none(o, last.user, 0);
            let p = o.push(last);
            assert forall|a: int, b: int| 0 <= a < b < p.len() implies p[a].user != p[b].user by {
                if b == o.len() {
                    assert(p[a] == o[a]);
                }
            }
        }
    }
}

/// Another at the front does not change the role of anyone else.
proof fn lemma_role_in_behind(s: Membership, xs: Seq<Membership>, u: UserId)
    requires
        s.user != u,
    ensures
        role_in(seq![s] + xs, u) == role_in(xs, u),
{
    let ys = seq![s] + xs;
    match find_user(xs, u, 0) {
        Some(k) => {
            lemma_find_user_some(xs, u, 0);
            assert forall|j: int| 0 <= j < k + 1 implies ys[j].user != u by {
                if j > 0 {
                    assert(ys[j] == xs[j - 1]);
                }
            }
            assert(ys[k + 1 as int] == xs[k as int]);
            lemma_find_user_at(ys, u, 0, k + 1);
        },
        None => {
            lemma_find_user_none(xs, u, 0);
            assert forall|j: int| 0 <= j < ys.len() implies ys[j].user != u by {
                if j > 0 {
                    assert(ys[j] == xs[j - 1]);
                }
            }
            lemma_find_user_absent(ys, u, 0);
        },
    }
}

/// Law: what is stored of a community is what loading gives back. The member
/// rows written for well-formed members rebuild a community in which every
/// user has the role they had (the first owner now stands first).
pub proof fn law_group_store_roundtrip(
    id: u128,
    slug: Seq<char>,
    name: Seq<char>,
    kind: Seq<char>,
    created_at: Timestamp,
    ms: Seq<Membership>,
)
    requires
        members_wf(ms),
        GroupSlug::spec_parse(slug) is Ok,
        GroupName::spec_parse(name) is Ok,
        GroupKind::spec_parse(kind) is Ok,
    ensures
        spec_reconstitute_group(id, slug, name, kind, created_at, stored_member_rows(ms)) is Ok,
        forall|u: UserId| #[trigger] role_in(
            spec_reconstitute_group(id, slug, name, kind, created_at, stored_member_rows(ms))->Ok_0.members,
            u,
        ) == role_in(ms, u),
{
    lemma_parse_stored_rows(ms);
    lemma_owner_exists(ms);
    let k = choose|i: int| 0 <= i < ms.len() && (#[trigger] ms[i]).role is Owner;
    lemma_first_owner_found(ms, 0, k);
    lemma_first_owner_some(ms, 0);
    let i = first_owner(ms, 0)->0 as int;
    let seed = ms[i].user;
    let others = others_of(ms, seed);
    lemma_others_unique(ms, seed);
    let v = spec_reconstitute_group(id, slug, name, kind, created_at, stored_member_rows(ms))->Ok_0;
    let head = Membership { user: seed, role: MembershipRole::Owner };
    assert(v.members == seq![head] + others);
    assert forall|u: UserId| #[trigger] role_in(v.members, u) == role_in(ms, u) by {
        if u == seed {
            assert forall|j: int| 0 <= j < i implies ms[j].user != seed by {
                assert(ms[j].user != ms[i].user);
            }
            lemma_find_user_at(ms, seed, 0, i as nat);
            lemma_find_user_at(v.members, seed, 0, 0);
        } else {
            lemma_role_in_behind(head, others, u);
            lemma_others_roles(ms, seed, u);
        }
    }
}

/// Rebuild a community from its stored rows, through the domain: the first
/// owner founds it, the other members are added in order, and further owners
/// come in as moderators and are then promoted (adding never makes an owner).
pub fn reconstitute_group(
    id: u128,
    slug: String,
    name: String,
    kind: String,
    created_at: Timestamp,
    members: Vec<(u128, String)>,
) -> (r: Result<Group, RepositoryError>)
    ensures
        match spec_reconstitute_group(id, slug@, name@, kind@, created_at, member_rows_view(members@)) {
            Ok(v) => r matches Ok(g) && g@ == v,
            Err(what) => r matches Err(RepositoryError::Unavailable(m)) && m@ == corrupt_group_text(what),
        },
{
    let ghost target = spec_reconstitute_group(id, slug@, name@, kind@, created_at, member_rows_view(members@));
    let group_slug = match GroupSlug::parse(slug.as_str()) {
        Ok(s) => s,
        Err(_) => return Err(corrupt("слаг")),
    };
    let group_name = match GroupName::parse(name.as_str()) {
        Ok(n) => n,
        Err(_) => return Err(corrupt("название")),
    };
    let group_kind = match GroupKind::parse(kind.as_str()) {
        Ok(k) => k,
        Err(_) => return Err(corrupt("тип")),
    };
    let ghost rows = member_rows_view(members@);
    let mut parsed: Vec<Membership> = Vec::new();
    let n = members.len();
    for i in 0..n
        invariant
            target == spec_reconstitute_group(id, slug@, name@, kind@, created_at, member_rows_view(members@)),
            GroupSlug::spec_parse(slug@) is Ok,
            GroupName::spec_parse(name@) is Ok,
            GroupKind::spec_parse(kind@) is Ok,
            n == members@.len(),
            rows == member_rows_view(members@),
            parse_member_rows(rows.take(i as int)) == Some(parsed@),
    {
        proof {
            assert(rows.take(i + 1).drop_last() =~= rows.take(i as int));
        }
        let role = match parse_role(members[i].1.as_str()) {
            Ok(role) => role,
            Err(e) => {
                proof {
                    assert(rows[i as int].1 == members@[i as int].1@);
                    assert(rows.take(i + 1).last() == rows[i as int]);
                    assert(parse_member_rows(rows.take(i + 1)) is None);
                    lemma_parse_rows_none_extends(rows, i + 1);
                }
                return Err(e);
            },
        };
        parsed.push(Membership { user: Id::from_uuid(members[i].0), role });
    }
    proof {
        assert(rows.take(n as int) =~= rows);
    }
    let ghost ms = parsed@;
    let mut seed_at: Option<usize> = None;
    let mut k: usize = 0;
    while k < parsed.len()
        invariant_except_break
            seed_at is None,
            first_owner(ms, 0) == first_owner(ms, k as nat),
        invariant
            k <= parsed@.len(),
            parsed@ == ms,
        ensures
            match seed_at {
                Some(i) => first_owner(ms, 0) == Some(i as nat) && i < ms.len(),
                None => first_owner(ms, 0) is None,
            },
        decreases parsed@.len() - k,
    {
        if parsed[k].role == MembershipRole::Owner {
            seed_at = Some(k);
            break;
        }
        k = k + 1;
    }
    let seed_index = match seed_at {
        Some(i) => i,
        None => {
            return Err(corrupt("нет владельца"));
        },
    };
    let seed = parsed[seed_index].user;
    let (mut group, _founded) = Group::found(Id::from_uuid(id), group_slug, group_name, group_kind, seed, created_at);
    let ghost v0 = group@;
    proof {
        assert(target == (if unique_users(others_of(ms, seed)) {
            Ok(GroupView {
                members: seq![Membership { user: seed, role: MembershipRole::Owner }] + others_of(ms, seed),
                ..v0
            })
        } else {
            Err("членство"@)
        }));
    }
    for j in 0..parsed.len()
        invariant
            target == spec_reconstitute_group(id, slug@, name@, kind@, created_at, member_rows_view(members@)),
            target == (if unique_users(others_of(ms, seed)) {
                Ok(GroupView {
                    members: seq![Membership { user: seed, role: MembershipRole::Owner }] + others_of(ms, seed),
                    ..v0
                })
            } else {
                Err("членство"@)
            }),
            parsed@ == ms,
            seed_index < ms.len(),
            ms[seed_index as int].user == seed,
            group@ == (GroupView {
                members: seq![Membership { user: seed, role: MembershipRole::Owner }] + others_of(ms.take(j as int), seed),
                ..v0
            }),
            unique_users(others_of(ms.take(j as int), seed)),
    {
        let m = parsed[j];
        proof {
            assert(ms.take(j + 1).drop_last() =~= ms.take(j as int));
            assert(ms.take(j + 1).last() == m);
            lemma_others_not_seed(ms.take(j as int), seed);
        }
        if m.user != seed {
            let initial = if m.role == MembershipRole::Owner {
                MembershipRole::Moderator
            } else {
                m.role
            };
            let ghost mem0 = group@.members;
            proof {
                lemma_find_user_at(mem0, seed, 0, 0);
            }
            match group.add_member(seed, m.user, initial, created_at) {
                Ok(_) => {
                    proof {
                        lemma_find_user_none(mem0, m.user, 0);
                    }
                },
                Err(_) => {
                    proof {
                        lemma_duplicate_breaks(ms, seed, j as int);
                    }
                    return Err(corrupt("членство"));
                },
            }
            if m.role == MembershipRole::Owner {
                let ghost mem1 = group@.members;
                proof {
                    lemma_find_user_at(mem1, seed, 0, 0);
                    assert forall|q: int| 0 <= q < mem1.len() - 1 implies mem1[q].user != m.user by {
                        assert(mem1[q] == mem0[q]);
                    }
                    lemma_find_user_at(mem1, m.user, 0, (mem1.len() - 1) as nat);
                }
                match group.set_role(seed, m.user, MembershipRole::Owner, created_at) {
                    Ok(_) => {},
                    Err(_) => {
                        return Err(corrupt("владелец"));
                    },
                }
            }
            proof {
                let p = others_of(ms.take(j as int), seed);
                assert(others_of(ms.take(j + 1), seed) == p.push(m));
                assert(group@.members =~= seq![Membership { user: seed, role: MembershipRole::Owner }]
                    + p.push(m));
                assert forall|a: int, b: int| 0 <= a < b < p.push(m).len() implies p.push(m)[a].user
                    != p.push(m)[b].user by {
                    if b == p.len() {
                        assert(mem0[a + 1] == p[a]);
                    }
                }
            }
        } else {
            proof {
                assert(others_of(ms.take(j + 1), seed) == others_of(ms.take(j as int), seed));
            }
        }
    }
    proof {
        assert(ms.take(ms.len() as int) =~= ms);
    }
    Ok(group)
}

} // verus!
