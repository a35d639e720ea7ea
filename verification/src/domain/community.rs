//! The community context: closed groups and public pages. Content of a
//! community flows into the common feed; here are membership, roles, and the
//! rights to post and to moderate. Open to everyone without verification.

use vstd::prelude::*;
use vstd::std_specs::convert::FromSpecImpl;

use crate::domain::identity::UserId;
use crate::shared::id::{lemma_id_view_injective, Id};
use crate::shared::time::Timestamp;
use crate::text::{
    as_index, char_debug, chars_of, check_text, decimal, decimal_seq, first_bad,
    first_bad_slug_char, has_control_char, lemma_first_bad_some, lemma_lower_trim_plain,
    lemma_slug_is_normal, lemma_trim_idempotent, lower_seq, printable_rule, slug_rule,
    spec_char_debug, str_eq, text_fault, to_ascii_lowercase, trim, trim_seq, view_outcome,
    TextFault,
};

verus! {

broadcast use lemma_id_view_injective;

/// Name of a community: 1..=60 characters after trimming, no control characters.
#[derive(Debug, PartialEq, Eq)]
pub struct GroupName(String);

impl View for GroupName {
    type V = Seq<char>;

    closed spec fn view(&self) -> Seq<char> {
        self.0@
    }
}

impl Clone for GroupName {
    fn clone(&self) -> (r: Self)
        ensures
            r@ == self@,
    {
        GroupName(self.0.clone())
    }
}

/// A breach of the [`GroupName`] rules.
#[derive(Debug, Clone, PartialEq, Eq, Structural)]
pub enum GroupNameError {
    Empty,
    TooLong { len: usize },
    ControlChar,
}

impl GroupName {
    /// Maximum length, in characters.
    pub const MAX_LEN: usize = 60;

    /// What [`GroupName::parse`] gives for a text: the trimmed text, or why it is
    /// refused.
    pub open spec fn spec_parse(input: Seq<char>) -> Result<Seq<char>, GroupNameError> {
        match text_fault(input, 60) {
            Some(TextFault::Empty) => Err(GroupNameError::Empty),
            Some(TextFault::TooLong(len)) => Err(GroupNameError::TooLong { len }),
            None => if first_bad(trim_seq(input), printable_rule(), 0) is Some {
                Err(GroupNameError::ControlChar)
            } else {
                Ok(trim_seq(input))
            },
        }
    }

    /// Parse: trimmed, 1..=`MAX_LEN` characters, no control characters.
    pub fn parse(input: &str) -> (r: Result<Self, GroupNameError>)
        ensures
            view_outcome(r) == Self::spec_parse(input@),
    {
        match check_text(input, Self::MAX_LEN) {
            Ok(t) => {
                if has_control_char(&chars_of(t)) {
                    Err(GroupNameError::ControlChar)
                } else {
                    Ok(GroupName(t.to_owned()))
                }
            },
            Err(TextFault::Empty) => Err(GroupNameError::Empty),
            Err(TextFault::TooLong(len)) => Err(GroupNameError::TooLong { len }),
        }
    }

    /// The text.
    pub fn as_str(&self) -> (r: &str)
        ensures
            r@ == self@,
    {
        self.0.as_str()
    }
}

/// The slug of a community: its unique @-name in a URL. The rules of a handle:
/// lowercase, 3..=30 characters, a Latin letter first, then `[a-z0-9_]`.
#[derive(Debug, PartialEq, Eq, Hash)]
pub struct GroupSlug(String);

impl View for GroupSlug {
    type V = Seq<char>;

    closed spec fn view(&self) -> Seq<char> {
        self.0@
    }
}

impl Clone for GroupSlug {
    fn clone(&self) -> (r: Self)
        ensures
            r@ == self@,
    {
        GroupSlug(self.0.clone())
    }
}

/// A breach of the [`GroupSlug`] rules.
#[derive(Debug, Clone, PartialEq, Eq, Structural)]
pub enum GroupSlugError {
    Empty,
    TooShort { len: usize },
    TooLong { len: usize },
    InvalidStart,
    InvalidChar(char),
}

impl GroupSlug {
    /// Minimum length.
    pub const MIN_LEN: usize = 3;

    /// Maximum length.
    pub const MAX_LEN: usize = 30;

    /// What [`GroupSlug::parse`] gives for a text.
    pub open spec fn spec_parse(input: Seq<char>) -> Result<Seq<char>, GroupSlugError> {
        let n = lower_seq(trim_seq(input));
        if n.len() == 0 {
            Err(GroupSlugError::Empty)
        } else if n.len() < 3 {
            Err(GroupSlugError::TooShort { len: n.len() as usize })
        } else if n.len() > 30 {
            Err(GroupSlugError::TooLong { len: n.len() as usize })
        } else {
            match first_bad(n, slug_rule(), 0) {
                Some(k) => if k == 0 {
                    Err(GroupSlugError::InvalidStart)
                } else {
                    Err(GroupSlugError::InvalidChar(n[k as int]))
                },
                None => Ok(n),
            }
        }
    }

    /// Parse and normalize a slug.
    pub fn parse(input: &str) -> (r: Result<Self, GroupSlugError>)
        ensures
            view_outcome(r) == Self::spec_parse(input@),
    {
        let normalized = to_ascii_lowercase(trim(input));
        let chars = chars_of(normalized.as_str());
        let len = chars.len();
        if len == 0 {
            return Err(GroupSlugError::Empty);
        }
        if len < Self::MIN_LEN {
            return Err(GroupSlugError::TooShort { len });
        }
        if len > Self::MAX_LEN {
            return Err(GroupSlugError::TooLong { len });
        }
        let bad = first_bad_slug_char(&chars);
        proof {
            if first_bad(chars@, slug_rule(), 0) is Some {
                lemma_first_bad_some(chars@, slug_rule(), 0);
            }
        }
        match bad {
            Some(i) => {
                if i == 0 {
                    Err(GroupSlugError::InvalidStart)
                } else {
                    Err(GroupSlugError::InvalidChar(chars[i]))
                }
            },
            None => Ok(GroupSlug(normalized)),
        }
    }

    /// The normalized text.
    pub fn as_str(&self) -> (r: &str)
        ensures
            r@ == self@,
    {
        self.0.as_str()
    }
}

/// Kind of a community: it sets joining, reading and the right to post.
#[derive(Debug, Clone, Copy, PartialEq, Eq, Structural)]
pub enum GroupKind {
    /// Closed group: joining only by a moderator's invitation; only members
    /// read and write.
    Closed,
    /// Public page: anyone joins and reads; only moderators post.
    Public,
}

/// The value is not in the known set of community kinds.
#[derive(Debug, Clone, Copy, PartialEq, Eq, Structural)]
pub struct GroupKindError;

impl GroupKind {
    pub open spec fn spec_as_str(self) -> Seq<char> {
        match self {
            GroupKind::Closed => "closed"@,
            GroupKind::Public => "public"@,
        }
    }

    /// The canonical text.
    pub fn as_str(self) -> (r: &'static str)
        ensures
            r@ == self.spec_as_str(),
    {
        match self {
            GroupKind::Closed => "closed",
            GroupKind::Public => "public",
        }
    }

    /// What [`GroupKind::parse`] gives for a text (case-insensitive).
    pub open spec fn spec_parse(input: Seq<char>) -> Result<GroupKind, GroupKindError> {
        let n = lower_seq(trim_seq(input));
        if n == "closed"@ {
            Ok(GroupKind::Closed)
        } else if n == "public"@ {
            Ok(GroupKind::Public)
        } else {
            Err(GroupKindError)
        }
    }

    /// Parse from text, case-insensitively.
    pub fn parse(input: &str) -> (r: Result<Self, GroupKindError>)
        ensures
            r == Self::spec_parse(input@),
    {
        let n = to_ascii_lowercase(trim(input));
        if str_eq(n.as_str(), "closed") {
            Ok(GroupKind::Closed)
        } else if str_eq(n.as_str(), "public") {
            Ok(GroupKind::Public)
        } else {
            Err(GroupKindError)
        }
    }

    /// Whether one may join without an invitation.
    pub fn allows_self_join(self) -> (r: bool)
        ensures
            r == (self is Public),
    {
        match self {
            GroupKind::Public => true,
            GroupKind::Closed => false,
        }
    }
}

/// A member's role in a community.
#[derive(Debug, Clone, Copy, PartialEq, Eq, Structural)]
pub enum MembershipRole {
    /// Owner: full control, cannot be removed.
    Owner,
    /// Moderator: manages members and posting.
    Moderator,
    /// Rank-and-file member.
    Member,
}

/// The value is not in the known set of roles.
#[derive(Debug, Clone, Copy, PartialEq, Eq, Structural)]
pub struct MembershipRoleError;

impl MembershipRole {
    pub open spec fn spec_as_str(self) -> Seq<char> {
        match self {
            MembershipRole::Owner => "owner"@,
            MembershipRole::Moderator => "moderator"@,
            MembershipRole::Member => "member"@,
        }
    }

    /// The canonical text.
    pub fn as_str(self) -> (r: &'static str)
        ensures
            r@ == self.spec_as_str(),
    {
        match self {
            MembershipRole::Owner => "owner",
            MembershipRole::Moderator => "moderator",
            MembershipRole::Member => "member",
        }
    }

    /// What [`MembershipRole::parse`] gives for a text (case-insensitive).
    pub open spec fn spec_parse(input: Seq<char>) -> Result<MembershipRole, MembershipRoleError> {
        let n = lower_seq(trim_seq(input));
        if n == "owner"@ {
            Ok(MembershipRole::Owner)
        } else if n == "moderator"@ {
            Ok(MembershipRole::Moderator)
        } else if n == "member"@ {
            Ok(MembershipRole::Member)
        } else {
            Err(MembershipRoleError)
        }
    }

    /// Parse from text, case-insensitively.
    pub fn parse(input: &str) -> (r: Result<Self, MembershipRoleError>)
        ensures
            r == Self::spec_parse(input@),
    {
        let n = to_ascii_lowercase(trim(input));
        if str_eq(n.as_str(), "owner") {
            Ok(MembershipRole::Owner)
        } else if str_eq(n.as_str(), "moderator") {
            Ok(MembershipRole::Moderator)
        } else if str_eq(n.as_str(), "member") {
            Ok(MembershipRole::Member)
        } else {
            Err(MembershipRoleError)
        }
    }

    pub open spec fn spec_can_moderate(self) -> bool {
        self is Owner || self is Moderator
    }

    /// Whether the role has moderation rights (members and posting).
    pub fn can_moderate(self) -> (r: bool)
        ensures
            r == self.spec_can_moderate(),
    {
        match self {
            MembershipRole::Owner | MembershipRole::Moderator => true,
            MembershipRole::Member => false,
        }
    }
}

/// A user's membership in a community.
#[derive(Debug, Clone, Copy, PartialEq, Eq)]
pub struct Membership {
    pub user: UserId,
    pub role: MembershipRole,
}

/// The first position at or after `from` of `u` among the members.
pub open spec fn find_user(ms: Seq<Membership>, u: UserId, from: nat) -> Option<nat>
    decreases ms.len() - from,
{
    if from >= ms.len() {
        None
    } else if ms[from as int].user == u {
        Some(from)
    } else {
        find_user(ms, u, from + 1)
    }
}

/// The role of `u` among the members, if `u` is one.
pub open spec fn role_in(ms: Seq<Membership>, u: UserId) -> Option<MembershipRole> {
    match find_user(ms, u, 0) {
        Some(i) => Some(ms[i as int].role),
        None => None,
    }
}

/// How many members are owners.
pub open spec fn owner_count(ms: Seq<Membership>) -> nat
    decreases ms.len(),
{
    if ms.len() == 0 {
        0
    } else {
        owner_count(ms.drop_last()) + (if ms.last().role is Owner {
            1nat
        } else {
            0nat
        })
    }
}

/// No user is a member twice.
pub open spec fn unique_users(ms: Seq<Membership>) -> bool {
    forall|i: int, j: int| 0 <= i < j < ms.len() ==> ms[i].user != ms[j].user
}

/// The invariant of a community's members: each user once, and an owner.
pub open spec fn members_wf(ms: Seq<Membership>) -> bool {
    unique_users(ms) && owner_count(ms) >= 1
}

/// `actor` is a member with moderation rights.
pub open spec fn moderates(ms: Seq<Membership>, actor: UserId) -> bool {
    role_in(ms, actor) matches Some(r) && r.spec_can_moderate()
}

pub proof fn lemma_find_user_some(ms: Seq<Membership>, u: UserId, from: nat)
    requires
        find_user(ms, u, from) is Some,
    ensures
        from <= find_user(ms, u, from)->0 < ms.len(),
        ms[find_user(ms, u, from)->0 as int].user == u,
        forall|k: int| from <= k < find_user(ms, u, from)->0 ==> ms[k].user != u,
    decreases ms.len() - from,
{
    if from < ms.len() && ms[from as int].user != u {
        lemma_find_user_some(ms, u, from + 1);
    }
}

pub proof fn lemma_find_user_none(ms: Seq<Membership>, u: UserId, from: nat)
    requires
        find_user(ms, u, from) is None,
    ensures
        forall|k: int| from <= k < ms.len() ==> ms[k].user != u,
    decreases ms.len() - from,
{
    if from < ms.len() {
        lemma_find_user_none(ms, u, from + 1);
    }
}

/// Where `u` stands at `k` and nowhere before, it is found at `k`.
pub proof fn lemma_find_user_at(ms: Seq<Membership>, u: UserId, from: nat, k: nat)
    requires
        from <= k < ms.len(),
        ms[k as int].user == u,
        forall|j: int| from <= j < k ==> ms[j].user != u,
    ensures
        find_user(ms, u, from) == Some(k),
    decreases k - from,
{
    if from < k {
        lemma_find_user_at(ms, u, from + 1, k);
    }
}

/// Where `u` stands nowhere from `from` on, it is not found.
pub proof fn lemma_find_user_absent(ms: Seq<Membership>, u: UserId, from: nat)
    requires
        forall|j: int| from <= j < ms.len() ==> ms[j].user != u,
    ensures
        find_user(ms, u, from) is None,
    decreases ms.len() - from,
{
    if from < ms.len() {
        lemma_find_user_absent(ms, u, from + 1);
    }
}

/// The roles of all users after `m` joins at the end.
pub proof fn lemma_role_in_push(ms: Seq<Membership>, m: Membership, u: UserId)
    requires
        role_in(ms, m.user) is None,
    ensures
        role_in(ms.push(m), u) == (if u == m.user {
            Some(m.role)
        } else {
            role_in(ms, u)
        }),
{
    let ps = ms.push(m);
    lemma_find_user_none(ms, m.user, 0);
    if u == m.user {
        lemma_find_user_at(ps, u, 0, ms.len());
    } else {
        match find_user(ms, u, 0) {
            Some(k) => {
                lemma_find_user_some(ms, u, 0);
                lemma_find_user_at(ps, u, 0, k);
            },
            None => {
                lemma_find_user_none(ms, u, 0);
                lemma_find_user_absent(ps, u, 0);
            },
        }
    }
}

/// Owners after one member is replaced.
pub proof fn lemma_owner_count_update(ms: Seq<Membership>, i: int, m: Membership)
    requires
        0 <= i < ms.len(),
    ensures
        owner_count(ms.update(i, m)) + (if ms[i].role is Owner {
            1nat
        } else {
            0nat
        }) == owner_count(ms) + (if m.role is Owner {
            1nat
        } else {
            0nat
        }),
    decreases ms.len(),
{
    let us = ms.update(i, m);
    if i < ms.len() - 1 {
        assert(us.drop_last() =~= ms.drop_last().update(i, m));
        lemma_owner_count_update(ms.drop_last(), i, m);
    } else {
        assert(us.drop_last() =~= ms.drop_last());
    }
}

/// Owners after one member leaves.
pub proof fn lemma_owner_count_remove(ms: Seq<Membership>, i: int)
    requires
        0 <= i < ms.len(),
    ensures
        owner_count(ms.remove(i)) + (if ms[i].role is Owner {
            1nat
        } else {
            0nat
        }) == owner_count(ms),
    decreases ms.len(),
{
    if i < ms.len() - 1 {
        assert(ms.remove(i).drop_last() =~= ms.drop_last().remove(i));
        lemma_owner_count_remove(ms.drop_last(), i);
    } else {
        assert(ms.remove(i) =~= ms.drop_last());
    }
}

/// Owners after a member joins at the end.
pub proof fn lemma_owner_count_push(ms: Seq<Membership>, m: Membership)
    ensures
        owner_count(ms.push(m)) == owner_count(ms) + (if m.role is Owner {
            1nat
        } else {
            0nat
        }),
{
    assert(ms.push(m).drop_last() =~= ms);
}

/// A positive count of owners means that some member is an owner.
pub proof fn lemma_owner_exists(ms: Seq<Membership>)
    requires
        owner_count(ms) >= 1,
    ensures
        exists|i: int| 0 <= i < ms.len() && (#[trigger] ms[i]).role is Owner,
    decreases ms.len(),
{
    if ms.last().role is Owner {
        assert(ms[ms.len() - 1].role is Owner);
    } else {
        lemma_owner_exists(ms.drop_last());
        let i = choose|i: int| 0 <= i < ms.drop_last().len() && (#[trigger] ms.drop_last()[i]).role is Owner;
        assert(ms[i].role is Owner);
    }
}

/// Marker of the typed [`GroupId`].
#[derive(Debug, Clone, Copy, PartialEq, Eq, Hash)]
pub struct GroupMarker;

/// Identifier of a community.
pub type GroupId = Id<GroupMarker>;

/// What a community is, in mathematical terms.
pub struct GroupView {
    pub id: GroupId,
    pub slug: Seq<char>,
    pub name: Seq<char>,
    pub kind: GroupKind,
    pub members: Seq<Membership>,
    pub created_at: Timestamp,
}

/// A community: the root of its aggregate. Membership and roles live inside
/// the aggregate, so that its invariants (an owner always, each user once) are
/// kept in one place.
#[derive(Debug)]
pub struct Group {
    id: GroupId,
    slug: GroupSlug,
    name: GroupName,
    kind: GroupKind,
    members: Vec<Membership>,
    created_at: Timestamp,
}

impl View for Group {
    type V = GroupView;

    closed spec fn view(&self) -> GroupView {
        GroupView {
            id: self.id,
            slug: self.slug@,
            name: self.name@,
            kind: self.kind,
            members: self.members@,
            created_at: self.created_at,
        }
    }
}

/// A breach of the community rules.
#[derive(Debug, Clone, PartialEq, Eq, Structural)]
pub enum CommunityError {
    JoinNotAllowed,
    AlreadyMember,
    NotPermitted,
    CannotAssignOwner,
    TargetNotMember,
    CannotRemoveOwner,
    SoleOwner,
    NotMember,
}

/// A community was founded.
#[derive(Debug, Clone, Copy, PartialEq, Eq)]
pub struct GroupFounded {
    pub group: GroupId,
    pub owner: UserId,
    pub kind: GroupKind,
    pub founded_at: Timestamp,
}

/// A member joined or was added.
#[derive(Debug, Clone, Copy, PartialEq, Eq)]
pub struct MemberJoined {
    pub group: GroupId,
    pub user: UserId,
    pub role: MembershipRole,
    pub at: Timestamp,
}

/// A member's role changed.
#[derive(Debug, Clone, Copy, PartialEq, Eq)]
pub struct MemberRoleChanged {
    pub group: GroupId,
    pub user: UserId,
    pub old_role: MembershipRole,
    pub new_role: MembershipRole,
    pub at: Timestamp,
}

/// A member was removed by a moderator.
#[derive(Debug, Clone, Copy, PartialEq, Eq)]
pub struct MemberRemoved {
    pub group: GroupId,
    pub user: UserId,
    pub at: Timestamp,
}

/// A member left.
#[derive(Debug, Clone, Copy, PartialEq, Eq)]
pub struct MemberLeft {
    pub group: GroupId,
    pub user: UserId,
    pub at: Timestamp,
}

/// A domain event of the community context.
#[derive(Debug, Clone, Copy, PartialEq, Eq)]
pub enum CommunityEvent {
    GroupFounded(GroupFounded),
    MemberJoined(MemberJoined),
    MemberRoleChanged(MemberRoleChanged),
    MemberRemoved(MemberRemoved),
    MemberLeft(MemberLeft),
}

/// Why a self-join of `user` is refused, if it is.
pub open spec fn join_error(g: GroupView, user: UserId) -> Option<CommunityError> {
    if !(g.kind is Public) {
        Some(CommunityError::JoinNotAllowed)
    } else if role_in(g.members, user) is Some {
        Some(CommunityError::AlreadyMember)
    } else {
        None
    }
}

/// Why adding `user` with `role` by `actor` is refused, if it is.
pub open spec fn add_member_error(g: GroupView, actor: UserId, user: UserId, role: MembershipRole) -> Option<CommunityError> {
    if !moderates(g.members, actor) {
        Some(CommunityError::NotPermitted)
    } else if role is Owner {
        Some(CommunityError::CannotAssignOwner)
    } else if role_in(g.members, user) is Some {
        Some(CommunityError::AlreadyMember)
    } else {
        None
    }
}

/// Why giving `target` the role `role` by `actor` is refused, if it is.
pub open spec fn set_role_error(g: GroupView, actor: UserId, target: UserId, role: MembershipRole) -> Option<CommunityError> {
    if role_in(g.members, actor) != Some(MembershipRole::Owner) {
        Some(CommunityError::NotPermitted)
    } else if role_in(g.members, target) is None {
        Some(CommunityError::TargetNotMember)
    } else if role_in(g.members, target) == Some(MembershipRole::Owner) && !(role is Owner)
        && owner_count(g.members) == 1 {
        Some(CommunityError::SoleOwner)
    } else {
        None
    }
}

/// Why removing `target` by `actor` is refused, if it is.
pub open spec fn remove_member_error(g: GroupView, actor: UserId, target: UserId) -> Option<CommunityError> {
    if !moderates(g.members, actor) {
        Some(CommunityError::NotPermitted)
    } else if role_in(g.members, target) is None {
        Some(CommunityError::TargetNotMember)
    } else if role_in(g.members, target) == Some(MembershipRole::Owner) {
        Some(CommunityError::CannotRemoveOwner)
    } else {
        None
    }
}

/// Why `user` may not leave, if so.
pub open spec fn leave_error(g: GroupView, user: UserId) -> Option<CommunityError> {
    if role_in(g.members, user) is None {
        Some(CommunityError::NotMember)
    } else if role_in(g.members, user) == Some(MembershipRole::Owner) && owner_count(g.members)
        == 1 {
        Some(CommunityError::SoleOwner)
    } else {
        None
    }
}

/// Whether `user` may post: any member of a closed group, a moderator of a
/// public page.
pub open spec fn may_post(g: GroupView, user: UserId) -> bool {
    match role_in(g.members, user) {
        None => false,
        Some(role) => match g.kind {
            GroupKind::Closed => true,
            GroupKind::Public => role.spec_can_moderate(),
        },
    }
}

/// The members without the one at the position of `user`.
pub open spec fn without(ms: Seq<Membership>, user: UserId) -> Seq<Membership> {
    ms.remove(find_user(ms, user, 0)->0 as int)
}

impl Group {
    #[verifier::type_invariant]
    closed spec fn inv(self) -> bool {
        members_wf(self.members@)
    }

    /// Found a community. The founder becomes its owner.
    pub fn found(id: GroupId, slug: GroupSlug, name: GroupName, kind: GroupKind, founder: UserId, now: Timestamp) -> (r: (Self, GroupFounded))
        ensures
            r.0@ == (GroupView {
                id,
                slug: slug@,
                name: name@,
                kind,
                members: seq![Membership { user: founder, role: MembershipRole::Owner }],
                created_at: now,
            }),
            members_wf(r.0@.members),
            r.1 == (GroupFounded { group: id, owner: founder, kind, founded_at: now }),
    {
        let mut members: Vec<Membership> = Vec::new();
        members.push(Membership { user: founder, role: MembershipRole::Owner });
        proof {
            assert(members@ =~= seq![Membership { user: founder, role: MembershipRole::Owner }]);
            assert(members@.drop_last() =~= Seq::<Membership>::empty());
        }
        let group = Group { id, slug, name, kind, members, created_at: now };
        let event = GroupFounded { group: id, owner: founder, kind, founded_at: now };
        (group, event)
    }

    /// Join on one's own (public pages only).
    pub fn join(&mut self, user: UserId, now: Timestamp) -> (r: Result<MemberJoined, CommunityError>)
        ensures
            match r {
                Ok(event) => {
                    &&& join_error(old(self)@, user) is None
                    &&& final(self)@ == (GroupView {
                        members: old(self)@.members.push(Membership { user, role: MembershipRole::Member }),
                        ..old(self)@
                    })
                    &&& event == (MemberJoined { group: old(self)@.id, user, role: MembershipRole::Member, at: now })
                },
                Err(e) => join_error(old(self)@, user) == Some(e) && final(self)@ == old(self)@,
            },
            members_wf(final(self)@.members),
    {
        proof {
            use_type_invariant(&*self);
        }
        if !self.kind.allows_self_join() {
            return Err(CommunityError::JoinNotAllowed);
        }
        if self.is_member(user) {
            return Err(CommunityError::AlreadyMember);
        }
        self.push_member(Membership { user, role: MembershipRole::Member });
        proof {
            use_type_invariant(&*self);
        }
        Ok(MemberJoined { group: self.id, user, role: MembershipRole::Member, at: now })
    }

    /// Add a member by a moderator's decision (the way into a closed group).
    pub fn add_member(&mut self, actor: UserId, user: UserId, role: MembershipRole, now: Timestamp) -> (r: Result<MemberJoined, CommunityError>)
        ensures
            match r {
                Ok(event) => {
                    &&& add_member_error(old(self)@, actor, user, role) is None
                    &&& final(self)@ == (GroupView {
                        members: old(self)@.members.push(Membership { user, role }),
                        ..old(self)@
                    })
                    &&& event == (MemberJoined { group: old(self)@.id, user, role, at: now })
                },
                Err(e) => add_member_error(old(self)@, actor, user, role) == Some(e) && final(self)@ == old(self)@,
            },
            members_wf(final(self)@.members),
    {
        proof {
            use_type_invariant(&*self);
        }
        self.require_moderator(actor)?;
        if role == MembershipRole::Owner {
            return Err(CommunityError::CannotAssignOwner);
        }
        if self.is_member(user) {
            return Err(CommunityError::AlreadyMember);
        }
        self.push_member(Membership { user, role });
        proof {
            use_type_invariant(&*self);
        }
        Ok(MemberJoined { group: self.id, user, role, at: now })
    }

    /// Append a member who is not one yet and is not an owner.
    fn push_member(&mut self, m: Membership)
        requires
            role_in(old(self)@.members, m.user) is None,
            !(m.role is Owner),
        ensures
            final(self)@ == (GroupView { members: old(self)@.members.push(m), ..old(self)@ }),
    {
        proof {
            use_type_invariant(&*self);
            let ms = self.members@;
            lemma_find_user_none(ms, m.user, 0);
            lemma_owner_count_push(ms, m);
            assert(unique_users(ms.push(m)));
        }
        let mut ms = self.members_copy();
        ms.push(m);
        self.members = ms;
    }

    /// A copy of the member list, for rebuilding it whole.
    fn members_copy(&self) -> (r: Vec<Membership>)
        ensures
            r@ == self.members@,
    {
        let mut r: Vec<Membership> = Vec::new();
        let n = self.members.len();
        for i in 0..n
            invariant
                n == self.members@.len(),
                r@ == self.members@.subrange(0, i as int),
        {
            r.push(self.members[i]);
            proof {
                assert(r@ =~= self.members@.subrange(0, i + 1));
            }
        }
        proof {
            assert(r@ =~= self.members@);
        }
        r
    }

    /// Change a member's role. Only an owner may; the community is never left
    /// without an owner.
    pub fn set_role(&mut self, actor: UserId, target: UserId, role: MembershipRole, now: Timestamp) -> (r: Result<MemberRoleChanged, CommunityError>)
        ensures
            match r {
                Ok(event) => {
                    &&& set_role_error(old(self)@, actor, target, role) is None
                    &&& final(self)@ == (GroupView {
                        members: old(self)@.members.update(
                            find_user(old(self)@.members, target, 0)->0 as int,
                            Membership { user: target, role },
                        ),
                        ..old(self)@
                    })
                    &&& event == (MemberRoleChanged {
                        group: old(self)@.id,
                        user: target,
                        old_role: role_in(old(self)@.members, target)->0,
                        new_role: role,
                        at: now,
                    })
                },
                Err(e) => set_role_error(old(self)@, actor, target, role) == Some(e) && final(self)@ == old(self)@,
            },
            members_wf(final(self)@.members),
    {
        proof {
            use_type_invariant(&*self);
        }
        if self.role_of(actor) != Some(MembershipRole::Owner) {
            return Err(CommunityError::NotPermitted);
        }
        let idx = match self.position_of(target) {
            Some(i) => i,
            None => return Err(CommunityError::TargetNotMember),
        };
        let old_role = self.members[idx].role;
        if old_role == MembershipRole::Owner && role != MembershipRole::Owner && self.owner_count() == 1 {
            return Err(CommunityError::SoleOwner);
        }
        let m = Membership { user: target, role };
        proof {
            let ms = self.members@;
            lemma_find_user_some(ms, target, 0);
            lemma_owner_count_update(ms, idx as int, m);
            assert(unique_users(ms.update(idx as int, m)));
        }
        let mut ms = self.members_copy();
        ms.set(idx, m);
        self.members = ms;
        proof {
            use_type_invariant(&*self);
        }
        Ok(MemberRoleChanged { group: self.id, user: target, old_role, new_role: role, at: now })
    }

    /// Remove a member (moderation). The owner cannot be removed.
    pub fn remove_member(&mut self, actor: UserId, target: UserId, now: Timestamp) -> (r: Result<MemberRemoved, CommunityError>)
        ensures
            match r {
                Ok(event) => {
                    &&& remove_member_error(old(self)@, actor, target) is None
                    &&& final(self)@ == (GroupView { members: without(old(self)@.members, target), ..old(self)@ })
                    &&& event == (MemberRemoved { group: old(self)@.id, user: target, at: now })
                },
                Err(e) => remove_member_error(old(self)@, actor, target) == Some(e) && final(self)@ == old(self)@,
            },
            members_wf(final(self)@.members),
            forall|u: UserId| #[trigger] role_in(final(self)@.members, u) == (if u == target {
                None
            } else {
                role_in(old(self)@.members, u)
            }) || r is Err,
    {
        proof {
            use_type_invariant(&*self);
        }
        self.require_moderator(actor)?;
        let idx = match self.position_of(target) {
            Some(i) => i,
            None => return Err(CommunityError::TargetNotMember),
        };
        if self.members[idx].role == MembershipRole::Owner {
            return Err(CommunityError::CannotRemoveOwner);
        }
        self.remove_at(idx, target);
        proof {
            use_type_invariant(&*self);
        }
        Ok(MemberRemoved { group: self.id, user: target, at: now })
    }

    /// Leave the community. The last owner hands ownership over first.
    pub fn leave(&mut self, user: UserId, now: Timestamp) -> (r: Result<MemberLeft, CommunityError>)
        ensures
            match r {
                Ok(event) => {
                    &&& leave_error(old(self)@, user) is None
                    &&& final(self)@ == (GroupView { members: without(old(self)@.members, user), ..old(self)@ })
                    &&& event == (MemberLeft { group: old(self)@.id, user, at: now })
                },
                Err(e) => leave_error(old(self)@, user) == Some(e) && final(self)@ == old(self)@,
            },
            members_wf(final(self)@.members),
    {
        proof {
            use_type_invariant(&*self);
        }
        let idx = match self.position_of(user) {
            Some(i) => i,
            None => return Err(CommunityError::NotMember),
        };
        if self.members[idx].role == MembershipRole::Owner && self.owner_count() == 1 {
            return Err(CommunityError::SoleOwner);
        }
        self.remove_at(idx, user);
        proof {
            use_type_invariant(&*self);
        }
        Ok(MemberLeft { group: self.id, user, at: now })
    }

    /// Drop the member `user` standing at `idx`, where that keeps an owner.
    fn remove_at(&mut self, idx: usize, user: UserId)
        requires
            find_user(old(self)@.members, user, 0) == Some(idx as nat),
            !(old(self)@.members[idx as int].role is Owner) || owner_count(old(self)@.members) >= 2,
        ensures
            final(self)@ == (GroupView { members: without(old(self)@.members, user), ..old(self)@ }),
            forall|u: UserId| #[trigger] role_in(final(self)@.members, u) == (if u == user {
                None
            } else {
                role_in(old(self)@.members, u)
            }),
    {
        proof {
            use_type_invariant(&*self);
            let ms = self.members@;
            lemma_find_user_some(ms, user, 0);
            lemma_owner_count_remove(ms, idx as int);
            let rs = ms.remove(idx as int);
            assert(unique_users(rs)) by {
                assert forall|i: int, j: int| 0 <= i < j < rs.len() implies rs[i].user != rs[j].user by {
                    let a = if i < idx { i } else { i + 1 };
                    let b = if j < idx { j } else { j + 1 };
                    assert(rs[i] == ms[a] && rs[j] == ms[b]);
                }
            }
            assert forall|u: UserId| #[trigger] role_in(rs, u) == (if u == user {
                None
            } else {
                role_in(ms, u)
            }) by {
                if u == user {
                    assert forall|j: int| 0 <= j < rs.len() implies rs[j].user != u by {
                        let b = if j < idx { j } else { j + 1 };
                        assert(rs[j] == ms[b]);
                    }
                    lemma_find_user_absent(rs, u, 0);
                } else {
                    match find_user(ms, u, 0) {
                        Some(k) => {
                            lemma_find_user_some(ms, u, 0);
                            let k2: nat = if k < idx { k } else { (k - 1) as nat };
                            assert(rs[k2 as int] == ms[k as int]);
                            assert forall|j: int| 0 <= j < k2 implies rs[j].user != u by {
                                let b = if j < idx { j } else { j + 1 };
                                assert(rs[j] == ms[b]);
                            }
                            lemma_find_user_at(rs, u, 0, k2);
                        },
                        None => {
                            lemma_find_user_none(ms, u, 0);
                            assert forall|j: int| 0 <= j < rs.len() implies rs[j].user != u by {
                                let b = if j < idx { j } else { j + 1 };
                                assert(rs[j] == ms[b]);
                            }
                            lemma_find_user_absent(rs, u, 0);
                        },
                    }
                }
            }
        }
        let mut ms = self.members_copy();
        ms.remove(idx);
        self.members = ms;
    }

    /// Whether `user` may post into the community: in a closed group any
    /// member, in a public page only moderators.
    pub fn can_post(&self, user: UserId) -> (r: bool)
        ensures
            r == may_post(self@, user),
    {
        match self.role_of(user) {
            None => false,
            Some(role) => match self.kind {
                GroupKind::Closed => true,
                GroupKind::Public => role.can_moderate(),
            },
        }
    }

    /// The right to post, as a result: [`CommunityError::NotPermitted`] where
    /// `user` may not post.
    pub fn authorize_post(&self, user: UserId) -> (r: Result<(), CommunityError>)
        ensures
            r is Ok <==> may_post(self@, user),
            r is Err ==> r == Err::<(), CommunityError>(CommunityError::NotPermitted),
    {
        if self.can_post(user) {
            Ok(())
        } else {
            Err(CommunityError::NotPermitted)
        }
    }

    /// Whether a viewer may read: anyone a public page, members a closed group.
    pub fn allows_read(&self, viewer: Option<UserId>) -> (r: bool)
        ensures
            r == (match self@.kind {
                GroupKind::Public => true,
                GroupKind::Closed => viewer matches Some(u) && role_in(self@.members, u) is Some,
            }),
    {
        match self.kind {
            GroupKind::Public => true,
            GroupKind::Closed => match viewer {
                Some(u) => self.is_member(u),
                None => false,
            },
        }
    }

    /// Position of `user` among the members, if a member.
    fn position_of(&self, user: UserId) -> (r: Option<usize>)
        ensures
            match r {
                Some(i) => {
                    &&& find_user(self@.members, user, 0) == Some(i as nat)
                    &&& i < self@.members.len()
                    &&& self@.members[i as int].user == user
                },
                None => find_user(self@.members, user, 0) is None,
            },
    {
        proof {
            if find_user(self@.members, user, 0) is Some {
                lemma_find_user_some(self@.members, user, 0);
            }
        }
        let mut i: usize = 0;
        while i < self.members.len()
            invariant
                i <= self@.members.len(),
                find_user(self@.members, user, 0) == find_user(self@.members, user, i as nat),
            decreases self@.members.len() - i,
        {
            if self.members[i].user == user {
                return Some(i);
            }
            i = i + 1;
        }
        None
    }

    /// The user's role in the community, if a member.
    pub fn role_of(&self, user: UserId) -> (r: Option<MembershipRole>)
        ensures
            r == role_in(self@.members, user),
    {
        match self.position_of(user) {
            Some(i) => {
                proof {
                    lemma_find_user_some(self@.members, user, 0);
                }
                Some(self.members[i].role)
            },
            None => None,
        }
    }

    pub fn is_member(&self, user: UserId) -> (r: bool)
        ensures
            r == (role_in(self@.members, user) is Some),
    {
        self.role_of(user).is_some()
    }

    pub fn member_count(&self) -> (r: usize)
        ensures
            r == self@.members.len(),
    {
        self.members.len()
    }

    fn owner_count(&self) -> (r: usize)
        ensures
            r == owner_count(self@.members),
    {
        let mut count: usize = 0;
        let mut i: usize = 0;
        while i < self.members.len()
            invariant
                i <= self@.members.len(),
                count == owner_count(self@.members.take(i as int)),
                count <= i,
            decreases self@.members.len() - i,
        {
            proof {
                assert(self@.members.take(i + 1).drop_last() =~= self@.members.take(i as int));
            }
            if self.members[i].role == MembershipRole::Owner {
                count = count + 1;
            }
            i = i + 1;
        }
        proof {
            assert(self@.members.take(i as int) =~= self@.members);
        }
        count
    }

    fn require_moderator(&self, actor: UserId) -> (r: Result<(), CommunityError>)
        ensures
            r is Ok <==> moderates(self@.members, actor),
            r is Err ==> r == Err::<(), CommunityError>(CommunityError::NotPermitted),
    {
        match self.role_of(actor) {
            Some(role) => {
                if role.can_moderate() {
                    Ok(())
                } else {
                    Err(CommunityError::NotPermitted)
                }
            },
            None => Err(CommunityError::NotPermitted),
        }
    }

    pub fn id(&self) -> (r: GroupId)
        ensures
            r == self@.id,
    {
        self.id
    }

    pub fn slug(&self) -> (r: &GroupSlug)
        ensures
            r@ == self@.slug,
    {
        &self.slug
    }

    pub fn name(&self) -> (r: &GroupName)
        ensures
            r@ == self@.name,
    {
        &self.name
    }

    pub fn kind(&self) -> (r: GroupKind)
        ensures
            r == self@.kind,
    {
        self.kind
    }

    pub fn members(&self) -> (r: &[Membership])
        ensures
            r@ == self@.members,
    {
        self.members.as_slice()
    }

    pub fn created_at(&self) -> (r: Timestamp)
        ensures
            r == self@.created_at,
    {
        self.created_at
    }
}

impl From<GroupFounded> for CommunityEvent {
    fn from(event: GroupFounded) -> (r: Self) {
        CommunityEvent::GroupFounded(event)
    }
}

impl FromSpecImpl<GroupFounded> for CommunityEvent {
    open spec fn obeys_from_spec() -> bool {
        true
    }

    open spec fn from_spec(event: GroupFounded) -> Self {
        CommunityEvent::GroupFounded(event)
    }
}

impl From<MemberJoined> for CommunityEvent {
    fn from(event: MemberJoined) -> (r: Self) {
        CommunityEvent::MemberJoined(event)
    }
}

impl FromSpecImpl<MemberJoined> for CommunityEvent {
    open spec fn obeys_from_spec() -> bool {
        true
    }

    open spec fn from_spec(event: MemberJoined) -> Self {
        CommunityEvent::MemberJoined(event)
    }
}

impl From<MemberRoleChanged> for CommunityEvent {
    fn from(event: MemberRoleChanged) -> (r: Self) {
        CommunityEvent::MemberRoleChanged(event)
    }
}

impl FromSpecImpl<MemberRoleChanged> for CommunityEvent {
    open spec fn obeys_from_spec() -> bool {
        true
    }

    open spec fn from_spec(event: MemberRoleChanged) -> Self {
        CommunityEvent::MemberRoleChanged(event)
    }
}

impl From<MemberRemoved> for CommunityEvent {
    fn from(event: MemberRemoved) -> (r: Self) {
        CommunityEvent::MemberRemoved(event)
    }
}

impl FromSpecImpl<MemberRemoved> for CommunityEvent {
    open spec fn obeys_from_spec() -> bool {
        true
    }

    open spec fn from_spec(event: MemberRemoved) -> Self {
        CommunityEvent::MemberRemoved(event)
    }
}

impl From<MemberLeft> for CommunityEvent {
    fn from(event: MemberLeft) -> (r: Self) {
        CommunityEvent::MemberLeft(event)
    }
}

impl FromSpecImpl<MemberLeft> for CommunityEvent {
    open spec fn obeys_from_spec() -> bool {
        true
    }

    open spec fn from_spec(event: MemberLeft) -> Self {
        CommunityEvent::MemberLeft(event)
    }
}

/// Law: well-formed members (the invariant that every community keeps, from
/// its founding through every change of membership) include an owner.
pub proof fn law_members_have_owner(ms: Seq<Membership>)
    requires
        members_wf(ms),
    ensures
        exists|i: int| 0 <= i < ms.len() && (#[trigger] ms[i]).role is Owner,
{
    lemma_owner_exists(ms);
}

/// Law: who may post into a community. Nobody who is not a member; in a
/// closed group every member; in a public page its owners and moderators, and
/// not its plain members.
pub proof fn law_post_rights(g: GroupView, u: UserId)
    ensures
        role_in(g.members, u) is None ==> !may_post(g, u),
        g.kind is Closed && role_in(g.members, u) is Some ==> may_post(g, u),
        g.kind is Public && role_in(g.members, u) == Some(MembershipRole::Owner) ==> may_post(g, u),
        g.kind is Public && role_in(g.members, u) == Some(MembershipRole::Moderator) ==> may_post(
            g,
            u,
        ),
        g.kind is Public && role_in(g.members, u) == Some(MembershipRole::Member) ==> !may_post(
            g,
            u,
        ),
{
}

/// Law: owners and moderators manage the members. Adding or removing someone
/// is refused as not permitted exactly when the actor is neither an owner nor
/// a moderator of the community (a plain member or an outsider); and a
/// moderator may add any outsider as a plain member or a moderator.
pub proof fn law_moderators_manage_members(
    g: GroupView,
    actor: UserId,
    user: UserId,
    role: MembershipRole,
)
    ensures
        (add_member_error(g, actor, user, role) == Some(CommunityError::NotPermitted)) <==> !(
        role_in(g.members, actor) == Some(MembershipRole::Owner) || role_in(g.members, actor)
            == Some(MembershipRole::Moderator)),
        (remove_member_error(g, actor, user) == Some(CommunityError::NotPermitted)) <==> !(
        role_in(g.members, actor) == Some(MembershipRole::Owner) || role_in(g.members, actor)
            == Some(MembershipRole::Moderator)),
        role_in(g.members, actor) == Some(MembershipRole::Moderator) && role_in(g.members, user)
            is None && !(role is Owner) ==> add_member_error(g, actor, user, role) is None,
{
}

/// Law: only an owner changes roles, and moderators and plain members are
/// refused as not permitted; a user joins by themself exactly a public page
/// they are not yet a member of.
pub proof fn law_roles_and_joining(g: GroupView, actor: UserId, target: UserId, role: MembershipRole)
    ensures
        (set_role_error(g, actor, target, role) == Some(CommunityError::NotPermitted)) <==> role_in(
            g.members,
            actor,
        ) != Some(MembershipRole::Owner),
        (join_error(g, actor) is None) <==> (g.kind is Public && role_in(g.members, actor) is None),
        g.kind is Closed ==> join_error(g, actor) == Some(CommunityError::JoinNotAllowed),
{
}

/// Law: the kind of a community is read back from the text it is written as.
pub proof fn law_kind_text_roundtrip(kind: GroupKind)
    ensures
        GroupKind::spec_parse(kind.spec_as_str()) == Ok::<GroupKind, GroupKindError>(kind),
{
    reveal_strlit("closed");
    reveal_strlit("public");
    lemma_lower_trim_plain(kind.spec_as_str());
}

/// Law: a member's role is read back from the text it is written as.
pub proof fn law_role_text_roundtrip(role: MembershipRole)
    ensures
        MembershipRole::spec_parse(role.spec_as_str()) == Ok::<MembershipRole, MembershipRoleError>(role),
{
    reveal_strlit("owner");
    reveal_strlit("moderator");
    reveal_strlit("member");
    lemma_lower_trim_plain(role.spec_as_str());
}

/// Law: a normalized slug parses back to itself, so that parsing is
/// idempotent (what is stored is what loading reads).
pub proof fn law_slug_parse_idempotent(input: Seq<char>)
    requires
        GroupSlug::spec_parse(input) is Ok,
    ensures
        GroupSlug::spec_parse(GroupSlug::spec_parse(input)->Ok_0) == GroupSlug::spec_parse(input),
{
    let n = lower_seq(trim_seq(input));
    lemma_slug_is_normal(n);
}

/// Law: a parsed community name parses to itself, so that the text that is stored is
/// what loading reads back.
pub proof fn law_group_name_parse_idempotent(input: Seq<char>)
    requires
        GroupName::spec_parse(input) is Ok,
    ensures
        GroupName::spec_parse(GroupName::spec_parse(input)->Ok_0) == GroupName::spec_parse(input),
{
    lemma_trim_idempotent(input);
}

impl GroupNameError {
    /// The text of the error, as a reader sees it.
    pub open spec fn spec_message(self) -> Seq<char> {
        match self {
            GroupNameError::Empty => "название пустое"@,
            GroupNameError::TooLong { len } => "название слишком длинное: "@
                + decimal_seq(len as nat)
                + " символов"@,
            GroupNameError::ControlChar => "название содержит управляющие символы"@,
        }
    }

    /// The text of the error, as a reader sees it.
    pub fn message(&self) -> (r: String)
        ensures
            r@ == self.spec_message(),
    {
        match self {
            GroupNameError::Empty => "название пустое".to_owned(),
            GroupNameError::TooLong { len } => {
                let mut s = "название слишком длинное: ".to_owned();
                s.push_str(decimal(*len as u128).as_str());
                s.push_str(" символов");
                s
            },
            GroupNameError::ControlChar => "название содержит управляющие символы".to_owned(),
        }
    }
}

impl GroupSlugError {
    /// The text of the error, as a reader sees it.
    pub open spec fn spec_message(self) -> Seq<char> {
        match self {
            GroupSlugError::Empty => "слаг пустой"@,
            GroupSlugError::TooShort { len } => "слаг слишком короткий: "@
                + decimal_seq(len as nat)
                + " символов"@,
            GroupSlugError::TooLong { len } => "слаг слишком длинный: "@
                + decimal_seq(len as nat)
                + " символов"@,
            GroupSlugError::InvalidStart => "слаг должен начинаться с латинской буквы"@,
            GroupSlugError::InvalidChar(c) => "недопустимый символ в слаге: "@ + spec_char_debug(c),
        }
    }

    /// The text of the error, as a reader sees it.
    pub fn message(&self) -> (r: String)
        ensures
            r@ == self.spec_message(),
    {
        match self {
            GroupSlugError::Empty => "слаг пустой".to_owned(),
            GroupSlugError::TooShort { len } => {
                let mut s = "слаг слишком короткий: ".to_owned();
                s.push_str(decimal(*len as u128).as_str());
                s.push_str(" символов");
                s
            },
            GroupSlugError::TooLong { len } => {
                let mut s = "слаг слишком длинный: ".to_owned();
                s.push_str(decimal(*len as u128).as_str());
                s.push_str(" символов");
                s
            },
            GroupSlugError::InvalidStart => "слаг должен начинаться с латинской буквы".to_owned(),
            GroupSlugError::InvalidChar(c) => {
                let mut s = "недопустимый символ в слаге: ".to_owned();
                s.push_str(char_debug(*c).as_str());
                s
            },
        }
    }
}

impl GroupKindError {
    /// The text of the error, as a reader sees it.
    pub open spec fn spec_message(self) -> Seq<char> {
        "неизвестный тип сообщества"@
    }

    /// The text of the error, as a reader sees it.
    pub fn message(&self) -> (r: String)
        ensures
            r@ == self.spec_message(),
    {
        "неизвестный тип сообщества".to_owned()
    }
}

impl MembershipRoleError {
    /// The text of the error, as a reader sees it.
    pub open spec fn spec_message(self) -> Seq<char> {
        "неизвестная роль участника"@
    }

    /// The text of the error, as a reader sees it.
    pub fn message(&self) -> (r: String)
        ensures
            r@ == self.spec_message(),
    {
        "неизвестная роль участника".to_owned()
    }
}

impl CommunityError {
    /// The text of the error, as a reader sees it.
    pub open spec fn spec_message(self) -> Seq<char> {
        match self {
            CommunityError::JoinNotAllowed => "в эту группу нельзя вступить самостоятельно"@,
            CommunityError::AlreadyMember => "уже участник сообщества"@,
            CommunityError::NotPermitted => "действие требует прав модератора"@,
            CommunityError::CannotAssignOwner => "владельца нельзя назначить этим действием"@,
            CommunityError::TargetNotMember => "цель не участник сообщества"@,
            CommunityError::CannotRemoveOwner => "нельзя убрать владельца сообщества"@,
            CommunityError::SoleOwner => "нельзя оставить сообщество без владельца"@,
            CommunityError::NotMember => "не участник сообщества"@,
        }
    }

    /// The text of the error, as a reader sees it.
    pub fn message(&self) -> (r: String)
        ensures
            r@ == self.spec_message(),
    {
        match self {
            CommunityError::JoinNotAllowed => "в эту группу нельзя вступить самостоятельно".to_owned(),
            CommunityError::AlreadyMember => "уже участник сообщества".to_owned(),
            CommunityError::NotPermitted => "действие требует прав модератора".to_owned(),
            CommunityError::CannotAssignOwner => "владельца нельзя назначить этим действием".to_owned(),
            CommunityError::TargetNotMember => "цель не участник сообщества".to_owned(),
            CommunityError::CannotRemoveOwner => "нельзя убрать владельца сообщества".to_owned(),
            CommunityError::SoleOwner => "нельзя оставить сообщество без владельца".to_owned(),
            CommunityError::NotMember => "не участник сообщества".to_owned(),
        }
    }
}

} // verus!
