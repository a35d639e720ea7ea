//! The verification context: the process of getting verified. The status
//! itself lives on the user; this context owns only the process: a request,
//! an admin's review, approval or refusal.
//!
//! The state machine of a request is a domain invariant (approve and reject
//! only from `Pending`). Who may review (an admin) and who may apply (not yet
//! verified, no open request) is decided by the application.

use vstd::prelude::*;

use crate::domain::identity::UserId;
use crate::shared::id::Id;
use crate::shared::time::Timestamp;
use crate::text::{
    check_text, decimal, decimal_seq, lemma_trim_idempotent, text_fault, trim_seq, view_outcome,
    TextFault,
};

verus! {

/// A note to a request (why to verify: links to tracks and the like). Optional on the aggregate; where given, not empty and at most 500 characters.
#[derive(Debug, PartialEq, Eq)]
pub struct RequestNote(String);

impl View for RequestNote {
    type V = Seq<char>;

    closed spec fn view(&self) -> Seq<char> {
        self.0@
    }
}

impl Clone for RequestNote {
    fn clone(&self) -> (r: Self)
        ensures
            r@ == self@,
    {
        RequestNote(self.0.clone())
    }
}

/// A breach of the [`RequestNote`] rules.
#[derive(Debug, Clone, PartialEq, Eq, Structural)]
pub enum RequestNoteError {
    Empty,
    TooLong { len: usize },
}

impl RequestNote {
    /// Maximum length, in characters.
    pub const MAX_LEN: usize = 500;

    /// What [`RequestNote::parse`] gives for a text: the trimmed text, or why it is
    /// refused.
    pub open spec fn spec_parse(input: Seq<char>) -> Result<Seq<char>, RequestNoteError> {
        match text_fault(input, 500) {
            Some(TextFault::Empty) => Err(RequestNoteError::Empty),
            Some(TextFault::TooLong(len)) => Err(RequestNoteError::TooLong { len }),
            None => Ok(trim_seq(input)),
        }
    }

    /// Parse: trimmed, 1..=`MAX_LEN` characters.
    pub fn parse(input: &str) -> (r: Result<Self, RequestNoteError>)
        ensures
            view_outcome(r) == Self::spec_parse(input@),
    {
        match check_text(input, Self::MAX_LEN) {
            Ok(t) => Ok(RequestNote(t.to_owned())),
            Err(TextFault::Empty) => Err(RequestNoteError::Empty),
            Err(TextFault::TooLong(len)) => Err(RequestNoteError::TooLong { len }),
        }
    }

    /// The text.
    pub fn as_str(&self) -> (r: &str)
        ensures
            r@ == self@,
    {
        self.0.as_str()
    }
}

/// The reason of an admin's decision (above all of a refusal). The rules of [`RequestNote`].
#[derive(Debug, PartialEq, Eq)]
pub struct DecisionReason(String);

impl View for DecisionReason {
    type V = Seq<char>;

    closed spec fn view(&self) -> Seq<char> {
        self.0@
    }
}

impl Clone for DecisionReason {
    fn clone(&self) -> (r: Self)
        ensures
            r@ == self@,
    {
        DecisionReason(self.0.clone())
    }
}

/// A breach of the [`DecisionReason`] rules.
#[derive(Debug, Clone, PartialEq, Eq, Structural)]
pub enum DecisionReasonError {
    Empty,
    TooLong { len: usize },
}

impl DecisionReason {
    /// Maximum length, in characters.
    pub const MAX_LEN: usize = 500;

    /// What [`DecisionReason::parse`] gives for a text: the trimmed text, or why it is
    /// refused.
    pub open spec fn spec_parse(input: Seq<char>) -> Result<Seq<char>, DecisionReasonError> {
        match text_fault(input, 500) {
            Some(TextFault::Empty) => Err(DecisionReasonError::Empty),
            Some(TextFault::TooLong(len)) => Err(DecisionReasonError::TooLong { len }),
            None => Ok(trim_seq(input)),
        }
    }

    /// Parse: trimmed, 1..=`MAX_LEN` characters.
    pub fn parse(input: &str) -> (r: Result<Self, DecisionReasonError>)
        ensures
            view_outcome(r) == Self::spec_parse(input@),
    {
        match check_text(input, Self::MAX_LEN) {
            Ok(t) => Ok(DecisionReason(t.to_owned())),
            Err(TextFault::Empty) => Err(DecisionReasonError::Empty),
            Err(TextFault::TooLong(len)) => Err(DecisionReasonError::TooLong { len }),
        }
    }

    /// The text.
    pub fn as_str(&self) -> (r: &str)
        ensures
            r@ == self@,
    {
        self.0.as_str()
    }
}

/// Status of a verification request.
#[derive(Debug, Clone, Copy, PartialEq, Eq, Structural)]
pub enum RequestStatus {
    /// Waiting for an admin.
    Pending,
    /// Approved: the user is verified.
    Approved,
    /// Rejected: a new request may be filed.
    Rejected,
}

impl RequestStatus {
    /// Whether it waits for review (and so may be approved or rejected).
    pub fn is_pending(self) -> (r: bool)
        ensures
            r == (self is Pending),
    {
        match self {
            RequestStatus::Pending => true,
            _ => false,
        }
    }

    pub open spec fn spec_as_str(self) -> Seq<char> {
        match self {
            RequestStatus::Pending => "pending"@,
            RequestStatus::Approved => "approved"@,
            RequestStatus::Rejected => "rejected"@,
        }
    }

    /// The canonical text.
    pub fn as_str(self) -> (r: &'static str)
        ensures
            r@ == self.spec_as_str(),
    {
        match self {
            RequestStatus::Pending => "pending",
            RequestStatus::Approved => "approved",
            RequestStatus::Rejected => "rejected",
        }
    }
}

/// Marker of the typed [`VerificationRequestId`].
#[derive(Debug, Clone, Copy, PartialEq, Eq, Hash)]
pub struct VerificationRequestMarker;

/// Identifier of a verification request.
pub type VerificationRequestId = Id<VerificationRequestMarker>;

/// The view of an optional note.
pub open spec fn note_view(n: Option<RequestNote>) -> Option<Seq<char>> {
    match n {
        Some(v) => Some(v@),
        None => None,
    }
}

/// The view of an optional reason.
pub open spec fn reason_view(n: Option<DecisionReason>) -> Option<Seq<char>> {
    match n {
        Some(v) => Some(v@),
        None => None,
    }
}

/// What a verification request is, in mathematical terms.
pub struct VerificationRequestView {
    pub id: VerificationRequestId,
    pub requester: UserId,
    pub status: RequestStatus,
    pub note: Option<Seq<char>>,
    pub decided_by: Option<UserId>,
    pub decision_reason: Option<Seq<char>>,
    pub created_at: Timestamp,
    pub decided_at: Option<Timestamp>,
}

/// A verification request: the root of the verification aggregate. Its life:
/// `Pending` to `Approved` or `Rejected`. The final states do not change
/// (a second decision is [`VerificationError::AlreadyDecided`]).
#[derive(Debug, Clone, PartialEq, Eq)]
pub struct VerificationRequest {
    id: VerificationRequestId,
    requester: UserId,
    status: RequestStatus,
    note: Option<RequestNote>,
    decided_by: Option<UserId>,
    decision_reason: Option<DecisionReason>,
    created_at: Timestamp,
    decided_at: Option<Timestamp>,
}

impl View for VerificationRequest {
    type V = VerificationRequestView;

    closed spec fn view(&self) -> VerificationRequestView {
        VerificationRequestView {
            id: self.id,
            requester: self.requester,
            status: self.status,
            note: note_view(self.note),
            decided_by: self.decided_by,
            decision_reason: reason_view(self.decision_reason),
            created_at: self.created_at,
            decided_at: self.decided_at,
        }
    }
}

/// The record of a decision (who, why, when), for rebuilding from storage.
/// `by` is optional: where the deciding admin was later deleted, the fact of
/// the decision stays and only the reference to its author is lost.
#[derive(Debug, Clone)]
pub struct DecisionRecord {
    pub by: Option<UserId>,
    pub reason: Option<DecisionReason>,
    pub at: Timestamp,
}

/// Event: a verification request was filed.
#[derive(Debug, Clone)]
pub struct VerificationRequested {
    pub request: VerificationRequestId,
    pub requester: UserId,
}

/// Event: a request was approved (the user becomes verified).
#[derive(Debug, Clone)]
pub struct VerificationApproved {
    pub request: VerificationRequestId,
    pub requester: UserId,
    pub by: UserId,
}

/// Event: a request was rejected.
#[derive(Debug, Clone)]
pub struct VerificationRejected {
    pub request: VerificationRequestId,
    pub requester: UserId,
    pub by: UserId,
}

/// A breach of the verification rules.
#[derive(Debug, Clone, PartialEq, Eq, Structural)]
pub enum VerificationError {
    /// The request is already decided: a second decision is refused.
    AlreadyDecided,
}

/// A request after a decision of `admin` with `reason` at `now`.
pub open spec fn decided(req: VerificationRequestView, status: RequestStatus, admin: UserId, reason: Option<Seq<char>>, now: Timestamp) -> VerificationRequestView {
    VerificationRequestView {
        status,
        decided_by: Some(admin),
        decision_reason: reason,
        decided_at: Some(now),
        ..req
    }
}

impl VerificationRequest {
    /// Open a request (always `Pending`).
    pub fn open(id: VerificationRequestId, requester: UserId, note: Option<RequestNote>, now: Timestamp) -> (r: (Self, VerificationRequested))
        ensures
            r.0@ == (VerificationRequestView {
                id,
                requester,
                status: RequestStatus::Pending,
                note: note_view(note),
                decided_by: None,
                decision_reason: None,
                created_at: now,
                decided_at: None,
            }),
            r.1.request == id,
            r.1.requester == requester,
    {
        let request = VerificationRequest {
            id,
            requester,
            status: RequestStatus::Pending,
            note,
            decided_by: None,
            decision_reason: None,
            created_at: now,
            decided_at: None,
        };
        let event = VerificationRequested { request: id, requester };
        (request, event)
    }

    /// Approve the request (only from `Pending`).
    pub fn approve(&mut self, admin: UserId, reason: Option<DecisionReason>, now: Timestamp) -> (r: Result<VerificationApproved, VerificationError>)
        ensures
            match r {
                Ok(event) => {
                    &&& old(self)@.status is Pending
                    &&& final(self)@ == decided(old(self)@, RequestStatus::Approved, admin, reason_view(reason), now)
                    &&& event.request == old(self)@.id
                    &&& event.requester == old(self)@.requester
                    &&& event.by == admin
                },
                Err(e) => {
                    &&& !(old(self)@.status is Pending)
                    &&& e == VerificationError::AlreadyDecided
                    &&& final(self)@ == old(self)@
                },
            },
    {
        self.require_pending()?;
        self.status = RequestStatus::Approved;
        self.decided_by = Some(admin);
        self.decision_reason = reason;
        self.decided_at = Some(now);
        Ok(VerificationApproved { request: self.id, requester: self.requester, by: admin })
    }

    /// Reject the request (only from `Pending`). After a refusal the user may
    /// file a new one.
    pub fn reject(&mut self, admin: UserId, reason: Option<DecisionReason>, now: Timestamp) -> (r: Result<VerificationRejected, VerificationError>)
        ensures
            match r {
                Ok(event) => {
                    &&& old(self)@.status is Pending
                    &&& final(self)@ == decided(old(self)@, RequestStatus::Rejected, admin, reason_view(reason), now)
                    &&& event.request == old(self)@.id
                    &&& event.requester == old(self)@.requester
                    &&& event.by == admin
                },
                Err(e) => {
                    &&& !(old(self)@.status is Pending)
                    &&& e == VerificationError::AlreadyDecided
                    &&& final(self)@ == old(self)@
                },
            },
    {
        self.require_pending()?;
        self.status = RequestStatus::Rejected;
        self.decided_by = Some(admin);
        self.decision_reason = reason;
        self.decided_at = Some(now);
        Ok(VerificationRejected { request: self.id, requester: self.requester, by: admin })
    }

    /// Rebuild the aggregate from storage. The decision comes as one record:
    /// `Some` for a decided request, `None` for a pending one.
    pub fn reconstitute(id: VerificationRequestId, requester: UserId, status: RequestStatus, note: Option<RequestNote>, decision: Option<DecisionRecord>, created_at: Timestamp) -> (r: Self)
        ensures
            r@ == (match decision {
                Some(d) => VerificationRequestView {
                    id,
                    requester,
                    status,
                    note: note_view(note),
                    decided_by: d.by,
                    decision_reason: reason_view(d.reason),
                    created_at,
                    decided_at: Some(d.at),
                },
                None => VerificationRequestView {
                    id,
                    requester,
                    status,
                    note: note_view(note),
                    decided_by: None,
                    decision_reason: None,
                    created_at,
                    decided_at: None,
                },
            }),
    {
        let (decided_by, decision_reason, decided_at) = match decision {
            Some(d) => (d.by, d.reason, Some(d.at)),
            None => (None, None, None),
        };
        VerificationRequest {
            id,
            requester,
            status,
            note,
            decided_by,
            decision_reason,
            created_at,
            decided_at,
        }
    }

    fn require_pending(&self) -> (r: Result<(), VerificationError>)
        ensures
            r is Ok <==> self@.status is Pending,
            r is Err ==> r == Err::<(), VerificationError>(VerificationError::AlreadyDecided),
    {
        if self.status.is_pending() {
            Ok(())
        } else {
            Err(VerificationError::AlreadyDecided)
        }
    }

    pub fn id(&self) -> (r: VerificationRequestId)
        ensures
            r == self@.id,
    {
        self.id
    }

    pub fn requester(&self) -> (r: UserId)
        ensures
            r == self@.requester,
    {
        self.requester
    }

    pub fn status(&self) -> (r: RequestStatus)
        ensures
            r == self@.status,
    {
        self.status
    }

    pub fn note(&self) -> (r: Option<&RequestNote>)
        ensures
            match r {
                Some(n) => self@.note == Some(n@),
                None => self@.note is None,
            },
    {
        match &self.note {
            Some(n) => Some(n),
            None => None,
        }
    }

    pub fn decided_by(&self) -> (r: Option<UserId>)
        ensures
            r == self@.decided_by,
    {
        self.decided_by
    }

    pub fn decision_reason(&self) -> (r: Option<&DecisionReason>)
        ensures
            match r {
                Some(n) => self@.decision_reason == Some(n@),
                None => self@.decision_reason is None,
            },
    {
        match &self.decision_reason {
            Some(n) => Some(n),
            None => None,
        }
    }

    pub fn created_at(&self) -> (r: Timestamp)
        ensures
            r == self@.created_at,
    {
        self.created_at
    }

    pub fn decided_at(&self) -> (r: Option<Timestamp>)
        ensures
            r == self@.decided_at,
    {
        self.decided_at
    }
}

/// Law: a decision is final. A decided request is no longer pending, so that
/// a second decision, approval or rejection, is refused as `AlreadyDecided`.
pub proof fn law_decision_is_final(
    req: VerificationRequestView,
    status: RequestStatus,
    admin: UserId,
    reason: Option<Seq<char>>,
    now: Timestamp,
)
    requires
        !(status is Pending),
    ensures
        !(decided(req, status, admin, reason, now).status is Pending),
{
}

/// Law: a parsed request note parses to itself, so that the text that is stored is
/// what loading reads back.
pub proof fn law_request_note_parse_idempotent(input: Seq<char>)
    requires
        RequestNote::spec_parse(input) is Ok,
    ensures
        RequestNote::spec_parse(RequestNote::spec_parse(input)->Ok_0) == RequestNote::spec_parse(input),
{
    lemma_trim_idempotent(input);
}

/// Law: a parsed decision reason parses to itself, so that the text that is stored is
/// what loading reads back.
pub proof fn law_decision_reason_parse_idempotent(input: Seq<char>)
    requires
        DecisionReason::spec_parse(input) is Ok,
    ensures
        DecisionReason::spec_parse(DecisionReason::spec_parse(input)->Ok_0) == DecisionReason::spec_parse(input),
{
    lemma_trim_idempotent(input);
}

impl RequestNoteError {
    /// The text of the error, as a reader sees it.
    pub open spec fn spec_message(self) -> Seq<char> {
        match self {
            RequestNoteError::Empty => "записка заявки пустая"@,
            RequestNoteError::TooLong { len } => "записка заявки слишком длинная: "@
                + decimal_seq(len as nat)
                + " символов (максимум 500)"@,
        }
    }

    /// The text of the error, as a reader sees it.
    pub fn message(&self) -> (r: String)
        ensures
            r@ == self.spec_message(),
    {
        match self {
            RequestNoteError::Empty => "записка заявки пустая".to_owned(),
            RequestNoteError::TooLong { len } => {
                let mut s = "записка заявки слишком длинная: ".to_owned();
                s.push_str(decimal(*len as u128).as_str());
                s.push_str(" символов (максимум 500)");
                s
            },
        }
    }
}

impl DecisionReasonError {
    /// The text of the error, as a reader sees it.
    pub open spec fn spec_message(self) -> Seq<char> {
        match self {
            DecisionReasonError::Empty => "причина решения пустая"@,
            DecisionReasonError::TooLong { len } => "причина решения слишком длинная: "@
                + decimal_seq(len as nat)
                + " символов (максимум 500)"@,
        }
    }

    /// The text of the error, as a reader sees it.
    pub fn message(&self) -> (r: String)
        ensures
            r@ == self.spec_message(),
    {
        match self {
            DecisionReasonError::Empty => "причина решения пустая".to_owned(),
            DecisionReasonError::TooLong { len } => {
                let mut s = "причина решения слишком длинная: ".to_owned();
                s.push_str(decimal(*len as u128).as_str());
                s.push_str(" символов (максимум 500)");
                s
            },
        }
    }
}

impl VerificationError {
    /// The text of the error, as a reader sees it.
    pub open spec fn spec_message(self) -> Seq<char> {
        match self {
            VerificationError::AlreadyDecided => "заявка на верификацию уже рассмотрена"@,
        }
    }

    /// The text of the error, as a reader sees it.
    pub fn message(&self) -> (r: String)
        ensures
            r@ == self.spec_message(),
    {
        match self {
            VerificationError::AlreadyDecided => "заявка на верификацию уже рассмотрена".to_owned(),
        }
    }
}

} // verus!
