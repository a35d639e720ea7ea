//! The rows of verification requests.

use vstd::prelude::*;

use crate::domain::identity::UserId;
use crate::domain::verification::{
    note_view, reason_view, DecisionReason, DecisionReasonError, DecisionRecord, RequestNote,
    RequestNoteError, RequestStatus, VerificationRequest, VerificationRequestView,
};
use crate::domain::RepositoryError;
use crate::infrastructure::records::identity::unavailable_with;
use crate::infrastructure::records::marketplace::opt_view;
use crate::shared::id::{lemma_id_view_injective, lemma_spec_from_uuid, Id};
use crate::shared::time::Timestamp;
use crate::text::str_eq;

verus! {

broadcast use {lemma_id_view_injective, lemma_spec_from_uuid};

/// The message of a corrupt request row.
pub open spec fn corrupt_request_text(what: Seq<char>) -> Seq<char> {
    "повреждённая заявка верификации: "@ + what
}

/// A request row is corrupt: `what` says which part.
pub fn corrupt(what: &str) -> (r: RepositoryError)
    ensures
        r matches RepositoryError::Unavailable(m) && m@ == corrupt_request_text(what@),
{
    unavailable_with("повреждённая заявка верификации: ", what)
}

/// A stored status, if it is known.
pub open spec fn spec_request_status(raw: Seq<char>) -> Option<RequestStatus> {
    if raw == "pending"@ {
        Some(RequestStatus::Pending)
    } else if raw == "approved"@ {
        Some(RequestStatus::Approved)
    } else if raw == "rejected"@ {
        Some(RequestStatus::Rejected)
    } else {
        None
    }
}

/// A stored status, or a failure that names the unknown text.
pub fn parse_status(raw: &str) -> (r: Result<RequestStatus, RepositoryError>)
    ensures
        match spec_request_status(raw@) {
            Some(s) => r == Ok::<RequestStatus, RepositoryError>(s),
            None => r matches Err(RepositoryError::Unavailable(m)) && m@ == corrupt_request_text(
                "неизвестный статус "@ + raw@,
            ),
        },
{
    if str_eq(raw, "pending") {
        Ok(RequestStatus::Pending)
    } else if str_eq(raw, "approved") {
        Ok(RequestStatus::Approved)
    } else if str_eq(raw, "rejected") {
        Ok(RequestStatus::Rejected)
    } else {
        let mut what = String::new();
        what.push_str("неизвестный статус ");
        what.push_str(raw);
        Err(corrupt(what.as_str()))
    }
}

/// Which part of a stored request is corrupt, if one is, in the order checked.
pub open spec fn request_fault(note: Option<Seq<char>>, reason: Option<Seq<char>>, status: Seq<char>) -> Option<Seq<char>> {
    if note matches Some(n) && RequestNote::spec_parse(n) is Err {
        Some("записка"@)
    } else if reason matches Some(t) && DecisionReason::spec_parse(t) is Err {
        Some("причина"@)
    } else if spec_request_status(status) is None {
        Some("неизвестный статус "@ + status)
    } else {
        None
    }
}

/// What an optional stored text parses to.
pub open spec fn parsed_note(note: Option<Seq<char>>) -> Option<Seq<char>> {
    match note {
        Some(n) => Some(RequestNote::spec_parse(n)->Ok_0),
        None => None,
    }
}

/// What an optional stored reason parses to.
pub open spec fn parsed_reason(reason: Option<Seq<char>>) -> Option<Seq<char>> {
    match reason {
        Some(t) => Some(DecisionReason::spec_parse(t)->Ok_0),
        None => None,
    }
}

/// A request row, rebuilt through the domain. A decision exists exactly when
/// the row has a decision moment: that moment is never cleared, while the
/// deciding admin may be (their deletion sets it to none), and the decision
/// stays.
pub fn reconstitute_request(
    id: u128,
    requester: u128,
    status: String,
    note: Option<String>,
    decided_by: Option<u128>,
    decision_reason: Option<String>,
    created_at: Timestamp,
    decided_at: Option<Timestamp>,
) -> (r: Result<VerificationRequest, RepositoryError>)
    ensures
        match request_fault(opt_view(note), opt_view(decision_reason), status@) {
            Some(what) => r matches Err(RepositoryError::Unavailable(m)) && m@ == corrupt_request_text(what),
            None => r matches Ok(req) && req@ == (VerificationRequestView {
                id: Id::spec_from_uuid(id),
                requester: Id::spec_from_uuid(requester),
                status: spec_request_status(status@)->0,
                note: parsed_note(opt_view(note)),
                decided_by: if decided_at is Some {
                    match decided_by {
                        Some(by) => Some(Id::spec_from_uuid(by)),
                        None => None,
                    }
                } else {
                    None
                },
                decision_reason: if decided_at is Some {
                    parsed_reason(opt_view(decision_reason))
                } else {
                    None
                },
                created_at,
                decided_at,
            }),
        },
{
    let note = match note {
        Some(n) => match RequestNote::parse(n.as_str()) {
            Ok(v) => Some(v),
            Err(_) => return Err(corrupt("записка")),
        },
        None => None,
    };
    let reason = match decision_reason {
        Some(t) => match DecisionReason::parse(t.as_str()) {
            Ok(v) => Some(v),
            Err(_) => return Err(corrupt("причина")),
        },
        None => None,
    };
    let by: Option<UserId> = match decided_by {
        Some(u) => Some(Id::from_uuid(u)),
        None => None,
    };
    let decision = match decided_at {
        Some(at) => Some(DecisionRecord { by, reason, at }),
        None => None,
    };
    let status = parse_status(status.as_str())?;
    Ok(VerificationRequest::reconstitute(Id::from_uuid(id), Id::from_uuid(requester), status, note, decision, created_at))
}

/// Law: a status is read back from the text it is stored as.
pub proof fn law_request_status_roundtrip(status: RequestStatus)
    ensures
        spec_request_status(status.spec_as_str()) == Some(status),
{
    reveal_strlit("pending");
    reveal_strlit("approved");
    reveal_strlit("rejected");
    assert("pending"@[0] != "approved"@[0]);
    assert("pending"@[0] != "rejected"@[0]);
    assert("approved"@[0] != "rejected"@[0]);
}

/// Law: a request is read back from the row it is stored as. Its texts were
/// parsed and parse to themselves, its status is stored by name, and a
/// request without a decision moment has no deciding admin and no reason (as
/// the domain keeps it); so the row has no fault and reads back as the same
/// request.
pub proof fn law_request_store_roundtrip(r: VerificationRequestView)
    requires
        r.note matches Some(n) ==> RequestNote::spec_parse(n) == Ok::<Seq<char>, RequestNoteError>(n),
        r.decision_reason matches Some(t) ==> DecisionReason::spec_parse(t) == Ok::<
            Seq<char>,
            DecisionReasonError,
        >(t),
        r.decided_at is None ==> r.decided_by is None && r.decision_reason is None,
    ensures
        request_fault(r.note, r.decision_reason, r.status.spec_as_str()) is None,
        (VerificationRequestView {
            id: Id::spec_from_uuid(r.id@),
            requester: Id::spec_from_uuid(r.requester@),
            status: spec_request_status(r.status.spec_as_str())->0,
            note: parsed_note(r.note),
            decided_by: if r.decided_at is Some {
                match r.decided_by {
                    Some(by) => Some(Id::spec_from_uuid(by@)),
                    None => None,
                }
            } else {
                None
            },
            decision_reason: if r.decided_at is Some {
                parsed_reason(r.decision_reason)
            } else {
                None
            },
            created_at: r.created_at,
            decided_at: r.decided_at,
        }) == r,
{
    law_request_status_roundtrip(r.status);
}

} // verus!
