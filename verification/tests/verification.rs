use babangida::domain::verification::{
    DecisionReason, DecisionReasonError, RequestNote, RequestNoteError, RequestStatus,
    VerificationError, VerificationRequest,
};
use babangida::shared::id::Id;
use babangida::shared::time::Timestamp;

fn open() -> VerificationRequest {
    VerificationRequest::open(
        Id::generate(),
        Id::generate(),
        Some(RequestNote::parse("залил три релиза, торгую битами").unwrap()),
        Timestamp::now(),
    )
    .0
}

#[test]
fn note_and_reason_validate() {
    assert_eq!(RequestNote::parse("   "), Err(RequestNoteError::Empty));
    assert!(matches!(RequestNote::parse(&"x".repeat(501)), Err(RequestNoteError::TooLong { .. })));
    assert_eq!(DecisionReason::parse(""), Err(DecisionReasonError::Empty));
    assert_eq!(RequestNote::parse(" ok ").unwrap().as_str(), "ok");
}

#[test]
fn opened_request_is_pending() {
    let req = open();
    assert_eq!(req.status(), RequestStatus::Pending);
    assert!(req.decided_by().is_none());
    assert!(req.decided_at().is_none());
}

#[test]
fn approve_transitions_and_records_admin() {
    let mut req = open();
    let admin = Id::generate();
    let event = req.approve(admin, None, Timestamp::now()).expect("a pending request can be approved");
    assert_eq!(req.status(), RequestStatus::Approved);
    assert_eq!(req.decided_by(), Some(admin));
    assert!(req.decided_at().is_some());
    assert_eq!(event.requester, req.requester());
    assert_eq!(event.by, admin);
}

#[test]
fn reject_records_reason() {
    let mut req = open();
    let admin = Id::generate();
    let reason = DecisionReason::parse("аккаунт слишком новый").unwrap();
    req.reject(admin, Some(reason.clone()), Timestamp::now()).expect("a pending request can be rejected");
    assert_eq!(req.status(), RequestStatus::Rejected);
    assert_eq!(req.decision_reason(), Some(&reason));
}

#[test]
fn cannot_decide_twice() {
    let mut req = open();
    req.approve(Id::generate(), None, Timestamp::now()).unwrap();
    assert_eq!(req.approve(Id::generate(), None, Timestamp::now()).unwrap_err(), VerificationError::AlreadyDecided);
    assert_eq!(req.reject(Id::generate(), None, Timestamp::now()).unwrap_err(), VerificationError::AlreadyDecided);
}

#[test]
fn rejected_cannot_be_approved() {
    let mut req = open();
    req.reject(Id::generate(), None, Timestamp::now()).unwrap();
    assert_eq!(req.approve(Id::generate(), None, Timestamp::now()).unwrap_err(), VerificationError::AlreadyDecided);
}
