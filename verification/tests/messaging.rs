use babangida::domain::identity::UserId;
use babangida::domain::messaging::{Conversation, MessageBody, MessageBodyError, MessagingError};
use babangida::shared::id::Id;
use babangida::shared::time::Timestamp;

fn uid() -> UserId {
    Id::generate()
}

fn body(text: &str) -> MessageBody {
    MessageBody::parse(text).expect("valid body")
}

#[test]
fn message_body_trims_and_limits() {
    assert_eq!(MessageBody::parse("  йоу  ").unwrap().as_str(), "йоу");
    assert_eq!(MessageBody::parse("   "), Err(MessageBodyError::Empty));
    assert!(matches!(MessageBody::parse(&"a".repeat(4001)), Err(MessageBodyError::TooLong { len: 4001 })));
}

#[test]
fn open_rejects_self_conversation() {
    let me = uid();
    assert_eq!(
        Conversation::open(Id::generate(), me, me, Timestamp::now()).unwrap_err(),
        MessagingError::SelfConversation
    );
}

#[test]
fn open_canonicalizes_participants_order() {
    let now = Timestamp::now();
    let a = uid();
    let b = uid();
    let (ab, _) = Conversation::open(Id::generate(), a, b, now).unwrap();
    let (ba, _) = Conversation::open(Id::generate(), b, a, now).unwrap();
    assert_eq!(ab.participants(), ba.participants());
    assert!(ab.has_participant(a) && ab.has_participant(b));
}

#[test]
fn send_by_participant_produces_message_and_event() {
    let now = Timestamp::now();
    let a = uid();
    let b = uid();
    let (conv, _) = Conversation::open(Id::generate(), a, b, now).unwrap();
    let (message, event) = conv.send(a, body("здарова"), Id::generate(), now).expect("a participant may write");
    assert_eq!(message.author(), a);
    assert_eq!(message.conversation(), conv.id());
    assert_eq!(event.author, a);
    assert_eq!(conv.counterpart(a), Some(b));
}

#[test]
fn send_by_outsider_is_rejected() {
    let now = Timestamp::now();
    let (conv, _) = Conversation::open(Id::generate(), uid(), uid(), now).unwrap();
    let outsider = uid();
    assert_eq!(
        conv.send(outsider, body("вброс"), Id::generate(), now).unwrap_err(),
        MessagingError::NotParticipant
    );
    assert_eq!(conv.counterpart(outsider), None);
}
