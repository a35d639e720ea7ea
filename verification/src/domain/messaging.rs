//! The messaging context: direct messages between two participants, open to
//! everyone without verification. Group messages belong to communities.

use vstd::prelude::*;
use vstd::std_specs::convert::FromSpecImpl;

use crate::domain::identity::UserId;
use crate::shared::id::{lemma_id_view_injective, Id};
use crate::shared::time::Timestamp;
use crate::text::{
    check_text, decimal, decimal_seq, lemma_trim_idempotent, text_fault, trim_seq, view_outcome,
    TextFault,
};

verus! {

broadcast use lemma_id_view_injective;

/// Body of a message: 1..=4000 characters after trimming.
#[derive(Debug, PartialEq, Eq)]
pub struct MessageBody(String);

impl View for MessageBody {
    type V = Seq<char>;

    closed spec fn view(&self) -> Seq<char> {
        self.0@
    }
}

impl Clone for MessageBody {
    fn clone(&self) -> (r: Self)
        ensures
            r@ == self@,
    {
        MessageBody(self.0.clone())
    }
}

/// A breach of the [`MessageBody`] rules.
#[derive(Debug, Clone, PartialEq, Eq, Structural)]
pub enum MessageBodyError {
    Empty,
    TooLong { len: usize },
}

impl MessageBody {
    /// Maximum length, in characters.
    pub const MAX_LEN: usize = 4000;

    /// What [`MessageBody::parse`] gives for a text: the trimmed text, or why it is
    /// refused.
    pub open spec fn spec_parse(input: Seq<char>) -> Result<Seq<char>, MessageBodyError> {
        match text_fault(input, 4000) {
            Some(TextFault::Empty) => Err(MessageBodyError::Empty),
            Some(TextFault::TooLong(len)) => Err(MessageBodyError::TooLong { len }),
            None => Ok(trim_seq(input)),
        }
    }

    /// Parse: trimmed, 1..=`MAX_LEN` characters.
    pub fn parse(input: &str) -> (r: Result<Self, MessageBodyError>)
        ensures
            view_outcome(r) == Self::spec_parse(input@),
    {
        match check_text(input, Self::MAX_LEN) {
            Ok(t) => Ok(MessageBody(t.to_owned())),
            Err(TextFault::Empty) => Err(MessageBodyError::Empty),
            Err(TextFault::TooLong(len)) => Err(MessageBodyError::TooLong { len }),
        }
    }

    /// The text.
    pub fn as_str(&self) -> (r: &str)
        ensures
            r@ == self@,
    {
        self.0.as_str()
    }
}

/// Marker of the typed [`ConversationId`].
#[derive(Debug, Clone, Copy, PartialEq, Eq, Hash)]
pub struct ConversationMarker;

/// Identifier of a conversation.
pub type ConversationId = Id<ConversationMarker>;

/// Marker of the typed [`MessageId`].
#[derive(Debug, Clone, Copy, PartialEq, Eq, Hash)]
pub struct MessageMarker;

/// Identifier of a message.
pub type MessageId = Id<MessageMarker>;

/// The canonical order of a pair of participants: the smaller UUID first.
pub open spec fn canonical_pair(a: UserId, b: UserId) -> (UserId, UserId) {
    if a@ <= b@ {
        (a, b)
    } else {
        (b, a)
    }
}

/// The participants' pair is canonical whatever order they come in: `(a, b)`
/// and `(b, a)` open the same conversation.
pub proof fn law_canonical_pair_symmetric(a: UserId, b: UserId)
    ensures
        canonical_pair(a, b) == canonical_pair(b, a),
{
    if a@ == b@ {
        assert(a == b);
    }
}

/// What a conversation is, in mathematical terms.
pub struct ConversationView {
    pub id: ConversationId,
    pub lower: UserId,
    pub higher: UserId,
    pub opened_at: Timestamp,
}

/// A conversation of two participants: the root of the messaging aggregate.
/// The pair is kept in canonical order, so `(a, b)` and `(b, a)` are one
/// conversation.
#[derive(Debug, Clone, PartialEq, Eq)]
pub struct Conversation {
    id: ConversationId,
    lower: UserId,
    higher: UserId,
    opened_at: Timestamp,
}

impl View for Conversation {
    type V = ConversationView;

    closed spec fn view(&self) -> ConversationView {
        ConversationView {
            id: self.id,
            lower: self.lower,
            higher: self.higher,
            opened_at: self.opened_at,
        }
    }
}

/// What a message is, in mathematical terms.
pub struct MessageView {
    pub id: MessageId,
    pub conversation: ConversationId,
    pub author: UserId,
    pub body: Seq<char>,
    pub sent_at: Timestamp,
}

/// A message in a conversation. Made only by [`Conversation::send`].
#[derive(Debug, Clone, PartialEq, Eq)]
pub struct Message {
    id: MessageId,
    conversation: ConversationId,
    author: UserId,
    body: MessageBody,
    sent_at: Timestamp,
}

impl View for Message {
    type V = MessageView;

    closed spec fn view(&self) -> MessageView {
        MessageView {
            id: self.id,
            conversation: self.conversation,
            author: self.author,
            body: self.body@,
            sent_at: self.sent_at,
        }
    }
}

/// A breach of the messaging rules.
#[derive(Debug, Clone, PartialEq, Eq, Structural)]
pub enum MessagingError {
    SelfConversation,
    NotParticipant,
}

/// A conversation was opened.
#[derive(Debug, Clone, Copy, PartialEq, Eq)]
pub struct ConversationOpened {
    pub conversation: ConversationId,
    pub participants: (UserId, UserId),
    pub opened_at: Timestamp,
}

/// A message was sent.
#[derive(Debug, Clone, PartialEq, Eq)]
pub struct MessageSent {
    pub message_id: MessageId,
    pub conversation: ConversationId,
    pub author: UserId,
    pub sent_at: Timestamp,
}

/// A domain event of the messaging context.
#[derive(Debug, Clone, PartialEq, Eq)]
pub enum MessagingEvent {
    ConversationOpened(ConversationOpened),
    MessageSent(MessageSent),
}

impl From<ConversationOpened> for MessagingEvent {
    fn from(event: ConversationOpened) -> (r: Self) {
        MessagingEvent::ConversationOpened(event)
    }
}

impl FromSpecImpl<ConversationOpened> for MessagingEvent {
    open spec fn obeys_from_spec() -> bool {
        true
    }

    open spec fn from_spec(event: ConversationOpened) -> Self {
        MessagingEvent::ConversationOpened(event)
    }
}

impl From<MessageSent> for MessagingEvent {
    fn from(event: MessageSent) -> (r: Self) {
        MessagingEvent::MessageSent(event)
    }
}

impl FromSpecImpl<MessageSent> for MessagingEvent {
    open spec fn obeys_from_spec() -> bool {
        true
    }

    open spec fn from_spec(event: MessageSent) -> Self {
        MessagingEvent::MessageSent(event)
    }
}

impl Conversation {
    /// Open a conversation between `a` and `b`; not with oneself.
    pub fn open(id: ConversationId, a: UserId, b: UserId, now: Timestamp) -> (r: Result<(Self, ConversationOpened), MessagingError>)
        ensures
            match r {
                Ok((conversation, event)) => {
                    &&& a != b
                    &&& conversation@ == (ConversationView {
                        id,
                        lower: canonical_pair(a, b).0,
                        higher: canonical_pair(a, b).1,
                        opened_at: now,
                    })
                    &&& event.conversation == id
                    &&& event.participants == canonical_pair(a, b)
                    &&& event.opened_at == now
                },
                Err(e) => a == b && e == MessagingError::SelfConversation,
            },
    {
        if a == b {
            return Err(MessagingError::SelfConversation);
        }
        let (lower, higher) = Self::canonical(a, b);
        let conversation = Conversation { id, lower, higher, opened_at: now };
        let event = ConversationOpened { conversation: id, participants: (lower, higher), opened_at: now };
        Ok((conversation, event))
    }

    /// Send a message into the conversation. The author must be a participant:
    /// the one invariant of writing a message.
    pub fn send(&self, author: UserId, body: MessageBody, message_id: MessageId, now: Timestamp) -> (r: Result<(Message, MessageSent), MessagingError>)
        ensures
            match r {
                Ok((message, event)) => {
                    &&& (author == self@.lower || author == self@.higher)
                    &&& message@ == (MessageView {
                        id: message_id,
                        conversation: self@.id,
                        author,
                        body: body@,
                        sent_at: now,
                    })
                    &&& event == (MessageSent {
                        message_id,
                        conversation: self@.id,
                        author,
                        sent_at: now,
                    })
                },
                Err(e) => {
                    &&& author != self@.lower
                    &&& author != self@.higher
                    &&& e == MessagingError::NotParticipant
                },
            },
    {
        if !self.has_participant(author) {
            return Err(MessagingError::NotParticipant);
        }
        let message = Message { id: message_id, conversation: self.id, author, body, sent_at: now };
        let event = MessageSent { message_id, conversation: self.id, author, sent_at: now };
        Ok((message, event))
    }

    fn canonical(a: UserId, b: UserId) -> (r: (UserId, UserId))
        ensures
            r == canonical_pair(a, b),
    {
        if a.as_uuid() <= b.as_uuid() {
            (a, b)
        } else {
            (b, a)
        }
    }

    /// Whether the user takes part in the conversation.
    pub fn has_participant(&self, user: UserId) -> (r: bool)
        ensures
            r == (user == self@.lower || user == self@.higher),
    {
        self.lower == user || self.higher == user
    }

    /// The other participant, seen from `user` (if `user` takes part).
    pub fn counterpart(&self, user: UserId) -> (r: Option<UserId>)
        ensures
            r == (if user == self@.lower {
                Some(self@.higher)
            } else if user == self@.higher {
                Some(self@.lower)
            } else {
                None::<UserId>
            }),
    {
        if user == self.lower {
            Some(self.higher)
        } else if user == self.higher {
            Some(self.lower)
        } else {
            None
        }
    }

    pub fn id(&self) -> (r: ConversationId)
        ensures
            r == self@.id,
    {
        self.id
    }

    /// The canonical pair of participants (the smaller UUID first).
    pub fn participants(&self) -> (r: (UserId, UserId))
        ensures
            r == (self@.lower, self@.higher),
    {
        (self.lower, self.higher)
    }

    pub fn opened_at(&self) -> (r: Timestamp)
        ensures
            r == self@.opened_at,
    {
        self.opened_at
    }
}

impl Message {
    pub fn id(&self) -> (r: MessageId)
        ensures
            r == self@.id,
    {
        self.id
    }

    pub fn conversation(&self) -> (r: ConversationId)
        ensures
            r == self@.conversation,
    {
        self.conversation
    }

    pub fn author(&self) -> (r: UserId)
        ensures
            r == self@.author,
    {
        self.author
    }

    pub fn body(&self) -> (r: &MessageBody)
        ensures
            r@ == self@.body,
    {
        &self.body
    }

    pub fn sent_at(&self) -> (r: Timestamp)
        ensures
            r == self@.sent_at,
    {
        self.sent_at
    }
}

/// Law: a parsed message body parses to itself, so that the text that is stored is
/// what loading reads back.
pub proof fn law_message_body_parse_idempotent(input: Seq<char>)
    requires
        MessageBody::spec_parse(input) is Ok,
    ensures
        MessageBody::spec_parse(MessageBody::spec_parse(input)->Ok_0) == MessageBody::spec_parse(input),
{
    lemma_trim_idempotent(input);
}

impl MessageBodyError {
    /// The text of the error, as a reader sees it.
    pub open spec fn spec_message(self) -> Seq<char> {
        match self {
            MessageBodyError::Empty => "сообщение пустое"@,
            MessageBodyError::TooLong { len } => "сообщение слишком длинное: "@
                + decimal_seq(len as nat)
                + " символов"@,
        }
    }

    /// The text of the error, as a reader sees it.
    pub fn message(&self) -> (r: String)
        ensures
            r@ == self.spec_message(),
    {
        match self {
            MessageBodyError::Empty => "сообщение пустое".to_owned(),
            MessageBodyError::TooLong { len } => {
                let mut s = "сообщение слишком длинное: ".to_owned();
                s.push_str(decimal(*len as u128).as_str());
                s.push_str(" символов");
                s
            },
        }
    }
}

impl MessagingError {
    /// The text of the error, as a reader sees it.
    pub open spec fn spec_message(self) -> Seq<char> {
        match self {
            MessagingError::SelfConversation => "нельзя открыть диалог с самим собой"@,
            MessagingError::NotParticipant => "автор не участник диалога"@,
        }
    }

    /// The text of the error, as a reader sees it.
    pub fn message(&self) -> (r: String)
        ensures
            r@ == self.spec_message(),
    {
        match self {
            MessagingError::SelfConversation => "нельзя открыть диалог с самим собой".to_owned(),
            MessagingError::NotParticipant => "автор не участник диалога".to_owned(),
        }
    }
}

} // verus!
