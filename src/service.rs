use crate::codec::{pair_list_json, string_list_json};
use crate::store::{
    document_bytes, stored_messages, stored_tokens, Message, MessageStore, StorageError,
    TokenStore,
};
use crate::token::{generate_token, is_token};
use vstd::prelude::*;

verus! {

/// Why a pairing request was not answered with a token.
#[derive(Debug, PartialEq, Eq, Structural)]
pub enum PairingError {
    /// The token set could not be read or written.
    StorageFailure,
}

/// Why a submitted message was not accepted.
#[derive(Debug, Clone, Copy, PartialEq, Eq, Structural)]
pub enum IngestError {
    /// The body is not a well-formed envelope.
    MalformedInput,
    /// The claimed token is not issued, or the token set could not be read.
    AuthorizationFailure,
    /// The message was authorized but could not be recorded.
    StorageFailure,
}

/// The bytes to write back after issuing `token` on top of the document `doc`.
pub open spec fn token_document_after(doc: Option<Seq<u8>>, token: Seq<char>) -> Seq<u8> {
    string_list_json(stored_tokens(doc).push(token))
}

/// Adds `token` to the token set read from the backing document `doc` and
/// returns the new document, to be written back whole before `token` is handed
/// out. Fails only where the document could not be read.
pub fn issue_token(token: String, doc: Result<Option<Vec<u8>>, StorageError>) -> (r: Result<
    Vec<u8>,
    PairingError,
>)
    ensures
        doc is Err ==> r == Err::<Vec<u8>, PairingError>(PairingError::StorageFailure),
        doc matches Ok(d) ==> (r matches Ok(b) && b@ == token_document_after(
            document_bytes(d),
            token@,
        ) && stored_tokens(Some(b@)) == stored_tokens(document_bytes(d)).push(token@)),
        r matches Ok(b) ==> authorizes(Some(b@), token@),
{
    match doc {
        Err(_) => Err(PairingError::StorageFailure),
        Ok(d) => {
            let mut store = TokenStore::from_document(d);
            store.append(token);
            let ghost tokens = store@;
            let b = store.to_document();
            assert(tokens[tokens.len() - 1] == token@);
            Ok(b)
        },
    }
}

/// Draws a fresh token and adds it to the token set read from `doc`. Returns
/// the token and the new document, which must be written back before the token
/// is answered (see `pairing_response`); fails only where `doc` could not be
/// read.
pub fn pair(doc: Result<Option<Vec<u8>>, StorageError>) -> (r: Result<
    (String, Vec<u8>),
    PairingError,
>)
    ensures
        doc is Err ==> r == Err::<(String, Vec<u8>), PairingError>(PairingError::StorageFailure),
        doc is Ok ==> r is Ok,
        r matches Ok((t, b)) ==> {
            &&& is_token(t@)
            &&& doc matches Ok(d)
            &&& b@ == token_document_after(document_bytes(d), t@)
            &&& stored_tokens(Some(b@)) == stored_tokens(document_bytes(d)).push(t@)
            &&& authorizes(Some(b@), t@)
        },
{
    let token = generate_token();
    let answer = token.clone();
    match issue_token(token, doc) {
        Ok(b) => Ok((answer, b)),
        Err(e) => Err(e),
    }
}

/// The answer to a pairing request once the new token set has been written:
/// the token where the write succeeded, and a storage failure otherwise, so
/// that no token leaves before it is stored.
pub fn pairing_response(token: String, written: Result<(), StorageError>) -> (r: Result<
    String,
    PairingError,
>)
    ensures
        written is Ok ==> (r matches Ok(t) && t@ == token@),
        written is Err ==> r == Err::<String, PairingError>(PairingError::StorageFailure),
{
    match written {
        Ok(()) => Ok(token),
        Err(_) => Err(PairingError::StorageFailure),
    }
}

/// Where the handling of one submitted message stands.
pub enum IngestState {
    /// The body has arrived and is being parsed.
    Received,
    /// The body is a well-formed envelope; its token is being checked.
    Parsed { message: Message },
    /// The token is issued; the message log is being read.
    Authorized { message: Message },
    /// The extended message log is being written.
    Storing,
    /// Handling is over, with this outcome.
    Done { outcome: Result<(), IngestError> },
}

/// What the caller observed while carrying out the last action.
pub enum IngestEvent {
    /// The body was parsed into an envelope, or was not well-formed (`None`).
    BodyParsed { message: Option<Message> },
    /// The token set's backing document was read (`None`: there is none).
    TokensRead { document: Result<Option<Vec<u8>>, StorageError> },
    /// The message log's backing document was read (`None`: there is none).
    MessagesRead { document: Result<Option<Vec<u8>>, StorageError> },
    /// The new message log was written, or writing it failed.
    MessagesWritten { result: Result<(), StorageError> },
}

/// What the caller is to do next.
pub enum IngestAction {
    ReadTokens,
    ReadMessages,
    /// Replace the message log's backing document with these bytes.
    WriteMessages { document: Vec<u8> },
    /// Answer the submitter.
    Respond { outcome: Result<(), IngestError> },
}

/// The event that `state` waits for: each step of handling a message takes
/// the outcome of the action it asked for.
pub open spec fn awaits(state: IngestState, event: IngestEvent) -> bool {
    match state {
        IngestState::Received => event is BodyParsed,
        IngestState::Parsed { .. } => event is TokensRead,
        IngestState::Authorized { .. } => event is MessagesRead,
        IngestState::Storing => event is MessagesWritten,
        IngestState::Done { .. } => false,
    }
}

/// Whether `claimed` is among the tokens of the document `doc`.
pub open spec fn authorizes(doc: Option<Seq<u8>>, claimed: Seq<char>) -> bool {
    stored_tokens(doc).contains(claimed)
}

/// The bytes to write back after recording `message` on top of the message
/// log document `doc`.
pub open spec fn message_document_after(
    doc: Option<Seq<u8>>,
    message: (Seq<char>, Seq<char>),
) -> Seq<u8> {
    pair_list_json(stored_messages(doc).push(message))
}

/// The last state with the answer that goes with it.
pub open spec fn finished(
    r: (IngestState, IngestAction),
    outcome: Result<(), IngestError>,
) -> bool {
    &&& r.0 == IngestState::Done { outcome }
    &&& r.1 == IngestAction::Respond { outcome }
}

impl IngestState {
    /// Whether `event` is the one this state waits for.
    pub fn awaits_event(&self, event: &IngestEvent) -> (r: bool)
        ensures
            r == awaits(*self, *event),
    {
        match self {
            IngestState::Received => matches!(event, IngestEvent::BodyParsed { .. }),
            IngestState::Parsed { .. } => matches!(event, IngestEvent::TokensRead { .. }),
            IngestState::Authorized { .. } => matches!(event, IngestEvent::MessagesRead { .. }),
            IngestState::Storing => matches!(event, IngestEvent::MessagesWritten { .. }),
            IngestState::Done { .. } => false,
        }
    }

    /// Takes one step of handling a message, strictly in the order parse,
    /// authorize, record: a malformed body fails before any token is looked at,
    /// and an unknown token fails before the log is touched.
    pub fn step(self, event: IngestEvent) -> (r: (IngestState, IngestAction))
        requires
            awaits(self, event),
        ensures
            self is Received ==> match event {
                IngestEvent::BodyParsed { message: None } => finished(
                    r,
                    Err(IngestError::MalformedInput),
                ),
                IngestEvent::BodyParsed { message: Some(m) } => r.0 == (IngestState::Parsed {
                    message: m,
                }) && r.1 is ReadTokens,
                _ => false,
            },
            self matches IngestState::Parsed { message } ==> match event {
                IngestEvent::TokensRead { document: Err(_) } => finished(
                    r,
                    Err(IngestError::AuthorizationFailure),
                ),
                IngestEvent::TokensRead { document: Ok(d) } => if authorizes(
                    document_bytes(d),
                    message.token@,
                ) {
                    r.0 == (IngestState::Authorized { message }) && r.1 is ReadMessages
                } else {
                    finished(r, Err(IngestError::AuthorizationFailure))
                },
                _ => false,
            },
            self matches IngestState::Authorized { message } ==> match event {
                IngestEvent::MessagesRead { document: Err(_) } => finished(
                    r,
                    Err(IngestError::StorageFailure),
                ),
                IngestEvent::MessagesRead { document: Ok(d) } => {
                    &&& r.0 is Storing
                    &&& r.1 matches IngestAction::WriteMessages { document }
                    &&& document@ == message_document_after(document_bytes(d), message@)
                    &&& stored_messages(Some(document@)) == stored_messages(
                        document_bytes(d),
                    ).push(message@)
                },
                _ => false,
            },
            self is Storing ==> match event {
                IngestEvent::MessagesWritten { result: Ok(()) } => finished(r, Ok(())),
                IngestEvent::MessagesWritten { result: Err(_) } => finished(
                    r,
                    Err(IngestError::StorageFailure),
                ),
                _ => false,
            },
    {
        match (self, event) {
            (IngestState::Received, IngestEvent::BodyParsed { message }) => match message {
                None => {
                    let outcome = Err(IngestError::MalformedInput);
                    (IngestState::Done { outcome }, IngestAction::Respond { outcome })
                },
                Some(m) => (IngestState::Parsed { message: m }, IngestAction::ReadTokens),
            },
            (IngestState::Parsed { message }, IngestEvent::TokensRead { document }) => {
                match document {
                    Err(_) => {
                        let outcome = Err(IngestError::AuthorizationFailure);
                        (IngestState::Done { outcome }, IngestAction::Respond { outcome })
                    },
                    Ok(d) => {
                        let tokens = TokenStore::from_document(d);
                        if tokens.contains(&message.token) {
                            (IngestState::Authorized { message }, IngestAction::ReadMessages)
                        } else {
                            let outcome = Err(IngestError::AuthorizationFailure);
                            (IngestState::Done { outcome }, IngestAction::Respond { outcome })
                        }
                    },
                }
            },
            (IngestState::Authorized { message }, IngestEvent::MessagesRead { document }) => {
                match document {
                    Err(_) => {
                        let outcome = Err(IngestError::StorageFailure);
                        (IngestState::Done { outcome }, IngestAction::Respond { outcome })
                    },
                    Ok(d) => {
                        let mut log = MessageStore::from_document(d);
                        log.append(message);
                        (IngestState::Storing, IngestAction::WriteMessages {
                            document: log.to_document(),
                        })
                    },
                }
            },
            (IngestState::Storing, IngestEvent::MessagesWritten { result }) => match result {
                Ok(()) => (IngestState::Done { outcome: Ok(()) }, IngestAction::Respond {
                    outcome: Ok(()),
                }),
                Err(_) => {
                    let outcome = Err(IngestError::StorageFailure);
                    (IngestState::Done { outcome }, IngestAction::Respond { outcome })
                },
            },
            _ => {
                proof {
                    assert(false);
                }
                (IngestState::Done { outcome: Ok(()) }, IngestAction::Respond { outcome: Ok(()) })
            },
        }
    }
}

} // verus!
