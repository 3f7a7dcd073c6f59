use pairing_relay::service::{
    issue_token, pair, pairing_response, IngestAction, IngestError, IngestEvent, IngestState,
    PairingError,
};
use pairing_relay::store::{Message, MessageStore, StorageError, TokenStore};
use pairing_relay::{generate_token, TOKEN_LEN};

fn message(token: &str, payload: &str) -> Message {
    Message { token: token.to_string(), payload: payload.to_string() }
}

/// Runs one submission through the ingest steps against in-memory documents.
fn submit(
    body: Option<Message>,
    tokens_doc: &Option<Vec<u8>>,
    messages_doc: &mut Option<Vec<u8>>,
) -> Result<(), IngestError> {
    let mut state = IngestState::Received;
    let mut event = IngestEvent::BodyParsed { message: body };
    loop {
        assert!(state.awaits_event(&event));
        let (next, action) = state.step(event);
        state = next;
        event = match action {
            IngestAction::ReadTokens => IngestEvent::TokensRead { document: Ok(tokens_doc.clone()) },
            IngestAction::ReadMessages => {
                IngestEvent::MessagesRead { document: Ok(messages_doc.clone()) }
            }
            IngestAction::WriteMessages { document } => {
                *messages_doc = Some(document);
                IngestEvent::MessagesWritten { result: Ok(()) }
            }
            IngestAction::Respond { outcome } => return outcome,
        };
    }
}

#[test]
fn generated_token_is_seven_alphanumerics() {
    for _ in 0..100 {
        let t = generate_token();
        assert_eq!(t.len(), TOKEN_LEN);
        assert_eq!(t.chars().count(), 7);
        assert!(t.chars().all(|c| c.is_ascii_alphanumeric()));
    }
}

#[test]
fn generated_tokens_differ() {
    assert_ne!(generate_token(), generate_token());
}

#[test]
fn token_store_reads_missing_empty_and_corrupt_as_empty() {
    assert_eq!(TokenStore::from_document(None).len(), 0);
    assert_eq!(TokenStore::from_document(Some(Vec::new())).len(), 0);
    assert_eq!(TokenStore::from_document(Some(b"not json".to_vec())).len(), 0);
    assert_eq!(TokenStore::from_document(Some(b"{\"a\":1}".to_vec())).len(), 0);
}

#[test]
fn token_store_reads_a_list() {
    let s = TokenStore::from_document(Some(b"[\"Ab12xY9\",\"q\"]".to_vec()));
    assert_eq!(s.len(), 2);
    assert!(s.contains(&"Ab12xY9".to_string()));
    assert!(s.contains(&"q".to_string()));
    assert!(!s.contains(&"ZZZZZZZ".to_string()));
}

#[test]
fn token_store_document_is_a_json_array() {
    let mut s = TokenStore::new();
    s.append("Ab12xY9".to_string());
    s.append("b".to_string());
    assert_eq!(s.to_document(), b"[\"Ab12xY9\",\"b\"]".to_vec());
    assert_eq!(TokenStore::new().to_document(), b"[]".to_vec());
}

#[test]
fn token_store_round_trip() {
    let tokens = ["t1", "t2", "t3", "t\"4\\"];
    let mut s = TokenStore::new();
    for t in tokens.iter() {
        s.append(t.to_string());
    }
    let back = TokenStore::from_document(Some(s.to_document()));
    assert_eq!(back.len(), tokens.len());
    for t in tokens.iter() {
        assert!(back.contains(&t.to_string()));
    }
    assert!(!back.contains(&"t5".to_string()));
}

#[test]
fn message_store_reads_missing_empty_and_corrupt_as_empty() {
    assert_eq!(MessageStore::from_document(None).len(), 0);
    assert_eq!(MessageStore::from_document(Some(Vec::new())).len(), 0);
    assert_eq!(MessageStore::from_document(Some(b"[1,2".to_vec())).len(), 0);
}

#[test]
fn message_store_keeps_earlier_messages_in_order() {
    let mut log = MessageStore::new();
    log.append(message("a", "one"));
    log.append(message("b", "two"));
    let doc = log.to_document();
    assert_eq!(doc, b"[[\"a\",\"one\"],[\"b\",\"two\"]]".to_vec());
    let mut back = MessageStore::from_document(Some(doc));
    back.append(message("c", "three"));
    assert_eq!(back.len(), 3);
    assert_eq!(back.payload(0), "one");
    assert_eq!(back.payload(1), "two");
    assert_eq!(back.payload(2), "three");
    assert_eq!(back.token(0), "a");
    assert_eq!(back.token(2), "c");
}

#[test]
fn issue_token_writes_the_extended_set() {
    let doc = issue_token("Ab12xY9".to_string(), Ok(None)).unwrap();
    assert_eq!(doc, b"[\"Ab12xY9\"]".to_vec());
    let doc = issue_token("second1".to_string(), Ok(Some(doc))).unwrap();
    assert_eq!(doc, b"[\"Ab12xY9\",\"second1\"]".to_vec());
    let doc = issue_token("x".to_string(), Ok(Some(b"garbage".to_vec()))).unwrap();
    assert_eq!(doc, b"[\"x\"]".to_vec());
}

#[test]
fn issue_token_fails_when_the_set_cannot_be_read() {
    assert_eq!(issue_token("Ab12xY9".to_string(), Err(StorageError)), Err(PairingError::StorageFailure));
    assert!(pair(Err(StorageError)).is_err());
}

#[test]
fn paired_token_is_authorized_at_once() {
    let (token, doc) = pair(Ok(None)).unwrap();
    assert_eq!(token.len(), 7);
    let tokens_doc = Some(doc);
    let mut log = None;
    assert_eq!(submit(Some(message(&token, "hi")), &tokens_doc, &mut log), Ok(()));
}

#[test]
fn pairing_response_waits_for_the_write() {
    assert_eq!(pairing_response("Ab12xY9".to_string(), Ok(())), Ok("Ab12xY9".to_string()));
    assert_eq!(
        pairing_response("Ab12xY9".to_string(), Err(StorageError)),
        Err(PairingError::StorageFailure)
    );
}

#[test]
fn unknown_token_on_missing_or_empty_set_is_unauthorized() {
    let mut log = None;
    assert_eq!(
        submit(Some(message("Ab12xY9", "x")), &None, &mut log),
        Err(IngestError::AuthorizationFailure)
    );
    assert_eq!(
        submit(Some(message("Ab12xY9", "x")), &Some(Vec::new()), &mut log),
        Err(IngestError::AuthorizationFailure)
    );
    assert!(log.is_none());
}

#[test]
fn pair_submit_scenario() {
    let tokens_doc = Some(issue_token("Ab12xY9".to_string(), Ok(None)).unwrap());
    let mut log = None;
    assert_eq!(submit(Some(message("Ab12xY9", "hello")), &tokens_doc, &mut log), Ok(()));
    let stored = MessageStore::from_document(log.clone());
    assert_eq!(stored.len(), 1);
    assert_eq!(stored.payload(0), "hello");
    assert_eq!(
        submit(Some(message("ZZZZZZZ", "x")), &tokens_doc, &mut log),
        Err(IngestError::AuthorizationFailure)
    );
    assert_eq!(MessageStore::from_document(log.clone()).len(), 1);
    assert_eq!(submit(None, &tokens_doc, &mut log), Err(IngestError::MalformedInput));
    assert_eq!(MessageStore::from_document(log.clone()).len(), 1);
}

#[test]
fn malformed_body_fails_before_authorization() {
    let mut state = IngestState::Received;
    let (next, action) = state.step(IngestEvent::BodyParsed { message: None });
    state = next;
    assert!(matches!(action, IngestAction::Respond { outcome: Err(IngestError::MalformedInput) }));
    assert!(matches!(state, IngestState::Done { outcome: Err(IngestError::MalformedInput) }));
}

#[test]
fn token_set_read_failure_is_unauthorized() {
    let state = IngestState::Parsed { message: message("Ab12xY9", "x") };
    let (_, action) = state.step(IngestEvent::TokensRead { document: Err(StorageError) });
    assert!(matches!(
        action,
        IngestAction::Respond { outcome: Err(IngestError::AuthorizationFailure) }
    ));
}

#[test]
fn message_log_failures_are_storage_failures() {
    let state = IngestState::Authorized { message: message("Ab12xY9", "x") };
    let (_, action) = state.step(IngestEvent::MessagesRead { document: Err(StorageError) });
    assert!(matches!(action, IngestAction::Respond { outcome: Err(IngestError::StorageFailure) }));
    let (_, action) = IngestState::Storing.step(IngestEvent::MessagesWritten { result: Err(StorageError) });
    assert!(matches!(action, IngestAction::Respond { outcome: Err(IngestError::StorageFailure) }));
}

#[test]
fn steps_wait_for_their_own_event() {
    let state = IngestState::Received;
    assert!(!state.awaits_event(&IngestEvent::TokensRead { document: Ok(None) }));
    assert!(state.awaits_event(&IngestEvent::BodyParsed { message: None }));
    assert!(IngestState::Storing.awaits_event(&IngestEvent::MessagesWritten { result: Ok(()) }));
}

#[test]
fn log_after_ingests_has_one_entry_each_in_order() {
    let tokens_doc = Some(issue_token("Ab12xY9".to_string(), Ok(None)).unwrap());
    let mut log = Some(b"corrupt".to_vec());
    for p in ["m1", "m2", "m3"].iter() {
        assert_eq!(submit(Some(message("Ab12xY9", p)), &tokens_doc, &mut log), Ok(()));
    }
    let stored = MessageStore::from_document(log);
    assert_eq!(stored.len(), 3);
    assert_eq!(stored.payload(0), "m1");
    assert_eq!(stored.payload(1), "m2");
    assert_eq!(stored.payload(2), "m3");
}

#[test]
fn pairing_succeeds_whenever_the_set_is_readable() {
    for doc in [None, Some(Vec::new()), Some(b"junk".to_vec()), Some(b"[\"a\"]".to_vec())] {
        let (token, written) = pair(Ok(doc)).unwrap();
        assert!(TokenStore::from_document(Some(written)).contains(&token));
    }
}
