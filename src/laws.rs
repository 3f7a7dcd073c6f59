use crate::service::authorizes;
use crate::store::{stored_messages, stored_tokens};
use vstd::prelude::*;

verus! {

/// Each state is the one before it with the next item added at the end.
pub open spec fn grows_by<A>(states: Seq<Seq<A>>, items: Seq<A>) -> bool {
    &&& states.len() == items.len() + 1
    &&& forall|i: int| 0 <= i < items.len() ==> #[trigger] states[i + 1] == states[i].push(items[i])
}

/// The first `k` items added one after another leave the first state followed
/// by exactly those items.
proof fn lemma_grows_by_prefix<A>(states: Seq<Seq<A>>, items: Seq<A>, k: int)
    requires
        grows_by(states, items),
        0 <= k <= items.len(),
    ensures
        states[k] == states[0] + items.subrange(0, k),
    decreases k,
{
    if k == 0 {
        assert(states[0] + items.subrange(0, 0) =~= states[0]);
    } else {
        lemma_grows_by_prefix(states, items, k - 1);
        assert(states[k] == states[k - 1].push(items[k - 1]));
        assert(states[0] + items.subrange(0, k) =~= (states[0] + items.subrange(0, k - 1)).push(
            items[k - 1],
        ));
    }
}

/// The tokens held by each of a chain of token documents.
pub open spec fn token_sets(docs: Seq<Option<Seq<u8>>>) -> Seq<Seq<Seq<char>>> {
    docs.map_values(|d: Option<Seq<u8>>| stored_tokens(d))
}

/// The messages held by each of a chain of message log documents.
pub open spec fn message_logs(docs: Seq<Option<Seq<u8>>>) -> Seq<Seq<(Seq<char>, Seq<char>)>> {
    docs.map_values(|d: Option<Seq<u8>>| stored_messages(d))
}

/// Tokens issued one after another, each written over the document before it
/// (as `issue_token` produces it), read back from the last document as the
/// earlier tokens followed by exactly the issued ones, in order: none lost,
/// none added. From a missing or empty document, exactly the issued tokens.
pub proof fn lemma_tokens_round_trip(docs: Seq<Option<Seq<u8>>>, tokens: Seq<Seq<char>>)
    requires
        docs.len() == tokens.len() + 1,
        forall|i: int|
            0 <= i < tokens.len() ==> stored_tokens(#[trigger] docs[i + 1]) == stored_tokens(
                docs[i],
            ).push(tokens[i]),
    ensures
        stored_tokens(docs.last()) == stored_tokens(docs[0]) + tokens,
        docs[0] is None || docs[0] == Some(Seq::<u8>::empty()) ==> stored_tokens(docs.last())
            == tokens,
        docs[0] is None || docs[0] == Some(Seq::<u8>::empty()) ==> forall|t: Seq<char>|
            authorizes(docs.last(), t) <==> tokens.contains(t),
{
    let sets = token_sets(docs);
    assert forall|i: int| 0 <= i < tokens.len() implies #[trigger] sets[i + 1] == sets[i].push(
        tokens[i],
    ) by {
        assert(stored_tokens(docs[i + 1]) == stored_tokens(docs[i]).push(tokens[i]));
    }
    lemma_grows_by_prefix(sets, tokens, tokens.len() as int);
    assert(tokens.subrange(0, tokens.len() as int) =~= tokens);
    assert(sets[tokens.len() as int] == stored_tokens(docs.last()));
    if docs[0] is None || docs[0] == Some(Seq::<u8>::empty()) {
        assert(stored_tokens(docs[0]) + tokens =~= tokens);
    }
}

/// Messages accepted one after another, each written over the log document
/// before it (as `IngestState::step` produces it), never alter or remove what
/// the log held: the last document holds the earlier messages followed by
/// exactly the accepted ones, in order of arrival. From a missing or empty
/// log, `n` accepted messages leave exactly `n` entries.
pub proof fn lemma_message_log_shape(
    docs: Seq<Option<Seq<u8>>>,
    messages: Seq<(Seq<char>, Seq<char>)>,
)
    requires
        docs.len() == messages.len() + 1,
        forall|i: int|
            0 <= i < messages.len() ==> stored_messages(#[trigger] docs[i + 1]) == stored_messages(
                docs[i],
            ).push(messages[i]),
    ensures
        stored_messages(docs.last()) == stored_messages(docs[0]) + messages,
        forall|i: int, j: int|
            0 <= i <= j < docs.len() ==> stored_messages(docs[i]) == stored_messages(
                docs[j],
            ).subrange(0, stored_messages(docs[i]).len() as int),
        docs[0] is None || docs[0] == Some(Seq::<u8>::empty()) ==> stored_messages(docs.last())
            == messages,
{
    let logs = message_logs(docs);
    assert forall|i: int| 0 <= i < messages.len() implies #[trigger] logs[i + 1] == logs[i].push(
        messages[i],
    ) by {
        assert(stored_messages(docs[i + 1]) == stored_messages(docs[i]).push(messages[i]));
    }
    assert forall|i: int, j: int| 0 <= i <= j < docs.len() implies stored_messages(docs[i])
        == stored_messages(docs[j]).subrange(0, stored_messages(docs[i]).len() as int) by {
        lemma_grows_by_prefix(logs, messages, i);
        lemma_grows_by_prefix(logs, messages, j);
        assert(logs[i] == stored_messages(docs[i]));
        assert(logs[j] == stored_messages(docs[j]));
        assert(logs[j].subrange(0, logs[i].len() as int) =~= logs[i]);
    }
    lemma_grows_by_prefix(logs, messages, messages.len() as int);
    assert(messages.subrange(0, messages.len() as int) =~= messages);
    assert(logs[messages.len() as int] == stored_messages(docs.last()));
    if docs[0] is None || docs[0] == Some(Seq::<u8>::empty()) {
        assert(stored_messages(docs[0]) + messages =~= messages);
    }
}

/// A token set written with `token` added authorizes `token` when it is read
/// straight back.
pub proof fn lemma_persist_before_respond(written: Seq<u8>, before: Seq<Seq<char>>, token: Seq<char>)
    requires
        stored_tokens(Some(written)) == before.push(token),
    ensures
        authorizes(Some(written), token),
{
    assert(before.push(token)[before.len() as int] == token);
}

/// A missing or empty backing document holds no token and no message, so it
/// authorizes no token rather than failing.
pub proof fn lemma_lenient_read(token: Seq<char>)
    ensures
        !authorizes(None, token),
        !authorizes(Some(Seq::empty()), token),
        stored_tokens(None).len() == 0,
        stored_tokens(Some(Seq::empty())).len() == 0,
        stored_messages(None).len() == 0,
        stored_messages(Some(Seq::empty())).len() == 0,
{
}

/// Over a chain of token documents that starts missing or empty and where each
/// next one adds one issued token (as `issue_token` produces it), the last
/// document authorizes a token if and only if it was issued: an unknown token
/// is never authorized, and every issued token is.
pub proof fn lemma_authorization_correct(
    docs: Seq<Option<Seq<u8>>>,
    issued: Seq<Seq<char>>,
    token: Seq<char>,
)
    requires
        docs.len() == issued.len() + 1,
        docs[0] is None || docs[0] == Some(Seq::<u8>::empty()),
        forall|i: int|
            0 <= i < issued.len() ==> stored_tokens(#[trigger] docs[i + 1]) == stored_tokens(
                docs[i],
            ).push(issued[i]),
    ensures
        !issued.contains(token) ==> !authorizes(docs.last(), token),
        issued.contains(token) ==> authorizes(docs.last(), token),
{
    lemma_tokens_round_trip(docs, issued);
}

} // verus!
