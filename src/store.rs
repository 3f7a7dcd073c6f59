use crate::codec::{
    decode_pair_list, decode_string_list, encode_pair_list, encode_string_list, pair_list_json,
    pairs_view, parsed_pair_list, parsed_string_list, string_list_json, strings_view,
};
use vstd::prelude::*;

verus! {

/// The backing document could not be opened, read or written.
#[derive(Debug, PartialEq, Eq, Structural)]
pub struct StorageError;

/// The bytes of a backing document; `None` where there is no document yet.
pub open spec fn document_bytes(doc: Option<Vec<u8>>) -> Option<Seq<u8>> {
    match doc {
        Some(b) => Some(b@),
        None => None,
    }
}

/// The tokens held by a backing document. A missing document, or one that is
/// empty or does not hold a list of strings, holds no token.
pub open spec fn stored_tokens(doc: Option<Seq<u8>>) -> Seq<Seq<char>> {
    match doc {
        Some(b) => if b.len() == 0 {
            Seq::empty()
        } else {
            match parsed_string_list(b) {
                Some(v) => v,
                None => Seq::empty(),
            }
        },
        None => Seq::empty(),
    }
}

/// The message records held by a backing document, each as (token, payload).
/// A missing document, or one that is empty or does not hold a list of string
/// pairs, holds no record.
pub open spec fn stored_messages(doc: Option<Seq<u8>>) -> Seq<(Seq<char>, Seq<char>)> {
    match doc {
        Some(b) => if b.len() == 0 {
            Seq::empty()
        } else {
            match parsed_pair_list(b) {
                Some(v) => v,
                None => Seq::empty(),
            }
        },
        None => Seq::empty(),
    }
}

/// The set of issued tokens, in the order in which they were issued.
pub struct TokenStore {
    tokens: Vec<String>,
}

impl View for TokenStore {
    type V = Seq<Seq<char>>;

    closed spec fn view(&self) -> Seq<Seq<char>> {
        strings_view(self.tokens@)
    }
}

impl TokenStore {
    /// A store that holds no token.
    pub fn new() -> (r: TokenStore)
        ensures
            r@ == Seq::<Seq<char>>::empty(),
    {
        let r = TokenStore { tokens: Vec::new() };
        assert(r@ =~= Seq::<Seq<char>>::empty());
        r
    }

    /// Reads the tokens of a backing document, leniently: a missing, empty or
    /// corrupt document gives an empty store.
    pub fn from_document(doc: Option<Vec<u8>>) -> (r: TokenStore)
        ensures
            r@ == stored_tokens(document_bytes(doc)),
    {
        match doc {
            Some(b) => match decode_string_list(b.as_slice()) {
                Some(tokens) => TokenStore { tokens },
                None => TokenStore::new(),
            },
            None => TokenStore::new(),
        }
    }

    /// The whole backing document for this store. Read back, it gives the same
    /// tokens in the same order.
    pub fn to_document(&self) -> (r: Vec<u8>)
        ensures
            r@ == string_list_json(self@),
            stored_tokens(Some(r@)) == self@,
    {
        match encode_string_list(&self.tokens) {
            Some(b) => b,
            None => {
                proof {
                    assert(false);
                }
                Vec::new()
            },
        }
    }

    /// Adds `token` after the tokens already held.
    pub fn append(&mut self, token: String)
        ensures
            final(self)@ == old(self)@.push(token@),
    {
        self.tokens.push(token);
        assert(self@ =~= old(self)@.push(token@));
    }

    /// Whether `token` has been issued.
    pub fn contains(&self, token: &String) -> (r: bool)
        ensures
            r == self@.contains(token@),
    {
        let mut i: usize = 0;
        while i < self.tokens.len()
            invariant
                0 <= i <= self.tokens@.len(),
                self@.len() == self.tokens@.len(),
                forall|j: int| 0 <= j < i ==> self@[j] != token@,
            decreases self.tokens@.len() - i,
        {
            assert(self@[i as int] == self.tokens@[i as int]@);
            if self.tokens[i] == *token {
                assert(self@[i as int] == token@);
                return true;
            }
            i += 1;
        }
        false
    }

    /// Number of tokens held.
    pub fn len(&self) -> (r: usize)
        ensures
            r == self@.len(),
    {
        self.tokens.len()
    }
}

/// A message accepted for the log: the token it was submitted with, and its
/// payload.
pub struct Message {
    pub token: String,
    pub payload: String,
}

impl View for Message {
    type V = (Seq<char>, Seq<char>);

    open spec fn view(&self) -> (Seq<char>, Seq<char>) {
        (self.token@, self.payload@)
    }
}

/// The log of accepted messages, in order of arrival.
pub struct MessageStore {
    entries: Vec<(String, String)>,
}

impl View for MessageStore {
    type V = Seq<(Seq<char>, Seq<char>)>;

    closed spec fn view(&self) -> Seq<(Seq<char>, Seq<char>)> {
        pairs_view(self.entries@)
    }
}

impl MessageStore {
    /// A log that holds no message.
    pub fn new() -> (r: MessageStore)
        ensures
            r@ == Seq::<(Seq<char>, Seq<char>)>::empty(),
    {
        let r = MessageStore { entries: Vec::new() };
        assert(r@ =~= Seq::<(Seq<char>, Seq<char>)>::empty());
        r
    }

    /// Reads the messages of a backing document, leniently: a missing, empty or
    /// corrupt document gives an empty log.
    pub fn from_document(doc: Option<Vec<u8>>) -> (r: MessageStore)
        ensures
            r@ == stored_messages(document_bytes(doc)),
    {
        match doc {
            Some(b) => match decode_pair_list(b.as_slice()) {
                Some(entries) => MessageStore { entries },
                None => MessageStore::new(),
            },
            None => MessageStore::new(),
        }
    }

    /// The whole backing document for this log. Read back, it gives the same
    /// messages in the same order.
    pub fn to_document(&self) -> (r: Vec<u8>)
        ensures
            r@ == pair_list_json(self@),
            stored_messages(Some(r@)) == self@,
    {
        match encode_pair_list(&self.entries) {
            Some(b) => b,
            None => {
                proof {
                    assert(false);
                }
                Vec::new()
            },
        }
    }

    /// Adds `message` after the messages already held; those stay as they were.
    pub fn append(&mut self, message: Message)
        ensures
            final(self)@ == old(self)@.push(message@),
    {
        let Message { token, payload } = message;
        self.entries.push((token, payload));
        assert(self@ =~= old(self)@.push(message@));
    }

    /// Number of messages held.
    pub fn len(&self) -> (r: usize)
        ensures
            r == self@.len(),
    {
        self.entries.len()
    }

    /// The payload of the message at `index`.
    pub fn payload(&self, index: usize) -> (r: String)
        requires
            index < self@.len(),
        ensures
            r@ == self@[index as int].1,
    {
        self.entries[index].1.clone()
    }

    /// The token that the message at `index` was submitted with.
    pub fn token(&self, index: usize) -> (r: String)
        requires
            index < self@.len(),
        ensures
            r@ == self@[index as int].0,
    {
        self.entries[index].0.clone()
    }
}

} // verus!
