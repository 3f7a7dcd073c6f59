use rand::distributions::DistString;
use vstd::prelude::*;

verus! {

/// Number of characters in an issued token.
pub const TOKEN_LEN: usize = 7;

/// `c` is an ASCII letter or an ASCII digit.
pub open spec fn is_alphanumeric(c: char) -> bool {
    ||| ('A' <= c && c <= 'Z')
    ||| ('a' <= c && c <= 'z')
    ||| ('0' <= c && c <= '9')
}

/// `s` has the shape of an issued token: `TOKEN_LEN` alphanumeric characters.
pub open spec fn is_token(s: Seq<char>) -> bool {
    &&& s.len() == TOKEN_LEN
    &&& forall|i: int| 0 <= i < s.len() ==> is_alphanumeric(#[trigger] s[i])
}

/// Relies on rand's `Alphanumeric` distribution through
/// `DistString::sample_string` with `thread_rng`: the string holds `len`
/// characters, each taken from `[A-Za-z0-9]`. Which ones is left to chance.
#[verifier::external_body]
fn sample_alphanumeric(len: usize) -> (r: String)
    ensures
        r@.len() == len,
        forall|i: int| 0 <= i < r@.len() ==> is_alphanumeric(#[trigger] r@[i]),
{
    rand::distributions::Alphanumeric.sample_string(&mut rand::thread_rng(), len)
}

/// Draws a fresh token. Tokens are not checked against those already issued:
/// with 62 symbols in 7 places a collision is left to chance.
pub fn generate_token() -> (r: String)
    ensures
        is_token(r@),
{
    sample_alphanumeric(TOKEN_LEN)
}

} // verus!
