use vstd::prelude::*;

verus! {

/// The characters of each string, in order.
pub open spec fn strings_view(v: Seq<String>) -> Seq<Seq<char>> {
    v.map_values(|s: String| s@)
}

/// The characters of both strings of each pair, in order.
pub open spec fn pairs_view(v: Seq<(String, String)>) -> Seq<(Seq<char>, Seq<char>)> {
    v.map_values(|p: (String, String)| p@)
}

/// What serde_json reads from `b` as a list of strings, if it reads one.
pub uninterp spec fn parsed_string_list(b: Seq<u8>) -> Option<Seq<Seq<char>>>;

/// What serde_json writes for a list of strings.
pub uninterp spec fn string_list_json(v: Seq<Seq<char>>) -> Seq<u8>;

/// What serde_json reads from `b` as a list of string pairs, if it reads one.
pub uninterp spec fn parsed_pair_list(b: Seq<u8>) -> Option<Seq<(Seq<char>, Seq<char>)>>;

/// What serde_json writes for a list of string pairs.
pub uninterp spec fn pair_list_json(v: Seq<(Seq<char>, Seq<char>)>) -> Seq<u8>;

/// Relies on `serde_json::from_slice::<Vec<String>>`: the strings of a JSON
/// array of strings, or an error; input with no JSON value in it is an error.
#[verifier::external_body]
pub(crate) fn decode_string_list(b: &[u8]) -> (r: Option<Vec<String>>)
    ensures
        match r {
            Some(v) => parsed_string_list(b@) == Some(strings_view(v@)),
            None => parsed_string_list(b@) is None,
        },
        b@.len() == 0 ==> r is None,
{
    serde_json::from_slice::<Vec<String>>(b).ok()
}

/// Relies on `serde_json::to_vec::<Vec<String>>`: a JSON array of the
/// strings (never empty: it opens with `[`), which `serde_json::from_slice` reads
/// back as the same strings. Its only errors come from the writer, and writing
/// into a `Vec<u8>` does not fail, so a result is always there.
#[verifier::external_body]
pub(crate) fn encode_string_list(v: &Vec<String>) -> (r: Option<Vec<u8>>)
    ensures
        r is Some,
        r matches Some(b) ==> b@ == string_list_json(strings_view(v@)),
        r matches Some(b) ==> parsed_string_list(b@) == Some(strings_view(v@)),
        r matches Some(b) ==> b@.len() > 0,
{
    serde_json::to_vec(v).ok()
}

/// Relies on `serde_json::from_slice::<Vec<(String, String)>>`: the pairs of a
/// JSON array of two-string arrays, or an error; input with no JSON value in
/// it is an error.
#[verifier::external_body]
pub(crate) fn decode_pair_list(b: &[u8]) -> (r: Option<Vec<(String, String)>>)
    ensures
        match r {
            Some(v) => parsed_pair_list(b@) == Some(pairs_view(v@)),
            None => parsed_pair_list(b@) is None,
        },
        b@.len() == 0 ==> r is None,
{
    serde_json::from_slice::<Vec<(String, String)>>(b).ok()
}

/// Relies on `serde_json::to_vec::<Vec<(String, String)>>`: a JSON array of
/// two-string arrays (never empty: it opens with `[`), which
/// `serde_json::from_slice` reads back as the same pairs. Its only errors come
/// from the writer, and writing into a `Vec<u8>` does not fail, so a result is
/// always there.
#[verifier::external_body]
pub(crate) fn encode_pair_list(v: &Vec<(String, String)>) -> (r: Option<Vec<u8>>)
    ensures
        r is Some,
        r matches Some(b) ==> b@ == pair_list_json(pairs_view(v@)),
        r matches Some(b) ==> parsed_pair_list(b@) == Some(pairs_view(v@)),
        r matches Some(b) ==> b@.len() > 0,
{
    serde_json::to_vec(v).ok()
}

} // verus!
