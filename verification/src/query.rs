//! Query strings and the endpoints that carry them.
//!
//! A query is a list of pairs of a key and a value. `serde_urlencoded`
//! turns the list into text; what stands here decides which pairs there
//! are, and puts path and query together.
use vstd::prelude::*;

verus! {

/// `serde_urlencoded::ser::Error`, the encoder's complaint. It is only
/// passed on.
#[verifier::external_type_specification]
#[verifier::external_body]
pub struct ExQueryEncodingError(serde_urlencoded::ser::Error);

/// The text that `serde_urlencoded::to_string` makes of a list of pairs, or
/// `None` where it reports an error.
pub uninterp spec fn urlencoded(pairs: Seq<(Seq<char>, Seq<char>)>) -> Option<Seq<char>>;

/// The keys and values of a list of owned pairs.
pub open spec fn pair_views(pairs: Seq<(String, String)>) -> Seq<(Seq<char>, Seq<char>)> {
    Seq::new(pairs.len(), |i: int| (pairs[i].0@, pairs[i].1@))
}

/// A list of pairs with one more pair, unless the value is left out.
pub open spec fn with_pair(
    pairs: Seq<(Seq<char>, Seq<char>)>,
    key: Seq<char>,
    value: Option<Seq<char>>,
) -> Seq<(Seq<char>, Seq<char>)> {
    match value {
        Some(v) => pairs.push((key, v)),
        None => pairs,
    }
}

/// A path with a query behind a question mark.
pub open spec fn with_query(path: Seq<char>, query: Seq<char>) -> Seq<char> {
    path + seq!['?'] + query
}

/// A path with a query behind a question mark; the bare path where the
/// query is empty.
pub open spec fn with_query_if_any(path: Seq<char>, query: Seq<char>) -> Seq<char> {
    if query.len() == 0 {
        path
    } else {
        with_query(path, query)
    }
}

/// A query could not be put into text.
#[derive(Debug, Clone, Copy, PartialEq, Eq)]
pub enum QueryError {
    /// The encoder refused the pairs.
    Encoding,
}

/// `serde_urlencoded::to_string` on a list of pairs of strings: succeeds
/// exactly where [`urlencoded`] has a text, and returns that text.
#[verifier::external_body]
pub(crate) fn urlencode(pairs: &Vec<(String, String)>) -> (r: Result<
    String,
    serde_urlencoded::ser::Error,
>)
    ensures
        r is Ok <==> urlencoded(pair_views(pairs@)) is Some,
        r matches Ok(s) ==> urlencoded(pair_views(pairs@)) == Some(s@),
{
    serde_urlencoded::to_string(pairs)
}

/// Appends a pair.
pub fn push_pair(pairs: &mut Vec<(String, String)>, key: &str, value: String)
    ensures
        pair_views(final(pairs)@) == pair_views(old(pairs)@).push((key@, value@)),
{
    pairs.push((key.to_owned(), value));
    assert(pair_views(pairs@) =~= pair_views(old(pairs)@).push((key@, value@)));
}

/// Appends a pair, unless the value is left out.
pub fn push_optional(pairs: &mut Vec<(String, String)>, key: &str, value: &Option<String>)
    ensures
        pair_views(final(pairs)@) == with_pair(pair_views(old(pairs)@), key@, value.deep_view()),
{
    match value {
        Some(v) => {
            push_pair(pairs, key, v.clone());
        },
        None => {},
    }
}

/// The text of a query.
pub fn query_string(pairs: &Vec<(String, String)>) -> (r: Result<String, QueryError>)
    ensures
        match r {
            Ok(q) => urlencoded(pair_views(pairs@)) == Some(q@),
            Err(_) => urlencoded(pair_views(pairs@)) is None,
        },
{
    match urlencode(pairs) {
        Ok(q) => Ok(q),
        Err(_) => Err(QueryError::Encoding),
    }
}

/// Puts a query behind a path.
pub fn endpoint_with_query(path: &str, query: &str) -> (r: String)
    ensures
        r@ == with_query(path@, query@),
{
    let mut out = path.to_owned();
    proof {
        reveal_strlit("?");
        assert("?"@ =~= seq!['?']);
    }
    out.append("?");
    out.append(query);
    out
}

/// Puts a query behind a path, unless the query is empty.
pub fn endpoint_with_query_if_any(path: &str, query: &str) -> (r: String)
    ensures
        r@ == with_query_if_any(path@, query@),
{
    if query.is_empty() {
        path.to_owned()
    } else {
        endpoint_with_query(path, query)
    }
}

/// The endpoint for a path and the pairs of its query, with the question
/// mark whether or not there are pairs.
pub fn endpoint_for(path: &str, pairs: &Vec<(String, String)>) -> (r: Result<String, QueryError>)
    ensures
        match r {
            Ok(e) => urlencoded(pair_views(pairs@)) matches Some(q) && e@ == with_query(path@, q),
            Err(_) => urlencoded(pair_views(pairs@)) is None,
        },
{
    let query = query_string(pairs)?;
    Ok(endpoint_with_query(path, query.as_str()))
}

/// The endpoint for a path and the pairs of its query, without the question
/// mark where the query is empty.
pub fn endpoint_for_if_any(path: &str, pairs: &Vec<(String, String)>) -> (r: Result<
    String,
    QueryError,
>)
    ensures
        match r {
            Ok(e) => urlencoded(pair_views(pairs@)) matches Some(q) && e@ == with_query_if_any(
                path@,
                q,
            ),
            Err(_) => urlencoded(pair_views(pairs@)) is None,
        },
{
    let query = query_string(pairs)?;
    Ok(endpoint_with_query_if_any(path, query.as_str()))
}

} // verus!
