//! URL assembly: the base URL and the endpoint path are joined and parsed, and
//! the query parameters, where there are any, are appended in form encoding.
//!
//! Parsing and encoding are the `url` crate's. What this module adds is the
//! guard that keeps the parameters from growing a URL past the size that the
//! crate can index.

use url::ParseError;
use url::Url;
use vstd::prelude::*;
use vstd::string::StringExecFns;
use vstd::utf8::encode_utf8;

verus! {

broadcast use vstd::slice::group_slice_axioms;

/// `url::ParseError`, the reasons for which a string is no absolute URL.
#[verifier::external_type_specification]
pub struct ExParseError(ParseError);

/// The serialisation of the URL that `Url::parse` reads from `input`, or the
/// reason for which it reads none.
pub uninterp spec fn parsed_url(input: Seq<char>) -> Result<Seq<char>, ParseError>;

/// The serialisation of the URL that `Url::parse_with_params` gives for an
/// `input` that parses: that URL with `params` appended to its query.
pub uninterp spec fn parsed_url_with_params(
    input: Seq<char>,
    params: Seq<(Seq<char>, Seq<char>)>,
) -> Seq<char>;

/// The number of bytes in the UTF-8 encoding of `text`.
pub open spec fn utf8_len(text: Seq<char>) -> nat {
    encode_utf8(text).len()
}

/// The most bytes by which form encoding `params` can lengthen a query: a
/// byte becomes three at most, and a pair brings a `=` and a separator.
pub open spec fn query_growth(params: Seq<(Seq<char>, Seq<char>)>) -> nat
    decreases params.len(),
{
    if params.len() == 0 {
        0
    } else {
        query_growth(params.drop_last()) + 3 * utf8_len(params.last().0) + 3 * utf8_len(
            params.last().1,
        ) + 2
    }
}

/// A URL that serialises as `text` has room for `params`: with the `?` and
/// the encoded pairs it stays within the `u32::MAX` bytes that the `url` crate
/// can index.
pub open spec fn query_fits(text: Seq<char>, params: Seq<(Seq<char>, Seq<char>)>) -> bool {
    utf8_len(text) + 1 + query_growth(params) <= u32::MAX
}

/// The URL that a request is sent to, as text: `input` parsed, and `params`
/// appended where they are present and fit. Parameters that do not fit are
/// reported as the `url` crate reports a URL that is too long.
pub open spec fn assembled_url(
    input: Seq<char>,
    params: Option<Seq<(Seq<char>, Seq<char>)>>,
) -> Result<Seq<char>, ParseError> {
    match params {
        None => parsed_url(input),
        Some(pairs) => match parsed_url(input) {
            Err(e) => Err(e),
            Ok(text) => if query_fits(text, pairs) {
                Ok(parsed_url_with_params(input, pairs))
            } else {
                Err(ParseError::Overflow)
            },
        },
    }
}

/// Calls `Url::parse` and hands back the serialisation of the URL read, or
/// the error. The contract names the result and says no more: parsing is a
/// function of the input alone.
#[verifier::external_body]
fn parse_url(input: &str) -> (r: Result<String, ParseError>)
    ensures
        match r {
            Ok(s) => parsed_url(input@) == Ok::<Seq<char>, ParseError>(s@),
            Err(e) => parsed_url(input@) == Err::<Seq<char>, ParseError>(e),
        },
{
    match Url::parse(input) {
        Ok(url) => Ok(String::from(url)),
        Err(e) => Err(e),
    }
}

/// Calls `Url::parse_with_params` and hands back the serialisation of the
/// URL, or the error. The outside function parses `input` as `Url::parse`
/// does, fails exactly where that fails and with the same error, and
/// otherwise appends the pairs. It indexes the URL with `u32` and panics past
/// that: `requires` keeps the pairs within the room that is left.
#[verifier::external_body]
fn parse_url_with_params(input: &str, params: &Vec<(String, String)>) -> (r: Result<
    String,
    ParseError,
>)
    requires
        parsed_url(input@) matches Ok(text) ==> query_fits(text, params.deep_view()),
    ensures
        match r {
            Ok(s) => parsed_url(input@) is Ok && s@ == parsed_url_with_params(
                input@,
                params.deep_view(),
            ),
            Err(e) => parsed_url(input@) == Err::<Seq<char>, ParseError>(e),
        },
{
    match Url::parse_with_params(input, params) {
        Ok(url) => Ok(String::from(url)),
        Err(e) => Err(e),
    }
}

/// A longer list of pairs can grow a query by no less than a prefix of it.
proof fn lemma_query_growth_of_prefix(params: Seq<(Seq<char>, Seq<char>)>, n: int)
    requires
        0 <= n <= params.len(),
    ensures
        query_growth(params.take(n)) <= query_growth(params),
    decreases params.len(),
{
    if n == params.len() {
        assert(params.take(n) =~= params);
    } else {
        assert(params.drop_last().take(n) =~= params.take(n));
        lemma_query_growth_of_prefix(params.drop_last(), n);
    }
}

/// Whether a URL that serialises as `text` has room for `params`.
pub fn has_room_for(text: &str, params: &Vec<(String, String)>) -> (r: bool)
    ensures
        r == query_fits(text@, params.deep_view()),
{
    let ghost pairs = params.deep_view();
    let limit: u128 = 0xffff_ffff;
    let mut used: u128 = text.as_bytes().len() as u128 + 1;
    let mut i: usize = 0;
    assert(pairs.take(0) =~= Seq::<(Seq<char>, Seq<char>)>::empty());
    while i < params.len()
        invariant
            i <= params.len(),
            pairs == params.deep_view(),
            limit == 0xffff_ffff,
            used == utf8_len(text@) + 1 + query_growth(pairs.take(i as int)),
            used <= limit || i == 0,
            used <= limit + usize::MAX + 1,
        decreases params.len() - i,
    {
        if used > limit {
            proof {
                lemma_query_growth_of_prefix(pairs, i as int);
            }
            return false;
        }
        let key_len: usize = params[i].0.as_str().as_bytes().len();
        let value_len: usize = params[i].1.as_str().as_bytes().len();
        proof {
            let next = pairs.take(i as int + 1);
            assert(next.drop_last() =~= pairs.take(i as int));
            assert(next.last() == pairs[i as int]);
            assert(pairs[i as int] == (params[i as int].0@, params[i as int].1@));
        }
        used = used + 3 * (key_len as u128) + 3 * (value_len as u128) + 2;
        i = i + 1;
        if used > limit {
            proof {
                lemma_query_growth_of_prefix(pairs, i as int);
            }
            return false;
        }
    }
    assert(pairs.take(i as int) =~= pairs);
    used <= limit
}

/// Joins `base` and `path`, parses the result as an absolute URL and, where
/// `params` are present, appends them to its query. Gives the URL as text.
///
/// It fails where the joined string is no absolute URL, with the parser's
/// reason, and where the parameters would grow the URL past `u32::MAX`
/// bytes, with `ParseError::Overflow`.
pub fn assemble_url(base: &str, path: &str, params: &Option<Vec<(String, String)>>) -> (r: Result<
    String,
    ParseError,
>)
    ensures
        match r {
            Ok(s) => assembled_url(base@ + path@, params.deep_view()) == Ok::<
                Seq<char>,
                ParseError,
            >(s@),
            Err(e) => assembled_url(base@ + path@, params.deep_view()) == Err::<
                Seq<char>,
                ParseError,
            >(e),
        },
{
    let mut input = base.to_owned();
    input.append(path);
    match params {
        None => parse_url(input.as_str()),
        Some(pairs) => {
            match parse_url(input.as_str()) {
                Err(e) => Err(e),
                Ok(text) => {
                    if has_room_for(text.as_str(), pairs) {
                        parse_url_with_params(input.as_str(), pairs)
                    } else {
                        Err(ParseError::Overflow)
                    }
                },
            }
        },
    }
}

/// URL assembly is a function of its inputs: the same base, path and
/// parameters give the same URL, character for character, or the same error.
pub proof fn lemma_assembly_is_deterministic(
    base_a: Seq<char>,
    path_a: Seq<char>,
    params_a: Option<Seq<(Seq<char>, Seq<char>)>>,
    base_b: Seq<char>,
    path_b: Seq<char>,
    params_b: Option<Seq<(Seq<char>, Seq<char>)>>,
)
    requires
        base_a == base_b,
        path_a == path_b,
        params_a == params_b,
    ensures
        assembled_url(base_a + path_a, params_a) == assembled_url(base_b + path_b, params_b),
{
}

/// A request without parameters is parsed as it stands; one with parameters
/// gives a URL exactly where the base and the path alone give one and the
/// parameters fit, and fails with the same error where they give none.
pub proof fn lemma_parameters_do_not_change_what_parses(
    input: Seq<char>,
    params: Seq<(Seq<char>, Seq<char>)>,
)
    ensures
        assembled_url(input, None) == parsed_url(input),
        assembled_url(input, Some(params)) is Ok <==> parsed_url(input) is Ok && query_fits(
            parsed_url(input)->Ok_0,
            params,
        ),
        parsed_url(input) matches Err(e) ==> assembled_url(input, Some(params)) == Err::<
            Seq<char>,
            ParseError,
        >(e),
{
}

} // verus!
