//! The answer to the browser that comes back from a remote login.
//!
//! The local listener serves exactly one request. The driver takes the query
//! string out of the request's address; the functions here say what to
//! answer and what to tell the session. The parameters of the query are
//! kept in a hash map, so that of several pairs with one name the last
//! counts.

use crate::app::ChannelEvents;
use crate::auth::LoginErrors;
use crate::text::str_eq;
use vstd::hash_map::StringHashMap;
use vstd::prelude::*;

verus! {

/// The pairs of name and value that `url` reads from a query string, in the
/// order in which they stand there, percent-decoded.
pub uninterp spec fn query_pairs(query: Seq<char>) -> Seq<(Seq<char>, Seq<char>)>;

/// Reads the pairs of a query string.
///
/// Trusted: the body calls `url::form_urlencoded::parse` on the bytes of the
/// query and collects the pairs that it yields, as owned strings, in order.
/// The contract only names the outcome.
#[verifier::external_body]
fn read_query(query: &str) -> (pairs: Vec<(String, String)>)
    ensures
        pairs.deep_view() == query_pairs(query@),
{
    url::form_urlencoded::parse(query.as_bytes()).into_owned().collect()
}

/// The parameters of a query: each name with the value of the last pair that
/// bears it, as a map has them that is filled pair by pair.
pub open spec fn parameters(pairs: Seq<(Seq<char>, Seq<char>)>) -> Map<Seq<char>, Seq<char>>
    decreases pairs.len(),
{
    if pairs.len() == 0 {
        Map::empty()
    } else {
        parameters(pairs.drop_last()).insert(pairs.last().0, pairs.last().1)
    }
}

/// The value of a parameter, where the query has it.
pub open spec fn parameter(pairs: Seq<(Seq<char>, Seq<char>)>, name: Seq<char>) -> Option<
    Seq<char>,
> {
    if parameters(pairs).contains_key(name) {
        Some(parameters(pairs)[name])
    } else {
        None
    }
}

/// The texts of the strings that a map holds.
pub open spec fn texts(map: Map<Seq<char>, String>) -> Map<Seq<char>, Seq<char>> {
    Map::new(|name: Seq<char>| map.contains_key(name), |name: Seq<char>| map[name]@)
}

/// Fills a map with the pairs of a query, in their order: a later pair
/// replaces an earlier one of the same name.
pub fn collect_parameters(pairs: &Vec<(String, String)>) -> (params: StringHashMap<String>)
    ensures
        texts(params@) == parameters(pairs.deep_view()),
{
    let mut params: StringHashMap<String> = StringHashMap::new();
    let mut i: usize = 0;
    assert(texts(params@) =~= parameters(pairs.deep_view().take(0)));
    while i < pairs.len()
        invariant
            i <= pairs.len(),
            texts(params@) == parameters(pairs.deep_view().take(i as int)),
        decreases pairs.len() - i,
    {
        let name = pairs[i].0.clone();
        let value = pairs[i].1.clone();
        let ghost before = params@;
        params.insert(name, value);
        proof {
            let all = pairs.deep_view();
            assert(all[i as int] == (pairs@[i as int].0@, pairs@[i as int].1@));
            assert(all.take(i + 1).drop_last() =~= all.take(i as int));
            assert(all.take(i + 1).last() == all[i as int]);
            assert(texts(params@) =~= texts(before).insert(name@, value@));
        }
        i = i + 1;
    }
    assert(pairs.deep_view().take(i as int) =~= pairs.deep_view());
    params
}

/// The value of a parameter in a map that [`collect_parameters`] has filled.
pub fn find_parameter<'a>(params: &'a StringHashMap<String>, name: &str) -> (r: Option<&'a String>)
    ensures
        r is Some <==> texts(params@).contains_key(name@),
        r matches Some(value) ==> texts(params@)[name@] == value@,
{
    params.get(name)
}

/// What the listener answers, and what it tells the session.
#[derive(Debug)]
pub struct CallbackReply {
    /// The status code of the answer.
    pub status: u16,
    /// The body of the answer.
    pub body: String,
    /// What goes into the channel.
    pub event: ChannelEvents,
}

/// Whether the browser is told that all went well.
pub open spec fn accepted(pairs: Seq<(Seq<char>, Seq<char>)>) -> bool {
    parameter(pairs, "token"@) is Some && (parameter(pairs, "nickname_required"@) == Some("true"@)
        || parameter(pairs, "nickname_required"@) == Some("false"@))
}

/// Whether `reply` is the answer to a request with the given pairs.
///
/// A token together with `nickname_required` set to `true` or to `false` is
/// answered with 200 `OK`, and the session is told the token and whether a
/// nickname is still to be picked. Anything else is answered with 400
/// `Bad Request`, and the session is told that the login got an invalid
/// response.
pub open spec fn replies(pairs: Seq<(Seq<char>, Seq<char>)>, reply: CallbackReply) -> bool {
    if accepted(pairs) {
        &&& reply.status == 200
        &&& reply.body@ == "OK"@
        &&& reply.event matches ChannelEvents::RemoteRedirectCallback((token, nickname_required))
        &&& Some(token@) == parameter(pairs, "token"@)
        &&& nickname_required == (parameter(pairs, "nickname_required"@) == Some("true"@))
    } else {
        &&& reply.status == 400
        &&& reply.body@ == "Bad Request"@
        &&& reply.event == ChannelEvents::RemoteRedirectError(LoginErrors::InvalidResponse)
    }
}

/// Answers a request whose query holds the given pairs; see [`replies`].
pub fn callback_reply(pairs: &Vec<(String, String)>) -> (reply: CallbackReply)
    ensures
        replies(pairs.deep_view(), reply),
{
    let params = collect_parameters(pairs);
    let token = find_parameter(&params, "token");
    let nickname_required = find_parameter(&params, "nickname_required");
    let flag = match nickname_required {
        Some(value) => {
            if str_eq(value.as_str(), "true") {
                Some(true)
            } else if str_eq(value.as_str(), "false") {
                Some(false)
            } else {
                None
            }
        },
        None => None,
    };
    match (token, flag) {
        (Some(token), Some(nickname_required)) => CallbackReply {
            status: 200,
            body: "OK".to_owned(),
            event: ChannelEvents::RemoteRedirectCallback((token.clone(), nickname_required)),
        },
        _ => CallbackReply {
            status: 400,
            body: "Bad Request".to_owned(),
            event: ChannelEvents::RemoteRedirectError(LoginErrors::InvalidResponse),
        },
    }
}

/// Answers a request with the given query string; see [`replies`].
pub fn callback(query: &str) -> (reply: CallbackReply)
    ensures
        replies(query_pairs(query@), reply),
{
    let pairs = read_query(query);
    callback_reply(&pairs)
}

/// The header that every answer of the listener carries, as name and value:
/// any page may read the answer.
pub fn cors_header() -> (header: (&'static str, &'static str))
    ensures
        header.0@ == "Access-Control-Allow-Origin"@,
        header.1@ == "*"@,
{
    ("Access-Control-Allow-Origin", "*")
}

} // verus!
