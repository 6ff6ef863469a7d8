//! The similarity-index side of a request cycle: parsing a k-nearest-
//! neighbour search reply into ranked passages, assembling their text into
//! the generation context, and building the search query string.
//!
//! Executing the search command is wire-level work and stays outside the
//! library; the store itself only carries the validated client handle and
//! the index name.

use vstd::prelude::*;
use vstd::string::*;
use std::sync::Arc;
use crate::envs::Config;
use crate::numbers::decimal_digits;
use crate::numbers::format_usize;
use crate::resp::RespValue;
use crate::resp::ParseError;
use crate::resp::StringMap;
use crate::resp::pairs_from;
use crate::resp::bulk_string_to_str;
use crate::resp::from_redis_value_to_hm;
use vstd::utf8::valid_utf8;
use vstd::utf8::decode_utf8;

verus! {

/// One retrieved passage: an opaque identifier and a field map; produced
/// fresh per retrieval call and discarded after context assembly.
pub struct VectorSearchResponse {
    pub id: String,
    pub metadata: StringMap,
}

/// The mathematical content of one passage.
pub struct PassageView {
    pub id: Seq<char>,
    pub metadata: Map<Seq<char>, Seq<char>>,
}

impl View for VectorSearchResponse {
    type V = PassageView;

    open spec fn view(&self) -> PassageView {
        PassageView { id: self.id@, metadata: self.metadata@ }
    }
}

/// The passages of one search reply, in the order the index returned them
/// (ascending distance).
pub struct VectorSearchResponses {
    pub responses: Vec<VectorSearchResponse>,
}

/// The passage views of a sequence of passages, in order.
pub open spec fn passage_views(rs: Seq<VectorSearchResponse>) -> Seq<PassageView> {
    rs.map_values(|r: VectorSearchResponse| r@)
}

/// The passages read from a run of reply items: values are taken pairwise
/// as identifier then field array; an identifier that is not a decodable
/// string is skipped alone, a field value that is not an array makes its
/// pair contribute nothing, and a trailing identifier is dropped.
pub open spec fn responses_from(items: Seq<RespValue>, acc: Seq<PassageView>) -> Seq<PassageView>
    decreases items.len(),
{
    if items.len() == 0 {
        acc
    } else {
        match items[0] {
            RespValue::BulkString(ib) => {
                if valid_utf8(ib@) {
                    if items.len() == 1 {
                        acc
                    } else {
                        match items[1] {
                            RespValue::Array(fields) => responses_from(
                                items.skip(2),
                                acc.push(
                                    PassageView {
                                        id: decode_utf8(ib@),
                                        metadata: pairs_from(fields@, Map::empty()),
                                    },
                                ),
                            ),
                            _ => responses_from(items.skip(2), acc),
                        }
                    }
                } else {
                    responses_from(items.skip(1), acc)
                }
            },
            _ => responses_from(items.skip(1), acc),
        }
    }
}

/// The passages of a whole reply array: the leading element (the result
/// count) is dropped, the rest is read pairwise.  An empty array yields no
/// passages.
pub open spec fn responses_of(items: Seq<RespValue>) -> Seq<PassageView> {
    if items.len() == 0 {
        Seq::empty()
    } else {
        responses_from(items.drop_first(), Seq::empty())
    }
}

impl VectorSearchResponses {
    /// Reads a search reply: an array whose first element is the result
    /// count and whose remaining elements pair each passage identifier with
    /// its field array.  Any other shape of reply is an error.
    pub fn from_redis_value(v: &RespValue) -> (r: Result<VectorSearchResponses, ParseError>)
        ensures
            match v {
                RespValue::Array(items) => r matches Ok(rs) && passage_views(rs.responses@)
                    == responses_of(items@),
                _ => r is Err,
            },
    {
        match v {
            RespValue::Array(items) => {
                let mut responses: Vec<VectorSearchResponse> = Vec::new();
                if items.len() == 0 {
                    proof {
                        assert(passage_views(responses@) =~= responses_of(items@));
                    }
                    return Ok(VectorSearchResponses { responses });
                }
                let mut i: usize = 1;
                proof {
                    assert(items@.skip(1) =~= items@.drop_first());
                    assert(passage_views(responses@) =~= Seq::<PassageView>::empty());
                }
                while i < items.len()
                    invariant
                        1 <= i <= items@.len(),
                        responses_of(items@) == responses_from(
                            items@.skip(i as int),
                            passage_views(responses@),
                        ),
                        items@.len() > 0,
                    decreases items@.len() - i,
                {
                    proof {
                        assert(items@.skip(i as int)[0] == items@[i as int]);
                        assert(items@.skip(i as int).skip(1) =~= items@.skip(i as int + 1));
                        if i + 2 <= items@.len() {
                            assert(items@.skip(i as int).skip(2) =~= items@.skip(i as int + 2));
                            assert(items@.skip(i as int)[1] == items@[i as int + 1]);
                        }
                    }
                    match bulk_string_to_str(&items[i]) {
                        Ok(id) => {
                            if i + 1 < items.len() {
                                match from_redis_value_to_hm(&items[i + 1]) {
                                    Ok(meta) => {
                                        let vsr = VectorSearchResponse { id, metadata: meta };
                                        let ghost prev = responses@;
                                        responses.push(vsr);
                                        proof {
                                            assert(passage_views(responses@) =~= passage_views(
                                                prev,
                                            ).push(responses@.last()@));
                                        }
                                    },
                                    Err(_) => {},
                                }
                                i = i + 2;
                            } else {
                                i = i + 1;
                            }
                        },
                        Err(_) => {
                            i = i + 1;
                        },
                    }
                }
                proof {
                    assert(items@.skip(i as int) =~= Seq::<RespValue>::empty());
                }
                Ok(VectorSearchResponses { responses })
            },
            _ => Err(ParseError),
        }
    }
}

/// The context block assembled from ranked passages: each passage's `text`
/// field followed by a newline, in retrieval order; a passage without a
/// decodable `text` field is skipped.
pub open spec fn context_of(rs: Seq<PassageView>) -> Seq<char>
    decreases rs.len(),
{
    if rs.len() == 0 {
        Seq::empty()
    } else {
        let rest = context_of(rs.drop_last());
        if rs.last().metadata.contains_key("text"@) {
            rest + rs.last().metadata["text"@] + "\n"@
        } else {
            rest
        }
    }
}

/// Assembles the generation context from ranked passages, preserving their
/// order.  A passage lacking a `text` field is skipped rather than
/// contributing an empty line.
pub fn get_context_from_result(results: &Vec<VectorSearchResponse>) -> (r: String)
    ensures
        r@ == context_of(passage_views(results@)),
{
    let mut context = String::new();
    let key = String::from_str("text");
    let mut i: usize = 0;
    while i < results.len()
        invariant
            0 <= i <= results@.len(),
            key@ == "text"@,
            context@ == context_of(passage_views(results@.take(i as int))),
        decreases results@.len() - i,
    {
        match results[i].metadata.get(&key) {
            Some(text) => {
                context.append(text.as_str());
                context.append("\n");
            },
            None => {},
        }
        proof {
            assert(passage_views(results@.take(i as int + 1)).drop_last() =~= passage_views(
                results@.take(i as int),
            ));
            assert(passage_views(results@.take(i as int + 1)).last() == results@[i as int]@);
        }
        i = i + 1;
    }
    proof {
        assert(results@.take(i as int) =~= results@);
    }
    context
}

/// The k-nearest-neighbour query string for the named index and ranking
/// width.
pub open spec fn knn_query_spec(index_name: Seq<char>, count: nat) -> Seq<char> {
    "@_index_name:(\""@ + index_name + "\")=>[KNN "@ + decimal_digits(count)
        + " @embedding $vector AS vector_distance]"@
}

/// Builds the k-nearest-neighbour query string.
pub fn build_knn_query(index_name: &String, count: usize) -> (r: String)
    ensures
        r@ == knn_query_spec(index_name@, count as nat),
{
    let mut r = String::from_str("@_index_name:(\"");
    r.append(index_name.as_str());
    r.append("\")=>[KNN ");
    let n = format_usize(count);
    r.append(n.as_str());
    r.append(" @embedding $vector AS vector_distance]");
    r
}

/// Whether the index service client accepts a connection URL; acceptance
/// depends on the URL text alone, no connection being made.
pub uninterp spec fn redis_url_accepted(url: Seq<char>) -> bool;

/// Relies on `redis::Client::open`: it only validates the URL (it does not
/// connect), so success depends on the URL text alone.
#[verifier::external_body]
pub fn create_redis_client(redis_url: String) -> (r: Option<Arc<redis::Client>>)
    ensures
        r is Some <==> redis_url_accepted(redis_url@),
{
    match redis::Client::open(redis_url.as_str()) {
        Ok(client) => Some(Arc::new(client)),
        Err(_) => None,
    }
}

#[verifier::external_type_specification]
#[verifier::external_body]
pub struct ExRedisClient(redis::Client);

/// A handle on the similarity index: the validated client and the index
/// name the queries address.
pub struct RedisVectorStore {
    pub client: Arc<redis::Client>,
    pub index_name: String,
}

/// Builds the store from the configuration: validates the index service
/// address and keeps the configured index name.
pub fn create_redis_vector_store(config: &Config) -> (r: Option<Arc<RedisVectorStore>>)
    ensures
        r is Some <==> redis_url_accepted(config.redis_url@),
        r matches Some(s) ==> s.index_name@ == config.index_name@,
{
    match create_redis_client(config.redis_url.clone()) {
        Some(client) => Some(Arc::new(RedisVectorStore { client, index_name: config.index_name.clone() })),
        None => None,
    }
}

} // verus!
