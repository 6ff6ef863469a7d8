//! Plain values for the similarity-index service's replies, and the parsing
//! of those replies into string maps.
//!
//! A reply arrives as a nested wire value (integers, binary-safe strings,
//! arrays).  The unverified shell converts the client library's value into
//! [`RespValue`], variant for variant, and everything from there on is
//! verified: UTF-8 decoding of binary strings and the pairing of field names
//! with field values.

use vstd::prelude::*;
use vstd::utf8::valid_utf8;
use vstd::utf8::decode_utf8;

verus! {

/// One wire value of a search reply, reduced to what the parsing reads:
/// integers, binary-safe strings, arrays; every other shape is `Other`.
pub enum RespValue {
    Nil,
    Int(i64),
    BulkString(Vec<u8>),
    Array(Vec<RespValue>),
    Other,
}

/// A reply that could not be read as a search result.
pub struct ParseError;

/// A mapping from field names to text values, with later bindings shadowing
/// earlier ones.
pub struct StringMap {
    entries: Vec<(String, String)>,
}

/// The mathematical map a run of bindings denotes: each binding inserted in
/// order, so the last binding of a key wins.
pub open spec fn map_of(entries: Seq<(String, String)>) -> Map<Seq<char>, Seq<char>>
    decreases entries.len(),
{
    if entries.len() == 0 {
        Map::empty()
    } else {
        map_of(entries.drop_last()).insert(entries.last().0@, entries.last().1@)
    }
}

impl View for StringMap {
    type V = Map<Seq<char>, Seq<char>>;

    closed spec fn view(&self) -> Map<Seq<char>, Seq<char>> {
        map_of(self.entries@)
    }
}

proof fn lemma_map_of_last_binding(es: Seq<(String, String)>, i: int)
    requires
        0 <= i < es.len(),
        forall|j: int| i < j < es.len() ==> es[j].0@ != es[i].0@,
    ensures
        map_of(es).contains_key(es[i].0@),
        map_of(es)[es[i].0@] == es[i].1@,
    decreases es.len(),
{
    if i < es.len() - 1 {
        lemma_map_of_last_binding(es.drop_last(), i);
    }
}

proof fn lemma_map_of_absent(es: Seq<(String, String)>, k: Seq<char>)
    requires
        forall|j: int| 0 <= j < es.len() ==> es[j].0@ != k,
    ensures
        !map_of(es).contains_key(k),
    decreases es.len(),
{
    if es.len() > 0 {
        lemma_map_of_absent(es.drop_last(), k);
    }
}

impl StringMap {
    /// The empty mapping.
    pub fn new() -> (r: StringMap)
        ensures
            r@ == Map::<Seq<char>, Seq<char>>::empty(),
    {
        StringMap { entries: Vec::new() }
    }

    /// Binds `key` to `value`, shadowing any earlier binding of the key.
    pub fn insert(&mut self, key: String, value: String)
        ensures
            final(self)@ == old(self)@.insert(key@, value@),
    {
        self.entries.push((key, value));
        proof {
            assert(self.entries@.drop_last() =~= old(self).entries@);
        }
    }

    /// The value bound to `key`, if any.
    pub fn get(&self, key: &String) -> (r: Option<&String>)
        ensures
            match r {
                Some(v) => self@.contains_key(key@) && self@[key@] == v@,
                None => !self@.contains_key(key@),
            },
    {
        let mut i: usize = self.entries.len();
        while i > 0
            invariant
                0 <= i <= self.entries@.len(),
                forall|j: int| i <= j < self.entries@.len() ==> self.entries@[j].0@ != key@,
            decreases i,
        {
            i = i - 1;
            if self.entries[i].0 == *key {
                proof {
                    lemma_map_of_last_binding(self.entries@, i as int);
                }
                return Some(&self.entries[i].1);
            }
        }
        proof {
            lemma_map_of_absent(self.entries@, key@);
        }
        None
    }
}

/// Relies on std's `str::from_utf8`: it succeeds exactly on valid UTF-8 and
/// yields the characters the bytes encode.
#[verifier::external_body]
fn utf8_to_string(bytes: &Vec<u8>) -> (r: Option<String>)
    ensures
        r is Some <==> valid_utf8(bytes@),
        r matches Some(s) ==> s@ == decode_utf8(bytes@),
{
    match std::str::from_utf8(bytes.as_slice()) {
        Ok(s) => Some(s.to_string()),
        Err(_) => None,
    }
}

/// Reads a binary-safe wire string as text: succeeds exactly on a
/// `BulkString` holding valid UTF-8.
pub fn bulk_string_to_str(value: &RespValue) -> (r: Result<String, ()>)
    ensures
        match value {
            RespValue::BulkString(b) => {
                if valid_utf8(b@) {
                    r matches Ok(s) && s@ == decode_utf8(b@)
                } else {
                    r is Err
                }
            },
            _ => r is Err,
        },
{
    match value {
        RespValue::BulkString(bytes) => match utf8_to_string(bytes) {
            Some(s) => Ok(s),
            None => Err(()),
        },
        _ => Err(()),
    }
}

/// The field map read from a run of wire values: values are taken pairwise
/// as key then value; a value that is not a decodable string makes its pair
/// contribute nothing, a key that is not one is skipped alone, and a
/// trailing key without a value is dropped.
pub open spec fn pairs_from(items: Seq<RespValue>, acc: Map<Seq<char>, Seq<char>>) -> Map<
    Seq<char>,
    Seq<char>,
>
    decreases items.len(),
{
    if items.len() == 0 {
        acc
    } else {
        match items[0] {
            RespValue::BulkString(kb) => {
                if valid_utf8(kb@) {
                    if items.len() == 1 {
                        acc
                    } else {
                        match items[1] {
                            RespValue::BulkString(vb) => {
                                if valid_utf8(vb@) {
                                    pairs_from(
                                        items.skip(2),
                                        acc.insert(decode_utf8(kb@), decode_utf8(vb@)),
                                    )
                                } else {
                                    pairs_from(items.skip(2), acc)
                                }
                            },
                            _ => pairs_from(items.skip(2), acc),
                        }
                    }
                } else {
                    pairs_from(items.skip(1), acc)
                }
            },
            _ => pairs_from(items.skip(1), acc),
        }
    }
}

/// Reads an array wire value as a field map, pairing keys with values in
/// order; any other shape of value is an error.
pub fn from_redis_value_to_hm(v: &RespValue) -> (r: Result<StringMap, ParseError>)
    ensures
        match v {
            RespValue::Array(items) => r matches Ok(m) && m@ == pairs_from(
                items@,
                Map::empty(),
            ),
            _ => r is Err,
        },
{
    match v {
        RespValue::Array(items) => {
            let mut map = StringMap::new();
            let mut i: usize = 0;
            proof {
                assert(items@.skip(0) =~= items@);
            }
            while i < items.len()
                invariant
                    0 <= i <= items@.len(),
                    pairs_from(items@, Map::empty()) == pairs_from(
                        items@.skip(i as int),
                        map@,
                    ),
                decreases items@.len() - i,
            {
                proof {
                    assert(items@.skip(i as int)[0] == items@[i as int]);
                    assert(items@.skip(i as int).skip(1) =~= items@.skip(i as int + 1));
                    if i + 2 <= items@.len() {
                        assert(items@.skip(i as int).skip(2) =~= items@.skip(i as int + 2));
                        assert(items@.skip(i as int)[1] == items@[i as int + 1]);
                    }
                }
                match bulk_string_to_str(&items[i]) {
                    Ok(key) => {
                        if i + 1 < items.len() {
                            match bulk_string_to_str(&items[i + 1]) {
                                Ok(value) => {
                                    map.insert(key, value);
                                },
                                Err(_) => {},
                            }
                            i = i + 2;
                        } else {
                            i = i + 1;
                        }
                    },
                    Err(_) => {
                        i = i + 1;
                    },
                }
            }
            proof {
                assert(items@.skip(i as int) =~= Seq::<RespValue>::empty());
            }
            Ok(map)
        },
        _ => Err(ParseError),
    }
}

} // verus!
