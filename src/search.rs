use vstd::prelude::*;
use crate::number::Number;
use crate::query::{ClauseModel, OpenSearchQuery};
use crate::wire::query_text;
use vstd::string::StringExecFns;

verus! {

/// A JSON document as the backend returns it; an object keeps its members in
/// the order they came.
pub enum JsonValue {
    Null,
    Bool(bool),
    Number(Number),
    Str(String),
    Array(Vec<JsonValue>),
    Object(Vec<(String, JsonValue)>),
}

/// The value of the first member named `key`.
pub open spec fn lookup(es: Seq<(String, JsonValue)>, key: Seq<char>) -> Option<JsonValue>
    decreases es.len(),
{
    if es.len() == 0 {
        None
    } else if es[0].0@ == key {
        Some(es[0].1)
    } else {
        lookup(es.skip(1), key)
    }
}

/// The list under `hits.hits`, where it is there and is an array.
pub open spec fn hits_of(body: JsonValue) -> Option<Seq<JsonValue>> {
    match body {
        JsonValue::Object(es) => match lookup(es@, "hits"@) {
            Some(JsonValue::Object(inner)) => match lookup(inner@, "hits"@) {
                Some(JsonValue::Array(hs)) => Some(hs@),
                _ => None,
            },
            _ => None,
        },
        _ => None,
    }
}

/// A hit's `_source`; `null` where the hit holds none.
pub open spec fn source_of(hit: JsonValue) -> JsonValue {
    match hit {
        JsonValue::Object(es) => match lookup(es@, "_source"@) {
            Some(v) => v,
            None => JsonValue::Null,
        },
        _ => JsonValue::Null,
    }
}

/// Why a search failed.
pub enum SearchError {
    /// The backend could not be reached or the client could not be set up.
    Connection { cause: String },
    /// The search request on `index` failed.
    Backend { index: String, cause: String },
    /// The response for `index` has no `hits.hits` array.
    MalformedResponse { index: String },
    /// The document at `position` of the page could not be decoded.
    Decode { position: usize, cause: String },
}

/// Moves out the value of the first member named `key`.
fn take_member(members: Vec<(String, JsonValue)>, key: &str) -> (r: Option<JsonValue>)
    ensures
        r == lookup(members@, key@),
{
    let k = String::from_str(key);
    let mut es = members;
    let ghost all = es@;
    let mut i: usize = 0;
    assert(all.skip(0) =~= all);
    while i < es.len()
        invariant
            es@ == all,
            all == members@,
            i <= all.len(),
            k@ == key@,
            lookup(all, key@) == lookup(all.skip(i as int), key@),
        decreases all.len() - i,
    {
        assert(all.skip(i as int)[0] == all[i as int]);
        if es[i].0 == k {
            assert(lookup(all.skip(i as int), key@) == Some(all[i as int].1));
            let pair = es.remove(i);
            assert(pair == all[i as int]);

            return Some(pair.1);
        }
        assert(all.skip(i as int).skip(1) =~= all.skip(i + 1));
        i = i + 1;
    }
    None
}

/// The `_source` of each hit of a search response, in the order of the hits.
/// A response without a `hits.hits` array is malformed.
pub fn hit_sources(index: &str, body: JsonValue) -> (r: Result<Vec<JsonValue>, SearchError>)
    ensures
        hits_of(body) matches Some(hs) ==> (r matches Ok(v) && v@ == hs.map_values(
            |h: JsonValue| source_of(h),
        )),
        hits_of(body) is None ==> (r matches Err(SearchError::MalformedResponse { index: i })
            && i@ == index@),
{
    let ghost b = body;
    let hits = match body {
        JsonValue::Object(es) => match take_member(es, "hits") {
            Some(JsonValue::Object(inner)) => match take_member(inner, "hits") {
                Some(JsonValue::Array(hs)) => Some(hs),
                _ => None,
            },
            _ => None,
        },
        _ => None,
    };
    match hits {
        None => Err(SearchError::MalformedResponse { index: String::from_str(index) }),
        Some(hs) => {
            let ghost all = hs@;
            let mut hs = hs;
            let mut out: Vec<JsonValue> = Vec::new();
            let mut i: usize = 0;
            let n = hs.len();
            assert(all.skip(0) =~= all);
            while hs.len() > 0
                invariant
                    n == all.len(),
                    i + hs@.len() == all.len(),
                    hs@ == all.skip(i as int),
                    out@ == all.take(i as int).map_values(|h: JsonValue| source_of(h)),
                decreases hs@.len(),
            {
                let hit = hs.remove(0);
                let src = match hit {
                    JsonValue::Object(es) => match take_member(es, "_source") {
                        Some(v) => v,
                        None => JsonValue::Null,
                    },
                    _ => JsonValue::Null,
                };
                out.push(src);
                assert(hs@ =~= all.skip(i + 1));
                assert(all.take(i + 1) =~= all.take(i as int).push(all[i as int]));
                assert(out@ =~= all.take(i + 1).map_values(|h: JsonValue| source_of(h)));
                i = i + 1;
            }
            assert(all.take(i as int) =~= all);
            Ok(out)
        },
    }
}

/// Every decode succeeded.
pub open spec fn all_decoded<T>(rs: Seq<Result<T, String>>) -> bool {
    forall|i: int| 0 <= i < rs.len() ==> #[trigger] rs[i] is Ok
}

/// The position of the first failed decode.
pub open spec fn first_failure<T>(rs: Seq<Result<T, String>>, p: int) -> bool {
    0 <= p < rs.len() && rs[p] is Err && forall|i: int| 0 <= i < p ==> #[trigger] rs[i] is Ok
}

/// `e` names the first failed decode of `rs`, with its cause.
pub open spec fn reports_first_failure<T>(rs: Seq<Result<T, String>>, e: SearchError) -> bool {
    match e {
        SearchError::Decode { position, cause } => first_failure(rs, position as int) && match rs[position as int] {
            Err(c) => c@ == cause@,
            Ok(_) => false,
        },
        _ => false,
    }
}

/// The decoded documents of a page, all or nothing: the values in order where
/// every document decoded, else the first failure with its position.
pub fn collect_decoded<T>(decoded: Vec<Result<T, String>>) -> (r: Result<Vec<T>, SearchError>)
    ensures
        r is Ok <==> all_decoded(decoded@),
        r matches Ok(v) ==> v@.len() == decoded@.len() && forall|i: int|
            0 <= i < v@.len() ==> decoded@[i] == Ok::<T, String>(#[trigger] v@[i]),
        r matches Err(e) ==> reports_first_failure(decoded@, e),
{
    let ghost all = decoded@;
    let mut rest = decoded;
    let mut out: Vec<T> = Vec::new();
    let mut i: usize = 0;
    let n = rest.len();
    assert(all.skip(0) =~= all);
    while rest.len() > 0
        invariant
            n == all.len(),
            all == decoded@,
            i + rest@.len() == all.len(),
            rest@ == all.skip(i as int),
            out@.len() == i,
            forall|j: int| 0 <= j < i ==> all[j] == Ok::<T, String>(#[trigger] out@[j]),
        decreases rest@.len(),
    {
        assert(all.skip(i as int)[0] == all[i as int]);
        let item = rest.remove(0);
        match item {
            Ok(t) => out.push(t),
            Err(cause) => {
                assert forall|j: int| 0 <= j < i implies #[trigger] all[j] is Ok by {
                    assert(all[j] == Ok::<T, String>(out@[j]));
                }
                assert(all[i as int] == Err::<T, String>(cause));
                assert(!all_decoded(all));
                return Err(SearchError::Decode { position: i, cause });
            },
        }
        assert(rest@ =~= all.skip(i + 1));
        i = i + 1;
    }
    assert forall|j: int| 0 <= j < all.len() implies #[trigger] all[j] is Ok by {
        assert(all[j] == Ok::<T, String>(out@[j]));
    }
    Ok(out)
}

/// What a search request carries: the index, the page and the body.
pub struct RequestModel {
    pub index: Seq<char>,
    pub size: i64,
    pub from: i64,
    pub body: Seq<char>,
}

/// The request for the page of `limit` documents from `offset` on, of the
/// documents in `index` that match every clause of `clauses`.
pub open spec fn page_request(index: Seq<char>, limit: i64, offset: i64, clauses: Seq<ClauseModel>) -> RequestModel {
    RequestModel { index, size: limit, from: offset, body: query_text(clauses) }
}

/// The request for the first `limit` documents of `index`, with no clause.
pub open spec fn first_page_request(index: Seq<char>, limit: i64) -> RequestModel {
    RequestModel { index, size: limit, from: 0, body: "{\"query\":{\"bool\":{\"must\":[]}}}"@ }
}

/// A search request, ready to be sent: `size` and `from` are passed through
/// as given.
pub struct SearchRequest {
    index: String,
    size: i64,
    from: i64,
    body: String,
}

impl View for SearchRequest {
    type V = RequestModel;

    closed spec fn view(&self) -> RequestModel {
        RequestModel { index: self.index@, size: self.size, from: self.from, body: self.body@ }
    }
}

impl SearchRequest {
    /// The request for one page of the query's matches.
    pub fn page(index: &str, limit: i64, offset: i64, query: &OpenSearchQuery) -> (r: SearchRequest)
        ensures
            r@ == page_request(index@, limit, offset, query@),
    {
        SearchRequest { index: String::from_str(index), size: limit, from: offset, body: query.to_json() }
    }

    /// The request for the first `limit` documents of `index`.
    pub fn first_page(index: &str, limit: i64) -> (r: SearchRequest)
        ensures
            r@ == first_page_request(index@, limit),
    {
        let q = OpenSearchQuery::match_all();
        let r = SearchRequest::page(index, limit, 0, &q);
        proof {
            lemma_first_page_is_unfiltered_page(index@, limit);
        }
        r
    }

    pub fn index(&self) -> (r: &str)
        ensures
            r@ == self@.index,
    {
        self.index.as_str()
    }

    pub fn size(&self) -> (r: i64)
        ensures
            r == self@.size,
    {
        self.size
    }

    pub fn from(&self) -> (r: i64)
        ensures
            r == self@.from,
    {
        self.from
    }

    pub fn body(&self) -> (r: &str)
        ensures
            r@ == self@.body,
    {
        self.body.as_str()
    }
}

/// Asking for the first `limit` documents is asking for the page at offset
/// zero of the query with no clause.
pub proof fn lemma_first_page_is_unfiltered_page(index: Seq<char>, limit: i64)
    ensures
        first_page_request(index, limit) == page_request(index, limit, 0, Seq::<ClauseModel>::empty()),
{
    assert(crate::wire::clauses_text(Seq::<ClauseModel>::empty()) =~= Seq::<char>::empty());
    assert("{\"query\":{\"bool\":{\"must\":["@ + Seq::<char>::empty() + "]}}}"@ =~= "{\"query\":{\"bool\":{\"must\":[]}}}"@) by {
        reveal_strlit("{\"query\":{\"bool\":{\"must\":[");
        reveal_strlit("]}}}");
        reveal_strlit("{\"query\":{\"bool\":{\"must\":[]}}}");
    }
}

} // verus!
