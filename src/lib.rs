use vstd::prelude::*;

pub mod number;
pub mod query;
pub mod search;
pub mod wire;

pub use number::Number;
pub use query::{
    BoolQuery, MatchStatement, MustQuery, OpenSearchQuery, OpenSearchQueryBuilder, QueryStatement,
    RangeStatement,
};
pub use search::{collect_decoded, hit_sources, JsonValue, SearchError, SearchRequest};

verus! {

/// A geographic point as the documents store it: latitude and longitude as text.
pub struct Location {
    pub lat: String,
    pub lon: String,
}

impl Location {
    pub fn new(lat: String, lon: String) -> (r: Location)
        ensures
            r.lat@ == lat@,
            r.lon@ == lon@,
    {
        Location { lat, lon }
    }

}

} // verus!
