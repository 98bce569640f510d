use vstd::prelude::*;
use crate::number::Number;
use crate::wire::{quote, clause_text, clauses_text, query_text};
use vstd::string::StringExecFns;

verus! {

/// The mathematical form of one must-clause.
pub enum ClauseModel {
    Match { field: Seq<char>, value: Seq<char> },
    Range { field: Seq<char>, gte: Option<Seq<char>>, lte: Option<Seq<char>> },
}

pub open spec fn opt_number_view(n: Option<Number>) -> Option<Seq<char>> {
    match n {
        Some(x) => Some(x@),
        None => None,
    }
}

pub open spec fn opt_number_wf(n: Option<Number>) -> bool {
    n matches Some(x) ==> x.wf()
}

/// A clause that matches `field` against `value`.
pub struct MatchStatement {
    field: String,
    value: String,
}

/// A clause that bounds `field` from below by `gte` and from above by `lte`,
/// both inclusive; an absent bound leaves that side open.
pub struct RangeStatement {
    field: String,
    gte: Option<Number>,
    lte: Option<Number>,
}

pub enum QueryStatement {
    MatchStatement(MatchStatement),
    RangeStatement(RangeStatement),
}

impl View for QueryStatement {
    type V = ClauseModel;

    closed spec fn view(&self) -> ClauseModel {
        match self {
            QueryStatement::MatchStatement(m) => ClauseModel::Match { field: m.field@, value: m.value@ },
            QueryStatement::RangeStatement(r) => ClauseModel::Range {
                field: r.field@,
                gte: opt_number_view(r.gte),
                lte: opt_number_view(r.lte),
            },
        }
    }
}

impl QueryStatement {
    /// The clause as it is sent: see `clause_text`.
    pub fn to_json(&self) -> (r: String)
        ensures
            r@ == clause_text(self@),
    {
        match self {
            QueryStatement::MatchStatement(m) => {
                let mut out = String::from_str("{\"match\":{");
                let f = quote(m.field.as_str());
                out.append(f.as_str());
                out.append(":");
                let v = quote(m.value.as_str());
                out.append(v.as_str());
                out.append("}}");
                out
            },
            QueryStatement::RangeStatement(r) => {
                let mut out = String::from_str("{\"range\":{");
                let f = quote(r.field.as_str());
                out.append(f.as_str());
                out.append(":{\"gte\":");
                match &r.gte {
                    Some(n) => out.append(n.as_text()),
                    None => out.append("null"),
                }
                out.append(",\"lte\":");
                match &r.lte {
                    Some(n) => out.append(n.as_text()),
                    None => out.append("null"),
                }
                out.append("}}}");
                out
            },
        }
    }

    pub closed spec fn wf(&self) -> bool {
        match self {
            QueryStatement::MatchStatement(m) => m.value@.len() > 0,
            QueryStatement::RangeStatement(r) => opt_number_wf(r.gte) && opt_number_wf(r.lte),
        }
    }
}

/// The conjunction of clauses, in the order they were added.
pub struct MustQuery {
    must: Vec<QueryStatement>,
}

pub struct BoolQuery {
    bool_query: MustQuery,
}

/// A boolean query whose every clause must hold.
pub struct OpenSearchQuery {
    query: BoolQuery,
}

impl View for OpenSearchQuery {
    type V = Seq<ClauseModel>;

    closed spec fn view(&self) -> Seq<ClauseModel> {
        self.query.bool_query.must@.map_values(|c: QueryStatement| c@)
    }
}

impl OpenSearchQuery {
    pub closed spec fn wf(&self) -> bool {
        forall|i: int| 0 <= i < self.query.bool_query.must@.len() ==> #[trigger] self.query.bool_query.must@[i].wf()
    }

    /// The query with no clause, which matches every document.
    pub fn match_all() -> (r: OpenSearchQuery)
        ensures
            r@ == Seq::<ClauseModel>::empty(),
            r.wf(),
    {
        let r = OpenSearchQuery { query: BoolQuery { bool_query: MustQuery { must: Vec::new() } } };
        assert(r@ =~= Seq::<ClauseModel>::empty());
        r
    }

    /// The request body that carries this query: see `query_text`.
    pub fn to_json(&self) -> (r: String)
        ensures
            r@ == query_text(self@),
    {
        let cs = &self.query.bool_query.must;
        let ghost model = self@;
        let mut out = String::from_str("{\"query\":{\"bool\":{\"must\":[");
        let ghost head = out@;
        let mut i: usize = 0;
        while i < cs.len()
            invariant
                i <= cs@.len(),
                model == cs@.map_values(|c: QueryStatement| c@),
                out@ == head + clauses_text(model.take(i as int)),
            decreases cs@.len() - i,
        {
            let ghost before = out@;
            if i > 0 {
                out.append(",");
            }
            let t = cs[i].to_json();
            out.append(t.as_str());
            assert(model.take(i + 1).drop_last() =~= model.take(i as int));
            assert(model.take(i + 1).last() == model[i as int]);
            if i == 0 {
                assert(clauses_text(model.take(0)) =~= Seq::<char>::empty());
                assert(out@ =~= head + clauses_text(model.take(1)));
            } else {
                assert(out@ =~= head + clauses_text(model.take(i + 1)));
            }
            i = i + 1;
        }
        assert(model.take(cs@.len() as int) =~= model);
        out.append("]}}}");
        out
    }

    /// The clauses, in order.
    pub fn clauses(&self) -> (r: &Vec<QueryStatement>)
        ensures
            r@.map_values(|c: QueryStatement| c@) == self@,
    {
        &self.query.bool_query.must
    }
}

/// One call on a builder, as a value: what the caller handed in.
pub enum BuilderCall {
    Match { field: Seq<char>, value: Seq<char> },
    Range { field: Seq<char>, gte: Option<Seq<char>>, lte: Option<Seq<char>> },
}

/// A match call with an empty value adds nothing.
pub open spec fn is_skipped(c: BuilderCall) -> bool {
    c matches BuilderCall::Match { value, .. } && value.len() == 0
}

pub open spec fn clause_of(c: BuilderCall) -> ClauseModel {
    match c {
        BuilderCall::Match { field, value } => ClauseModel::Match { field, value },
        BuilderCall::Range { field, gte, lte } => ClauseModel::Range { field, gte, lte },
    }
}

/// The clauses after one more call.
pub open spec fn apply_call(s: Seq<ClauseModel>, c: BuilderCall) -> Seq<ClauseModel> {
    if is_skipped(c) {
        s
    } else {
        s.push(clause_of(c))
    }
}

/// The clauses after a sequence of calls on `s`.
pub open spec fn apply_calls(s: Seq<ClauseModel>, calls: Seq<BuilderCall>) -> Seq<ClauseModel>
    decreases calls.len(),
{
    if calls.len() == 0 {
        s
    } else {
        apply_call(apply_calls(s, calls.drop_last()), calls.last())
    }
}

/// Accumulates must-clauses into a query.
pub struct OpenSearchQueryBuilder {
    query: OpenSearchQuery,
}

impl View for OpenSearchQueryBuilder {
    type V = Seq<ClauseModel>;

    closed spec fn view(&self) -> Seq<ClauseModel> {
        self.query@
    }
}

impl OpenSearchQueryBuilder {
    pub closed spec fn wf(&self) -> bool {
        self.query.wf()
    }

    /// A builder holding no clause.
    pub fn new() -> (r: Self)
        ensures
            r@ == Seq::<ClauseModel>::empty(),
            r.wf(),
    {
        OpenSearchQueryBuilder { query: OpenSearchQuery::match_all() }
    }

    /// Adds a match of `field` against `value`; an empty `value` adds nothing.
    pub fn with_must_match(self, field: &str, value: String) -> (r: Self)
        requires
            self.wf(),
        ensures
            r.wf(),
            r@ == apply_call(self@, BuilderCall::Match { field: field@, value: value@ }),
            value@.len() == 0 ==> r@ == self@,
            value@.len() > 0 ==> r@ == self@.push(ClauseModel::Match { field: field@, value: value@ }),
    {
        let mut b = self;
        if value.as_str().is_empty() {
            return b;
        }
        let m = MatchStatement { field: String::from_str(field), value };
        b.query.query.bool_query.must.push(QueryStatement::MatchStatement(m));
        assert(b@ =~= self@.push(ClauseModel::Match { field: field@, value: value@ }));
        b
    }

    /// Adds a range on `field` with the bounds `from` (lower) and `to` (upper),
    /// whether or not either bound is present.
    pub fn with_must_range(self, field: &str, from: Option<Number>, to: Option<Number>) -> (r: Self)
        requires
            self.wf(),
            opt_number_wf(from),
            opt_number_wf(to),
        ensures
            r.wf(),
            r@ == apply_call(
                self@,
                BuilderCall::Range { field: field@, gte: opt_number_view(from), lte: opt_number_view(to) },
            ),
            r@ == self@.push(
                ClauseModel::Range { field: field@, gte: opt_number_view(from), lte: opt_number_view(to) },
            ),
    {
        let mut b = self;
        let rs = RangeStatement { field: String::from_str(field), gte: from, lte: to };
        b.query.query.bool_query.must.push(QueryStatement::RangeStatement(rs));
        assert(b@ =~= self@.push(
            ClauseModel::Range { field: field@, gte: opt_number_view(from), lte: opt_number_view(to) },
        ));
        b
    }

    /// The finished query, holding the clauses in the order they were added.
    pub fn build(self) -> (r: OpenSearchQuery)
        requires
            self.wf(),
        ensures
            r@ == self@,
            r.wf(),
    {
        self.query
    }
}

/// The clauses after a sequence of calls are the clauses before, followed by
/// one clause for each call that was not skipped, in call order; a match call
/// with an empty value is the only one skipped.
pub proof fn lemma_calls_append_kept(s: Seq<ClauseModel>, calls: Seq<BuilderCall>)
    ensures
        apply_calls(s, calls) == s + calls.filter(|c: BuilderCall| !is_skipped(c)).map_values(
            |c: BuilderCall| clause_of(c),
        ),
        apply_calls(s, calls).len() == s.len() + calls.filter(|c: BuilderCall| !is_skipped(c)).len(),
    decreases calls.len(),
{
    let keep = |c: BuilderCall| !is_skipped(c);
    if calls.len() == 0 {
        assert(calls.filter(keep) =~= Seq::<BuilderCall>::empty());
        assert(s + Seq::<ClauseModel>::empty() =~= s);
    } else {
        lemma_calls_append_kept(s, calls.drop_last());
        reveal(Seq::filter);
        assert(calls.drop_last() + seq![calls.last()] =~= calls);
        Seq::filter_distributes_over_add(calls.drop_last(), seq![calls.last()], keep);
        let kept = calls.drop_last().filter(keep);
        if is_skipped(calls.last()) {
            assert(seq![calls.last()].filter(keep) =~= Seq::<BuilderCall>::empty());
            assert(kept + Seq::<BuilderCall>::empty() =~= kept);
        } else {
            assert(seq![calls.last()].filter(keep) =~= seq![calls.last()]);
            assert((kept + seq![calls.last()]).map_values(|c: BuilderCall| clause_of(c)) =~= kept.map_values(
                |c: BuilderCall| clause_of(c),
            ).push(clause_of(calls.last())));
            assert(s + kept.map_values(|c: BuilderCall| clause_of(c)).push(clause_of(calls.last())) =~= (s
                + kept.map_values(|c: BuilderCall| clause_of(c))).push(clause_of(calls.last())));
        }
    }
}

/// A match call with an empty value leaves the clause count as it was.
pub proof fn lemma_empty_match_keeps_count(s: Seq<ClauseModel>, field: Seq<char>)
    ensures
        apply_call(s, BuilderCall::Match { field, value: Seq::empty() }).len() == s.len(),
{
}

/// A range call adds exactly one clause with the given field and bounds,
/// whichever bounds are absent.
pub proof fn lemma_range_always_added(
    s: Seq<ClauseModel>,
    field: Seq<char>,
    gte: Option<Seq<char>>,
    lte: Option<Seq<char>>,
)
    ensures
        apply_call(s, BuilderCall::Range { field, gte, lte }).len() == s.len() + 1,
        apply_call(s, BuilderCall::Range { field, gte, lte }).last() == (ClauseModel::Range { field, gte, lte }),
{
}

} // verus!
