use vstd::prelude::*;
use crate::query::ClauseModel;

verus! {

/// The JSON string literal that serde_json writes for the text `s`, quotes and
/// escapes included.
pub uninterp spec fn json_quoted(s: Seq<char>) -> Seq<char>;

/// Relies on serde_json's `Display` for `Value::String`: the compact JSON
/// string literal for `s`, which depends on the characters of `s` alone.
#[verifier::external_body]
pub(crate) fn quote(s: &str) -> (r: String)
    ensures
        r@ == json_quoted(s@),
{
    serde_json::Value::from(s).to_string()
}

/// A bound as it stands in a range clause: the number's literal, or `null`.
pub open spec fn bound_text(n: Option<Seq<char>>) -> Seq<char> {
    match n {
        Some(t) => t,
        None => "null"@,
    }
}

/// `{"match":{field:value}}` or `{"range":{field:{"gte":lower,"lte":upper}}}`.
pub open spec fn clause_text(c: ClauseModel) -> Seq<char> {
    match c {
        ClauseModel::Match { field, value } => "{\"match\":{"@ + json_quoted(field) + ":"@ + json_quoted(
            value,
        ) + "}}"@,
        ClauseModel::Range { field, gte, lte } => "{\"range\":{"@ + json_quoted(field)
            + ":{\"gte\":"@ + bound_text(gte) + ",\"lte\":"@ + bound_text(lte) + "}}}"@,
    }
}

/// The clauses' texts joined by commas.
pub open spec fn clauses_text(cs: Seq<ClauseModel>) -> Seq<char>
    decreases cs.len(),
{
    if cs.len() == 0 {
        Seq::empty()
    } else if cs.len() == 1 {
        clause_text(cs[0])
    } else {
        clauses_text(cs.drop_last()) + ","@ + clause_text(cs.last())
    }
}

/// The request body for a boolean query: `{"query":{"bool":{"must":[...]}}}`.
pub open spec fn query_text(cs: Seq<ClauseModel>) -> Seq<char> {
    "{\"query\":{\"bool\":{\"must\":["@ + clauses_text(cs) + "]}}}"@
}

} // verus!
