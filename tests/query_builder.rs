use opensearch_service::{Number, OpenSearchQuery, OpenSearchQueryBuilder};

fn num(text: &str) -> Number {
    Number::parse(text).unwrap()
}

fn body(q: &OpenSearchQuery) -> String {
    q.to_json()
}

#[test]
fn match_clause_is_appended() {
    let q = OpenSearchQueryBuilder::new()
        .with_must_match("City", "Paris".to_string())
        .build();
    assert_eq!(q.clauses().len(), 1);
    assert_eq!(
        body(&q),
        r#"{"query":{"bool":{"must":[{"match":{"City":"Paris"}}]}}}"#
    );
}

#[test]
fn match_clauses_keep_call_order() {
    let q = OpenSearchQueryBuilder::new()
        .with_must_match("B", "2".to_string())
        .with_must_match("A", "1".to_string())
        .build();
    assert_eq!(
        body(&q),
        r#"{"query":{"bool":{"must":[{"match":{"B":"2"}},{"match":{"A":"1"}}]}}}"#
    );
}

#[test]
fn empty_match_value_adds_nothing() {
    let q = OpenSearchQueryBuilder::new()
        .with_must_match("Weather", String::new())
        .build();
    assert_eq!(q.clauses().len(), 0);
    assert_eq!(body(&q), r#"{"query":{"bool":{"must":[]}}}"#);
}

#[test]
fn open_range_is_still_appended() {
    let q = OpenSearchQueryBuilder::new()
        .with_must_range("Price", None, None)
        .build();
    assert_eq!(q.clauses().len(), 1);
    assert_eq!(
        body(&q),
        r#"{"query":{"bool":{"must":[{"range":{"Price":{"gte":null,"lte":null}}}]}}}"#
    );
}

#[test]
fn range_keeps_both_bounds() {
    let q = OpenSearchQueryBuilder::new()
        .with_must_range("Price", Some(num("100.5")), Some(num("-3e2")))
        .build();
    assert_eq!(
        body(&q),
        r#"{"query":{"bool":{"must":[{"range":{"Price":{"gte":100.5,"lte":-3e2}}}]}}}"#
    );
}

#[test]
fn build_holds_one_clause_per_kept_call() {
    let q = OpenSearchQueryBuilder::new()
        .with_must_match("OriginWeather", "Rain".to_string())
        .with_must_match("DestWeather", String::new())
        .with_must_range("AvgTicketPrice", Some(num("10")), None)
        .with_must_match("DestCityName", "Rome".to_string())
        .with_must_match("OriginCityName", String::new())
        .build();
    assert_eq!(q.clauses().len(), 3);
    assert_eq!(
        q.clauses()[0].to_json(),
        r#"{"match":{"OriginWeather":"Rain"}}"#
    );
    assert_eq!(
        q.clauses()[1].to_json(),
        r#"{"range":{"AvgTicketPrice":{"gte":10,"lte":null}}}"#
    );
    assert_eq!(q.clauses()[2].to_json(), r#"{"match":{"DestCityName":"Rome"}}"#);
}

#[test]
fn end_to_end_builder_chain() {
    let q = OpenSearchQueryBuilder::new()
        .with_must_match("City", "Paris".to_string())
        .with_must_match("Weather", String::new())
        .with_must_range("Price", None, Some(num("500.0")))
        .build();
    assert_eq!(q.clauses().len(), 2);
    assert_eq!(
        body(&q),
        r#"{"query":{"bool":{"must":[{"match":{"City":"Paris"}},{"range":{"Price":{"gte":null,"lte":500.0}}}]}}}"#
    );
}

#[test]
fn serialized_query_reads_back_as_the_same_clauses() {
    let q = OpenSearchQueryBuilder::new()
        .with_must_match("City", "Par\"is\n".to_string())
        .with_must_range("Price", Some(num("1.25")), Some(num("500.0")))
        .build();
    let v: serde_json::Value = serde_json::from_str(&body(&q)).unwrap();
    let must = v["query"]["bool"]["must"].as_array().unwrap();
    assert_eq!(must.len(), 2);
    assert_eq!(must[0]["match"]["City"].as_str(), Some("Par\"is\n"));
    assert_eq!(must[0]["match"].as_object().unwrap().len(), 1);
    assert_eq!(must[1]["range"]["Price"]["gte"].as_f64(), Some(1.25));
    assert_eq!(must[1]["range"]["Price"]["lte"].as_f64(), Some(500.0));
}

#[test]
fn field_names_are_escaped() {
    let q = OpenSearchQueryBuilder::new()
        .with_must_match("a\"b", "x\\y".to_string())
        .build();
    assert_eq!(
        q.clauses()[0].to_json(),
        r#"{"match":{"a\"b":"x\\y"}}"#
    );
}

#[test]
fn match_all_has_no_clause() {
    let q = OpenSearchQuery::match_all();
    assert_eq!(q.clauses().len(), 0);
    assert_eq!(body(&q), r#"{"query":{"bool":{"must":[]}}}"#);
}

#[test]
fn number_literals_are_checked() {
    for ok in ["0", "-0", "500", "500.0", "-1.5e-3", "2E+10", "123"] {
        let n = Number::parse(ok).unwrap();
        assert_eq!(n.as_text(), ok);
    }
    for bad in ["", "-", "01", "1.", ".5", "1e", "1e+", "abc", "1.2.3", "NaN", "+1", " 1"] {
        assert!(Number::parse(bad).is_none(), "{}", bad);
    }
}
