use opensearch_dsl::{
    BoolQueryBuilder, JsonNum, JsonValue, MatchPhraseQuery, MatchQuery, QueryType, RegexpQuery,
    RegexpQueryFlags, TermQuery, WildcardQuery,
};

fn jstr(x: &str) -> JsonValue {
    JsonValue::Str(x.to_string())
}

fn jf64(x: f64) -> JsonValue {
    JsonValue::Num(JsonNum::FloatBits(x.to_bits()))
}

fn jint(n: i64) -> JsonValue {
    JsonValue::Num(JsonNum::Int(n))
}

fn juint(n: u64) -> JsonValue {
    JsonValue::Num(JsonNum::UInt(n))
}

fn jobj(pairs: Vec<(&str, JsonValue)>) -> JsonValue {
    JsonValue::Obj(pairs.into_iter().map(|(k, v)| (k.to_string(), v)).collect())
}

fn jarr(items: Vec<JsonValue>) -> JsonValue {
    JsonValue::Arr(items)
}

fn at<'a>(v: &'a JsonValue, path: &[&str]) -> &'a JsonValue {
    let mut cur = v;
    for key in path {
        cur = match cur {
            JsonValue::Obj(pairs) => {
                let mut found = None;
                for p in pairs {
                    if p.0 == *key {
                        found = Some(&p.1);
                    }
                }
                found.expect("missing key")
            }
            _ => panic!("not an object"),
        };
    }
    cur
}

fn has_key(v: &JsonValue, key: &str) -> bool {
    match v {
        JsonValue::Obj(pairs) => pairs.iter().any(|p| p.0 == key),
        _ => false,
    }
}

#[test]
fn test_boost_floating_point() {
    let query = QueryType::Match(
        MatchQuery::new("field", "value").boost(JsonNum::FloatBits(0.1f64.to_bits())),
    );

    let json = query.to_json();

    assert_eq!(at(&json, &["match", "field", "boost"]), &jf64(0.1));
}

#[test]
fn test_term_query_simple() {
    let query = QueryType::term("status", jstr("published"));
    let json = query.to_json();

    assert_eq!(at(&json, &["term", "status"]), &jstr("published"));
}

#[test]
fn test_term_query_with_boost() {
    let query = QueryType::Term(
        TermQuery::new("status", jstr("published")).boost(JsonNum::FloatBits(2.0f64.to_bits())),
    );
    let json = query.to_json();

    assert_eq!(at(&json, &["term", "status", "value"]), &jstr("published"));
    assert_eq!(at(&json, &["term", "status", "boost"]), &jf64(2.0));
}

#[test]
fn test_match_phrase_simple() {
    let query = QueryType::match_phrase("content", "testing");
    let json = query.to_json();

    assert_eq!(at(&json, &["match_phrase", "content"]), &jstr("testing"));
}

#[test]
fn test_match_phrase_with_options() {
    let query = QueryType::MatchPhrase(MatchPhraseQuery::new("content", "testing").slop(2));
    let json = query.to_json();

    assert_eq!(
        at(&json, &["match_phrase", "content", "query"]),
        &jstr("testing")
    );
    assert_eq!(at(&json, &["match_phrase", "content", "slop"]), &juint(2));
}

#[test]
fn test_terms_query_simple() {
    let query = QueryType::terms("file_type", vec![jstr("pdf"), jstr("docx")]);
    let json = query.to_json();

    let expected_values = vec![jstr("pdf"), jstr("docx")];
    assert_eq!(at(&json, &["terms", "file_type"]), &jarr(expected_values));
}

#[test]
fn test_bool_query() {
    let bool_query = QueryType::bool_query()
        .must(QueryType::term("status", jstr("published")))
        .should(QueryType::match_query("title", "rust"))
        .minimum_should_match(1)
        .build();

    let json = bool_query.to_json();
    assert!(matches!(at(&json, &["bool", "must"]), JsonValue::Arr(_)));
    assert!(matches!(at(&json, &["bool", "should"]), JsonValue::Arr(_)));
    assert_eq!(at(&json, &["bool", "minimum_should_match"]), &jint(1));
}

#[test]
fn test_regexp_query() {
    let query = QueryType::bool_query()
        .must(QueryType::Regexp(RegexpQuery::new("content", "test\\&test")))
        .build();
    let json = query.to_json();

    let regexp = jobj(vec![(
        "regexp",
        jobj(vec![("content", jobj(vec![("value", jstr("test\\&test"))]))]),
    )]);

    assert_eq!(
        match at(&json, &["bool", "must"]) {
            JsonValue::Arr(items) => &items[0],
            _ => panic!("must is not an array"),
        },
        &regexp
    );
}

#[test]
fn test_regexp_query_with_flags() {
    let query = QueryType::bool_query()
        .must(QueryType::Regexp(RegexpQuery::new("content", "test\\&test").flags(vec![
            RegexpQueryFlags::Intersection,
            RegexpQueryFlags::Empty,
        ])))
        .build();
    let json = query.to_json();

    let regexp = jobj(vec![(
        "regexp",
        jobj(vec![(
            "content",
            jobj(vec![
                ("value", jstr("test\\&test")),
                ("flags", jstr("INTERSECTION|EMPTY")),
            ]),
        )]),
    )]);

    assert_eq!(
        match at(&json, &["bool", "must"]) {
            JsonValue::Arr(items) => &items[0],
            _ => panic!("must is not an array"),
        },
        &regexp
    );
}

#[test]
fn test_bool_query_builder() {
    let mut builder = BoolQueryBuilder::new();

    builder
        .must(QueryType::Term(TermQuery::new("a", jstr("a"))))
        .must_not(QueryType::Term(TermQuery::new("c", jstr("c"))));

    builder.must(QueryType::Term(TermQuery::new("b", jstr("b"))));

    builder.should(QueryType::Term(TermQuery::new("d", jstr("d"))));

    builder.minimum_should_match(1);

    let result = builder.build().to_json();

    assert_eq!(
        result,
        jobj(vec![(
            "bool",
            jobj(vec![
                (
                    "must",
                    jarr(vec![
                        jobj(vec![("term", jobj(vec![("a", jstr("a"))]))]),
                        jobj(vec![("term", jobj(vec![("b", jstr("b"))]))]),
                    ])
                ),
                (
                    "must_not",
                    jarr(vec![jobj(vec![("term", jobj(vec![("c", jstr("c"))]))])])
                ),
                (
                    "should",
                    jarr(vec![jobj(vec![("term", jobj(vec![("d", jstr("d"))]))])])
                ),
                ("minimum_should_match", jint(1)),
            ])
        )])
    );
}

#[test]
fn test_wildcard_query_without_boost() {
    let query = WildcardQuery::new("name", "*john*", true, None);
    let result = query.to_json();

    assert_eq!(
        result,
        jobj(vec![(
            "wildcard",
            jobj(vec![(
                "name",
                jobj(vec![
                    ("value", jstr("*john*")),
                    ("case_insensitive", JsonValue::Bool(true)),
                ])
            )])
        )])
    );
}

#[test]
fn test_wildcard_query_with_boost() {
    let query = WildcardQuery::new(
        "name",
        "*john*",
        false,
        Some(JsonNum::FloatBits(2.0f64.to_bits())),
    );
    let result = query.to_json();

    assert_eq!(
        result,
        jobj(vec![(
            "wildcard",
            jobj(vec![(
                "name",
                jobj(vec![
                    ("value", jstr("*john*")),
                    ("case_insensitive", JsonValue::Bool(false)),
                    ("boost", jf64(2.0)),
                ])
            )])
        )])
    );
}

#[test]
fn test_match_all_empty_object() {
    let json = QueryType::match_all().to_json();
    assert_eq!(json, jobj(vec![("match_all", jobj(vec![]))]));
}

#[test]
fn test_empty_bool_query_serializes_to_empty_object() {
    let json = QueryType::bool_query().build().to_json();
    assert_eq!(json, jobj(vec![("bool", jobj(vec![]))]));
    assert!(!has_key(at(&json, &["bool"]), "must"));
    assert!(!has_key(at(&json, &["bool"]), "must_not"));
    assert!(!has_key(at(&json, &["bool"]), "should"));
    assert!(!has_key(at(&json, &["bool"]), "filter"));
}

#[test]
fn test_match_query_all_options_key_order() {
    let query = MatchQuery::new("title", "rust")
        .operator("and")
        .fuzziness("AUTO")
        .boost(JsonNum::FloatBits(1.5f64.to_bits()))
        .minimum_should_match("80%");
    let json = query.to_json();

    assert_eq!(
        json,
        jobj(vec![(
            "match",
            jobj(vec![(
                "title",
                jobj(vec![
                    ("query", jstr("rust")),
                    ("operator", jstr("and")),
                    ("fuzziness", jstr("AUTO")),
                    ("boost", jf64(1.5)),
                    ("minimum_should_match", jstr("80%")),
                ])
            )])
        )])
    );
}

#[test]
fn test_range_query_bounds_only_when_set() {
    let query = QueryType::range("age").gte(juint(18)).lt(juint(65)).build();
    let json = query.to_json();

    assert_eq!(
        json,
        jobj(vec![(
            "range",
            jobj(vec![(
                "age",
                jobj(vec![("gte", juint(18)), ("lt", juint(65))])
            )])
        )])
    );
}

#[test]
fn test_regexp_flags_all_token() {
    let query = RegexpQuery::new("content", "a.*").flags(RegexpQueryFlags::all());
    let json = query.to_json();
    assert_eq!(at(&json, &["regexp", "content", "flags"]), &jstr("ALL"));
}
