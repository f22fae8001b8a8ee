use opensearch_dsl::{
    BoostMode, JsonNum, JsonValue, QueryType, ScoreFunction, ScoreMode,
};

fn jstr(x: &str) -> JsonValue {
    JsonValue::Str(x.to_string())
}

fn jf64(x: f64) -> JsonValue {
    JsonValue::Num(JsonNum::FloatBits(x.to_bits()))
}

fn juint(n: u64) -> JsonValue {
    JsonValue::Num(JsonNum::UInt(n))
}

fn fbits(x: f64) -> JsonNum {
    JsonNum::FloatBits(x.to_bits())
}

fn jobj(pairs: Vec<(&str, JsonValue)>) -> JsonValue {
    JsonValue::Obj(pairs.into_iter().map(|(k, v)| (k.to_string(), v)).collect())
}

fn at<'a>(v: &'a JsonValue, path: &[&str]) -> &'a JsonValue {
    let mut cur = v;
    for key in path {
        cur = match cur {
            JsonValue::Obj(pairs) => {
                let mut found = None;
                for p in pairs {
                    if p.0 == *key {
                        found = Some(&p.1);
                    }
                }
                found.expect("missing key")
            }
            _ => panic!("not an object"),
        };
    }
    cur
}

fn elems(v: &JsonValue) -> &Vec<JsonValue> {
    match v {
        JsonValue::Arr(items) => items,
        _ => panic!("not an array"),
    }
}

#[test]
fn test_function_score_with_gauss_decay() {
    let query = QueryType::function_score()
        .query(QueryType::match_query("content", "test"))
        .function(
            ScoreFunction::gauss("updated_at_seconds", "21d")
                .origin(jstr("now"))
                .offset("3d")
                .decay(fbits(0.5))
                .weight(fbits(1.3)),
        )
        .score_mode(ScoreMode::Multiply)
        .boost_mode(BoostMode::Multiply)
        .build();

    let json = query.to_json();

    assert!(matches!(
        at(&json, &["function_score", "query"]),
        JsonValue::Obj(_)
    ));
    assert!(matches!(
        at(&json, &["function_score", "functions"]),
        JsonValue::Arr(_)
    ));
    assert_eq!(elems(at(&json, &["function_score", "functions"])).len(), 1);
    assert_eq!(
        at(&json, &["function_score", "score_mode"]),
        &jstr("multiply")
    );
    assert_eq!(
        at(&json, &["function_score", "boost_mode"]),
        &jstr("multiply")
    );

    let function = &elems(at(&json, &["function_score", "functions"]))[0];
    assert!(matches!(
        at(function, &["gauss", "updated_at_seconds"]),
        JsonValue::Obj(_)
    ));
    assert_eq!(
        at(function, &["gauss", "updated_at_seconds", "origin"]),
        &jstr("now")
    );
    assert_eq!(
        at(function, &["gauss", "updated_at_seconds", "scale"]),
        &jstr("21d")
    );
    assert_eq!(
        at(function, &["gauss", "updated_at_seconds", "offset"]),
        &jstr("3d")
    );
    assert_eq!(
        at(function, &["gauss", "updated_at_seconds", "decay"]),
        &jf64(0.5)
    );
    assert_eq!(at(function, &["weight"]), &jf64(1.3));

    // The exact wire shape of the first function, as a whole value.
    assert_eq!(
        function,
        &jobj(vec![
            (
                "gauss",
                jobj(vec![(
                    "updated_at_seconds",
                    jobj(vec![
                        ("origin", jstr("now")),
                        ("scale", jstr("21d")),
                        ("offset", jstr("3d")),
                        ("decay", jf64(0.5)),
                    ])
                )])
            ),
            ("weight", jf64(1.3)),
        ])
    );
}

#[test]
fn test_function_score_complete_example() {
    let query = QueryType::function_score()
        .query(
            QueryType::bool_query()
                .should(QueryType::MatchPhrasePrefix(
                    opensearch_dsl::MatchPhrasePrefixQuery::new("document_name", "haskell")
                        .boost(fbits(100.0)),
                ))
                .should(QueryType::MatchPhrasePrefix(
                    opensearch_dsl::MatchPhrasePrefixQuery::new("content", "haskell")
                        .boost(fbits(90.0)),
                ))
                .should(QueryType::Match(
                    opensearch_dsl::MatchQuery::new("document_name", "haskell")
                        .boost(fbits(0.1))
                        .minimum_should_match("80%"),
                ))
                .should(QueryType::Match(
                    opensearch_dsl::MatchQuery::new("content", "haskell")
                        .boost(fbits(0.09))
                        .minimum_should_match("80%"),
                ))
                .minimum_should_match(1)
                .build(),
        )
        .function(
            ScoreFunction::gauss("updated_at_seconds", "21d")
                .origin(jstr("now"))
                .offset("3d")
                .decay(fbits(0.5))
                .weight(fbits(1.3)),
        )
        .score_mode(ScoreMode::Multiply)
        .boost_mode(BoostMode::Multiply)
        .build();

    let json = query.to_json();

    assert!(matches!(
        at(&json, &["function_score", "query", "bool"]),
        JsonValue::Obj(_)
    ));
    assert_eq!(
        elems(at(&json, &["function_score", "query", "bool", "should"])).len(),
        4
    );
    assert_eq!(
        at(&json, &["function_score", "query", "bool", "minimum_should_match"]),
        &JsonValue::Num(JsonNum::Int(1))
    );

    assert_eq!(elems(at(&json, &["function_score", "functions"])).len(), 1);
    assert_eq!(
        at(&json, &["function_score", "score_mode"]),
        &jstr("multiply")
    );
    assert_eq!(
        at(&json, &["function_score", "boost_mode"]),
        &jstr("multiply")
    );

    let function = &elems(at(&json, &["function_score", "functions"]))[0];
    assert_eq!(
        at(function, &["gauss", "updated_at_seconds", "origin"]),
        &jstr("now")
    );
    assert_eq!(
        at(function, &["gauss", "updated_at_seconds", "scale"]),
        &jstr("21d")
    );
    assert_eq!(
        at(function, &["gauss", "updated_at_seconds", "offset"]),
        &jstr("3d")
    );
    assert_eq!(
        at(function, &["gauss", "updated_at_seconds", "decay"]),
        &jf64(0.5)
    );
    assert_eq!(at(function, &["weight"]), &jf64(1.3));
}

#[test]
fn test_function_score_with_multiple_functions() {
    let query = QueryType::function_score()
        .query(QueryType::match_all())
        .function(
            ScoreFunction::gauss("location", "10km")
                .origin(jstr("40.0,-74.0"))
                .decay(fbits(0.33)),
        )
        .function(ScoreFunction::field_value_factor("popularity").factor(fbits(1.2)))
        .function(ScoreFunction::random_score().seed(juint(12345)))
        .score_mode(ScoreMode::Sum)
        .boost_mode(BoostMode::Replace)
        .build();

    let json = query.to_json();

    assert_eq!(elems(at(&json, &["function_score", "functions"])).len(), 3);
    assert_eq!(at(&json, &["function_score", "score_mode"]), &jstr("sum"));
    assert_eq!(
        at(&json, &["function_score", "boost_mode"]),
        &jstr("replace")
    );

    let func1 = &elems(at(&json, &["function_score", "functions"]))[0];
    assert!(matches!(at(func1, &["gauss", "location"]), JsonValue::Obj(_)));

    let func2 = &elems(at(&json, &["function_score", "functions"]))[1];
    assert_eq!(
        at(func2, &["field_value_factor", "field"]),
        &jstr("popularity")
    );
    assert_eq!(at(func2, &["field_value_factor", "factor"]), &jf64(1.2));

    let func3 = &elems(at(&json, &["function_score", "functions"]))[2];
    assert_eq!(at(func3, &["random_score", "seed"]), &juint(12345));
}

#[test]
fn test_function_score_with_filter() {
    let query = QueryType::function_score()
        .query(QueryType::match_all())
        .function(
            ScoreFunction::weight_only(fbits(2.0))
                .filter(QueryType::term("category", jstr("premium"))),
        )
        .build();

    let json = query.to_json();

    let function = &elems(at(&json, &["function_score", "functions"]))[0];
    assert_eq!(at(function, &["weight"]), &jf64(2.0));
    assert!(matches!(
        at(function, &["filter", "term", "category"]),
        JsonValue::Str(_)
    ));
}

#[test]
fn test_function_score_exp_decay() {
    let query = QueryType::function_score()
        .function(ScoreFunction::exp("date", "30d").origin(jstr("2024-01-01")))
        .build();

    let json = query.to_json();

    let function = &elems(at(&json, &["function_score", "functions"]))[0];
    assert!(matches!(at(function, &["exp", "date"]), JsonValue::Obj(_)));
    assert_eq!(at(function, &["exp", "date", "origin"]), &jstr("2024-01-01"));
    assert_eq!(at(function, &["exp", "date", "scale"]), &jstr("30d"));
}

#[test]
fn test_function_score_linear_decay() {
    let query = QueryType::function_score()
        .function(ScoreFunction::linear("price", "100").origin(juint(50)))
        .build();

    let json = query.to_json();

    let function = &elems(at(&json, &["function_score", "functions"]))[0];
    assert!(matches!(at(function, &["linear", "price"]), JsonValue::Obj(_)));
    assert_eq!(at(function, &["linear", "price", "origin"]), &juint(50));
    assert_eq!(at(function, &["linear", "price", "scale"]), &jstr("100"));
}

#[test]
fn test_function_score_with_max_boost() {
    let query = QueryType::function_score()
        .query(QueryType::match_all())
        .function(ScoreFunction::weight_only(fbits(2.0)))
        .max_boost(fbits(10.0))
        .build();

    let json = query.to_json();

    assert_eq!(at(&json, &["function_score", "max_boost"]), &jf64(10.0));
}

#[test]
fn test_function_score_with_min_score() {
    let query = QueryType::function_score()
        .query(QueryType::match_all())
        .function(ScoreFunction::weight_only(fbits(1.5)))
        .min_score(fbits(0.5))
        .build();

    let json = query.to_json();

    assert_eq!(at(&json, &["function_score", "min_score"]), &jf64(0.5));
}

#[test]
fn test_function_score_script_score() {
    let query = QueryType::function_score()
        .function(ScoreFunction::script_score("_score * doc['likes'].value"))
        .build();

    let json = query.to_json();

    let function = &elems(at(&json, &["function_score", "functions"]))[0];
    assert_eq!(
        at(function, &["script_score", "script", "source"]),
        &jstr("_score * doc['likes'].value")
    );
}

#[test]
fn test_function_score_all_modes() {
    let modes = vec![
        (ScoreMode::Multiply, "multiply"),
        (ScoreMode::Sum, "sum"),
        (ScoreMode::Avg, "avg"),
        (ScoreMode::First, "first"),
        (ScoreMode::Max, "max"),
        (ScoreMode::Min, "min"),
    ];

    for (mode, expected) in modes {
        let query = QueryType::function_score()
            .function(ScoreFunction::weight_only(fbits(1.0)))
            .score_mode(mode)
            .build();

        let json = query.to_json();
        assert_eq!(at(&json, &["function_score", "score_mode"]), &jstr(expected));
    }

    let boost_modes = vec![
        (BoostMode::Multiply, "multiply"),
        (BoostMode::Replace, "replace"),
        (BoostMode::Sum, "sum"),
        (BoostMode::Avg, "avg"),
        (BoostMode::Max, "max"),
        (BoostMode::Min, "min"),
    ];

    for (mode, expected) in boost_modes {
        let query = QueryType::function_score()
            .function(ScoreFunction::weight_only(fbits(1.0)))
            .boost_mode(mode)
            .build();

        let json = query.to_json();
        assert_eq!(at(&json, &["function_score", "boost_mode"]), &jstr(expected));
    }
}

#[test]
fn test_random_score_empty_object() {
    let query = QueryType::function_score()
        .function(ScoreFunction::random_score())
        .build();

    let json = query.to_json();

    let function = &elems(at(&json, &["function_score", "functions"]))[0];
    assert_eq!(at(function, &["random_score"]), &jobj(vec![]));
}

#[test]
fn test_function_score_empty_functions_omitted() {
    let query = QueryType::function_score()
        .query(QueryType::match_all())
        .build();

    let json = query.to_json();

    assert_eq!(
        json,
        jobj(vec![(
            "function_score",
            jobj(vec![("query", jobj(vec![("match_all", jobj(vec![]))]))])
        )])
    );
}
