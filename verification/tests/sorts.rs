use opensearch_dsl::{
    FieldSort, JsonNum, JsonValue, Lang, ScoreWithOrderSort, Script, ScriptSort, ScriptSortType,
    SortMode, SortOrder, SortType,
};

fn jstr(x: &str) -> JsonValue {
    JsonValue::Str(x.to_string())
}

fn jf64(x: f64) -> JsonValue {
    JsonValue::Num(JsonNum::FloatBits(x.to_bits()))
}

fn juint(n: u64) -> JsonValue {
    JsonValue::Num(JsonNum::UInt(n))
}

fn jobj(pairs: Vec<(&str, JsonValue)>) -> JsonValue {
    JsonValue::Obj(pairs.into_iter().map(|(k, v)| (k.to_string(), v)).collect())
}

#[test]
fn test_field_sort_simplified_format() {
    let sort = FieldSort::new("timestamp", SortOrder::Desc);
    let result = sort.to_json();

    assert_eq!(result, jobj(vec![("timestamp", jstr("desc"))]));
}

#[test]
fn test_field_sort_with_missing() {
    let sort = FieldSort::new("price", SortOrder::Asc).missing("_last");
    let result = sort.to_json();

    assert_eq!(
        result,
        jobj(vec![(
            "price",
            jobj(vec![("order", jstr("asc")), ("missing", jstr("_last"))])
        )])
    );
}

#[test]
fn test_field_sort_with_unmapped_type() {
    let sort = FieldSort::new("user_count", SortOrder::Desc).unmapped_type("long");
    let result = sort.to_json();

    assert_eq!(
        result,
        jobj(vec![(
            "user_count",
            jobj(vec![("order", jstr("desc")), ("unmapped_type", jstr("long"))])
        )])
    );
}

#[test]
fn test_field_sort_with_both_parameters() {
    let sort = FieldSort::new("score", SortOrder::Asc)
        .missing("_first")
        .unmapped_type("double");
    let result = sort.to_json();

    assert_eq!(
        result,
        jobj(vec![(
            "score",
            jobj(vec![
                ("order", jstr("asc")),
                ("missing", jstr("_first")),
                ("unmapped_type", jstr("double")),
            ])
        )])
    );
}

#[test]
fn test_score_sort() {
    let sort = SortType::Score;
    let result = sort.to_json();

    assert_eq!(result, jstr("_score"));
}

#[test]
fn test_score_with_order_asc() {
    let sort = ScoreWithOrderSort::new(SortOrder::Asc);
    let result = sort.to_json();

    assert_eq!(result, jobj(vec![("_score", jstr("asc"))]));
}

#[test]
fn test_score_with_order_desc() {
    let sort = ScoreWithOrderSort::new(SortOrder::Desc);
    let result = sort.to_json();

    assert_eq!(result, jobj(vec![("_score", jstr("desc"))]));
}

#[test]
fn test_sort_type_field_variant() {
    let field_sort = FieldSort::new("category", SortOrder::Asc);
    let sort_type = SortType::Field(field_sort);
    let result = sort_type.to_json();

    assert_eq!(result, jobj(vec![("category", jstr("asc"))]));
}

#[test]
fn test_sort_type_score_with_order_variant() {
    let score_sort = ScoreWithOrderSort::new(SortOrder::Desc);
    let sort_type = SortType::ScoreWithOrder(score_sort);
    let result = sort_type.to_json();

    assert_eq!(result, jobj(vec![("_score", jstr("desc"))]));
}

#[test]
fn test_field_sort_with_cow_str() {
    let first_sort = FieldSort::new("field1", SortOrder::Asc);
    let second_sort = FieldSort::new(&"field2".to_string(), SortOrder::Desc);

    let result1 = first_sort.to_json();
    let result2 = second_sort.to_json();

    assert_eq!(result1, jobj(vec![("field1", jstr("asc"))]));
    assert_eq!(result2, jobj(vec![("field2", jstr("desc"))]));
}

#[test]
fn test_script_sort_basic_number() {
    let script = Script {
        source: "doc['field_name'].value * params.factor".to_string(),
        lang: Lang::Painless,
        params: None,
    };
    let sort = ScriptSort {
        sort_type: ScriptSortType::Number,
        script,
        order: SortOrder::Desc,
        mode: None,
    };

    let result = sort.to_json();

    assert_eq!(
        result,
        jobj(vec![(
            "_script",
            jobj(vec![
                ("type", jstr("number")),
                (
                    "script",
                    jobj(vec![
                        ("source", jstr("doc['field_name'].value * params.factor")),
                        ("lang", jstr("painless")),
                    ])
                ),
                ("order", jstr("desc")),
            ])
        )])
    );
}

#[test]
fn test_script_sort_with_params() {
    let script = Script {
        source: "doc['field_name'].value * params.factor".to_string(),
        lang: Lang::Painless,
        params: Some(jobj(vec![("factor", jf64(1.5))])),
    };
    let sort = ScriptSort {
        sort_type: ScriptSortType::Number,
        script,
        order: SortOrder::Asc,
        mode: None,
    };

    let result = sort.to_json();

    assert_eq!(
        result,
        jobj(vec![(
            "_script",
            jobj(vec![
                ("type", jstr("number")),
                (
                    "script",
                    jobj(vec![
                        ("source", jstr("doc['field_name'].value * params.factor")),
                        ("lang", jstr("painless")),
                        ("params", jobj(vec![("factor", jf64(1.5))])),
                    ])
                ),
                ("order", jstr("asc")),
            ])
        )])
    );
}

#[test]
fn test_script_sort_string_type() {
    let script = Script {
        source: "doc['last_name'].value + ', ' + doc['first_name'].value".to_string(),
        lang: Lang::Painless,
        params: None,
    };
    let sort = ScriptSort {
        sort_type: ScriptSortType::Str,
        script,
        order: SortOrder::Asc,
        mode: None,
    };

    let result = sort.to_json();

    assert_eq!(
        result,
        jobj(vec![(
            "_script",
            jobj(vec![
                ("type", jstr("string")),
                (
                    "script",
                    jobj(vec![
                        (
                            "source",
                            jstr("doc['last_name'].value + ', ' + doc['first_name'].value")
                        ),
                        ("lang", jstr("painless")),
                    ])
                ),
                ("order", jstr("asc")),
            ])
        )])
    );
}

#[test]
fn test_script_sort_version_type() {
    let script = Script {
        source: "doc['version'].value".to_string(),
        lang: Lang::Painless,
        params: None,
    };
    let sort = ScriptSort {
        sort_type: ScriptSortType::Version,
        script,
        order: SortOrder::Desc,
        mode: None,
    };

    let result = sort.to_json();

    assert_eq!(
        result,
        jobj(vec![(
            "_script",
            jobj(vec![
                ("type", jstr("version")),
                (
                    "script",
                    jobj(vec![
                        ("source", jstr("doc['version'].value")),
                        ("lang", jstr("painless")),
                    ])
                ),
                ("order", jstr("desc")),
            ])
        )])
    );
}

#[test]
fn test_script_sort_with_mode_min() {
    let script = Script {
        source: "doc['ratings'].value".to_string(),
        lang: Lang::Painless,
        params: None,
    };
    let sort = ScriptSort {
        sort_type: ScriptSortType::Number,
        script,
        order: SortOrder::Asc,
        mode: Some(SortMode::Min),
    };

    let result = sort.to_json();

    assert_eq!(
        result,
        jobj(vec![(
            "_script",
            jobj(vec![
                ("type", jstr("number")),
                (
                    "script",
                    jobj(vec![
                        ("source", jstr("doc['ratings'].value")),
                        ("lang", jstr("painless")),
                    ])
                ),
                ("order", jstr("asc")),
                ("mode", jstr("min")),
            ])
        )])
    );
}

#[test]
fn test_script_sort_with_mode_max() {
    let script = Script {
        source: "doc['scores'].value".to_string(),
        lang: Lang::Painless,
        params: None,
    };
    let sort = ScriptSort {
        sort_type: ScriptSortType::Number,
        script,
        order: SortOrder::Desc,
        mode: Some(SortMode::Max),
    };

    let result = sort.to_json();

    assert_eq!(
        result,
        jobj(vec![(
            "_script",
            jobj(vec![
                ("type", jstr("number")),
                (
                    "script",
                    jobj(vec![
                        ("source", jstr("doc['scores'].value")),
                        ("lang", jstr("painless")),
                    ])
                ),
                ("order", jstr("desc")),
                ("mode", jstr("max")),
            ])
        )])
    );
}

#[test]
fn test_script_sort_with_mode_avg() {
    let script = Script {
        source: "doc['values'].value".to_string(),
        lang: Lang::Painless,
        params: None,
    };
    let sort = ScriptSort {
        sort_type: ScriptSortType::Number,
        script,
        order: SortOrder::Asc,
        mode: Some(SortMode::Avg),
    };

    let result = sort.to_json();

    assert_eq!(
        result,
        jobj(vec![(
            "_script",
            jobj(vec![
                ("type", jstr("number")),
                (
                    "script",
                    jobj(vec![
                        ("source", jstr("doc['values'].value")),
                        ("lang", jstr("painless")),
                    ])
                ),
                ("order", jstr("asc")),
                ("mode", jstr("avg")),
            ])
        )])
    );
}

#[test]
fn test_script_sort_with_expression_lang() {
    let script = Script {
        source: "doc['price'].value * 1.2".to_string(),
        lang: Lang::Expression,
        params: None,
    };
    let sort = ScriptSort {
        sort_type: ScriptSortType::Number,
        script,
        order: SortOrder::Asc,
        mode: None,
    };

    let result = sort.to_json();

    assert_eq!(
        result,
        jobj(vec![(
            "_script",
            jobj(vec![
                ("type", jstr("number")),
                (
                    "script",
                    jobj(vec![
                        ("source", jstr("doc['price'].value * 1.2")),
                        ("lang", jstr("expression")),
                    ])
                ),
                ("order", jstr("asc")),
            ])
        )])
    );
}

#[test]
fn test_script_sort_complex_with_all_options() {
    let script = Script {
        source: "Math.log(doc['value'].value) * params.multiplier".to_string(),
        lang: Lang::Painless,
        params: Some(jobj(vec![
            ("multiplier", jf64(2.5)),
            ("offset", juint(10)),
        ])),
    };
    let sort = ScriptSort {
        sort_type: ScriptSortType::Number,
        script,
        order: SortOrder::Desc,
        mode: Some(SortMode::Sum),
    };

    let result = sort.to_json();

    assert_eq!(
        result,
        jobj(vec![(
            "_script",
            jobj(vec![
                ("type", jstr("number")),
                (
                    "script",
                    jobj(vec![
                        ("source", jstr("Math.log(doc['value'].value) * params.multiplier")),
                        ("lang", jstr("painless")),
                        (
                            "params",
                            jobj(vec![("multiplier", jf64(2.5)), ("offset", juint(10))])
                        ),
                    ])
                ),
                ("order", jstr("desc")),
                ("mode", jstr("sum")),
            ])
        )])
    );
}

#[test]
fn test_script_sort_with_cow_str() {
    let first_script = Script::new("doc['field'].value");
    let second_script = Script {
        source: "doc['field'].value".to_string(),
        lang: Lang::Painless,
        params: None,
    };

    let sort1 = ScriptSort {
        sort_type: ScriptSortType::Number,
        script: first_script,
        order: SortOrder::Asc,
        mode: None,
    };

    let sort2 = ScriptSort {
        sort_type: ScriptSortType::Number,
        script: second_script,
        order: SortOrder::Asc,
        mode: None,
    };

    let result1 = sort1.to_json();
    let result2 = sort2.to_json();

    assert_eq!(result1, result2);
    assert_eq!(
        result1,
        jobj(vec![(
            "_script",
            jobj(vec![
                ("type", jstr("number")),
                (
                    "script",
                    jobj(vec![
                        ("source", jstr("doc['field'].value")),
                        ("lang", jstr("painless")),
                    ])
                ),
                ("order", jstr("asc")),
            ])
        )])
    );
}

#[test]
fn test_sort_codec_roundtrip_all_variants() {
    let sorts = vec![
        SortType::Field(
            FieldSort::new("price", SortOrder::Asc)
                .missing("_last")
                .unmapped_type("long"),
        ),
        SortType::Field(FieldSort::new("timestamp", SortOrder::Desc)),
        SortType::Score,
        SortType::ScoreWithOrder(ScoreWithOrderSort::new(SortOrder::Desc)),
        SortType::ScriptSort(
            ScriptSort::new(
                Script::new("doc['field'].value").lang(Lang::Expression).params(jobj(vec![(
                    "factor",
                    jf64(1.5),
                )])),
                ScriptSortType::Number,
                SortOrder::Asc,
            )
            .mode(SortMode::Avg),
        ),
    ];

    for sort in &sorts {
        let encoded = sort.encode();
        let decoded = SortType::decode(&encoded).expect("decoding an encoding succeeds");
        assert_eq!(decoded.encode(), encoded);
        assert_eq!(decoded.to_json(), sort.to_json());
    }
}

#[test]
fn test_sort_decode_rejects_malformed_input() {
    assert!(SortType::decode(&jstr("Score")).is_none());
    assert!(SortType::decode(&jobj(vec![("type", jstr("Score"))])).is_none());
    assert!(SortType::decode(&jobj(vec![
        ("type", jstr("Unknown")),
        ("params", JsonValue::Null),
    ]))
    .is_none());
}
