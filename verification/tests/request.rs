use opensearch_dsl::{
    AggregationType, CardinalityAggregation, Collapse, FieldSort, Highlight, HighlightField,
    JsonNum, JsonValue, QueryType, SearchRequest, SearchRequestBuilder, SortOrder, SortType,
    TermsAggregation,
};

fn jstr(x: &str) -> JsonValue {
    JsonValue::Str(x.to_string())
}

fn jint(n: i64) -> JsonValue {
    JsonValue::Num(JsonNum::Int(n))
}

fn juint(n: u64) -> JsonValue {
    JsonValue::Num(JsonNum::UInt(n))
}

fn jobj(pairs: Vec<(&str, JsonValue)>) -> JsonValue {
    JsonValue::Obj(pairs.into_iter().map(|(k, v)| (k.to_string(), v)).collect())
}

fn jarr(items: Vec<JsonValue>) -> JsonValue {
    JsonValue::Arr(items)
}

fn at<'a>(v: &'a JsonValue, path: &[&str]) -> &'a JsonValue {
    let mut cur = v;
    for key in path {
        cur = match cur {
            JsonValue::Obj(pairs) => {
                let mut found = None;
                for p in pairs {
                    if p.0 == *key {
                        found = Some(&p.1);
                    }
                }
                found.expect("missing key")
            }
            _ => panic!("not an object"),
        };
    }
    cur
}

fn has_key(v: &JsonValue, key: &str) -> bool {
    match v {
        JsonValue::Obj(pairs) => pairs.iter().any(|p| p.0 == key),
        _ => false,
    }
}

fn elems(v: &JsonValue) -> &Vec<JsonValue> {
    match v {
        JsonValue::Arr(items) => items,
        _ => panic!("not an array"),
    }
}

#[test]
fn test_search_request_serialization() {
    let request = SearchRequest::new()
        .query(QueryType::match_query("title", "elasticsearch"))
        .size(10)
        .from(0)
        .sort(SortType::Field(FieldSort::new("created_at", SortOrder::Desc)));

    let json = request.to_json();
    assert_eq!(at(&json, &["query", "match", "title"]), &jstr("elasticsearch"));
    assert_eq!(at(&json, &["size"]), &juint(10));
    assert_eq!(at(&json, &["from"]), &juint(0));
}

#[test]
fn test_search_request_builder_dynamic() {
    let mut builder = SearchRequestBuilder::new();

    let include_query = true;
    let page = 2;
    let page_size = 20;

    if include_query {
        builder.query(QueryType::match_query("title", "rust programming"));
    }

    builder.from(page * page_size);
    builder.size(page_size);

    let sort_by_date = true;
    if sort_by_date {
        builder.add_sort(SortType::Field(FieldSort::new("created_at", SortOrder::Desc)));
    }

    builder.add_source_field("title".to_string());
    builder.add_source_field("content".to_string());
    builder.add_source_field("created_at".to_string());

    let categories = vec!["tech", "science"];
    for category in categories {
        builder.add_agg(
            format!("{}_count", category),
            AggregationType::Terms(TermsAggregation::new(category)),
        );
    }

    let request = builder.build();

    let json = request.to_json();
    assert!(matches!(at(&json, &["query"]), JsonValue::Obj(_)));
    assert_eq!(at(&json, &["size"]), &juint(20));
    assert_eq!(at(&json, &["from"]), &juint(40));
    assert_eq!(elems(at(&json, &["_source"])).len(), 3);
    assert!(matches!(at(&json, &["sort"]), JsonValue::Arr(_)));
    assert!(matches!(at(&json, &["aggs", "tech_count"]), JsonValue::Obj(_)));
    assert!(matches!(
        at(&json, &["aggs", "science_count"]),
        JsonValue::Obj(_)
    ));
}

#[test]
fn test_search_request_builder_mutable_updates() {
    let mut builder = SearchRequestBuilder::new();

    builder.query(QueryType::match_query("title", "rust"));

    builder.add_sort(SortType::Field(FieldSort::new("score", SortOrder::Desc)));
    builder.add_sort(SortType::Field(FieldSort::new("date", SortOrder::Desc)));

    builder.clear_sorts();
    builder.add_sort(SortType::Field(FieldSort::new("relevance", SortOrder::Asc)));

    builder.add_agg(
        "categories".to_string(),
        AggregationType::Terms(TermsAggregation::new("category")),
    );
    builder.add_agg(
        "authors".to_string(),
        AggregationType::Terms(TermsAggregation::new("author")),
    );

    builder.remove_agg("authors");

    let request = builder.build();
    let json = request.to_json();

    assert_eq!(elems(at(&json, &["sort"])).len(), 1);
    assert!(matches!(at(&json, &["aggs", "categories"]), JsonValue::Obj(_)));
    assert!(!has_key(at(&json, &["aggs"]), "authors"));
}

#[test]
fn test_search_request_builder_fluent_style() {
    let mut builder = SearchRequestBuilder::new();

    builder
        .query(QueryType::match_query("content", "opensearch"))
        .size(50)
        .from(0)
        .track_total_hits(true)
        .add_source_field("id".to_string())
        .add_source_field("title".to_string());

    let request = builder.build();
    let json = request.to_json();

    assert_eq!(at(&json, &["size"]), &juint(50));
    assert_eq!(at(&json, &["track_total_hits"]), &JsonValue::Bool(true));
    assert_eq!(elems(at(&json, &["_source"])).len(), 2);
}

#[test]
fn test_search_request_end_to_end() {
    let bool_query = QueryType::bool_query()
        .must(QueryType::terms("file_type", vec![jstr("pdf"), jstr("docx")]))
        .should(QueryType::term("owner_id", jstr("user")))
        .should(QueryType::terms("document_id", vec![]))
        .minimum_should_match(1)
        .build();

    let request = SearchRequest::new()
        .query(bool_query)
        .from(2)
        .size(2)
        .sort(SortType::Field(FieldSort::new("updated_at", SortOrder::Desc)))
        .highlight(Highlight::new().field(
            "content",
            HighlightField::new()
                .highlight_type("unified")
                .number_of_fragments(500)
                .pre_tags(vec!["<macro_em>".to_string()])
                .post_tags(vec!["</macro_em>".to_string()]),
        ));

    let json = request.to_json();

    let expected = jobj(vec![
        (
            "query",
            jobj(vec![(
                "bool",
                jobj(vec![
                    (
                        "must",
                        jarr(vec![jobj(vec![(
                            "terms",
                            jobj(vec![("file_type", jarr(vec![jstr("pdf"), jstr("docx")]))]),
                        )])]),
                    ),
                    (
                        "should",
                        jarr(vec![
                            jobj(vec![("term", jobj(vec![("owner_id", jstr("user"))]))]),
                            jobj(vec![("terms", jobj(vec![("document_id", jarr(vec![]))]))]),
                        ]),
                    ),
                    ("minimum_should_match", jint(1)),
                ]),
            )]),
        ),
        ("size", juint(2)),
        ("from", juint(2)),
        ("sort", jarr(vec![jobj(vec![("updated_at", jstr("desc"))])])),
        (
            "highlight",
            jobj(vec![(
                "fields",
                jobj(vec![(
                    "content",
                    jobj(vec![
                        ("type", jstr("unified")),
                        ("number_of_fragments", juint(500)),
                        ("pre_tags", jarr(vec![jstr("<macro_em>")])),
                        ("post_tags", jarr(vec![jstr("</macro_em>")])),
                    ]),
                )]),
            )]),
        ),
    ]);

    assert_eq!(json, expected);
}

#[test]
fn test_empty_request_serializes_to_empty_object() {
    let json = SearchRequest::new().to_json();
    assert_eq!(json, jobj(vec![]));
    assert!(!has_key(&json, "sort"));
    assert!(!has_key(&json, "aggs"));
    assert!(!has_key(&json, "_source"));
}

#[test]
fn test_sort_order_is_preserved() {
    let request = SearchRequest::new()
        .sort(SortType::Field(FieldSort::new("updated_at", SortOrder::Desc)))
        .sort(SortType::Field(FieldSort::new("document_id", SortOrder::Asc)));

    let json = request.to_json();

    assert_eq!(
        at(&json, &["sort"]),
        &jarr(vec![
            jobj(vec![("updated_at", jstr("desc"))]),
            jobj(vec![("document_id", jstr("asc"))]),
        ])
    );
}

#[test]
fn test_terms_aggregation_with_sub_aggs() {
    let agg = TermsAggregation::new("category").size(10).sub_agg(
        "unique_authors",
        AggregationType::Cardinality(CardinalityAggregation::new("author_id")),
    );

    let json = agg.to_json();

    assert_eq!(
        json,
        jobj(vec![
            (
                "terms",
                jobj(vec![("field", jstr("category")), ("size", juint(10))])
            ),
            (
                "aggs",
                jobj(vec![(
                    "unique_authors",
                    jobj(vec![(
                        "cardinality",
                        jobj(vec![("field", jstr("author_id"))])
                    )]),
                )]),
            ),
        ])
    );
}

#[test]
fn test_terms_aggregation_without_sub_aggs_omits_aggs_key() {
    let json = TermsAggregation::new("category").to_json();
    assert_eq!(
        json,
        jobj(vec![("terms", jobj(vec![("field", jstr("category"))]))])
    );
    assert!(!has_key(&json, "aggs"));
}

#[test]
fn test_collapse_serialization() {
    let request = SearchRequest::new().collapse(Collapse::new("user_id"));
    let json = request.to_json();
    assert_eq!(at(&json, &["collapse"]), &jobj(vec![("field", jstr("user_id"))]));
}

#[test]
fn test_highlight_empty_fields_omitted() {
    let highlight = Highlight::new().require_field_match(false);
    let json = highlight.to_json();
    assert_eq!(json, jobj(vec![("require_field_match", JsonValue::Bool(false))]));
    assert!(!has_key(&json, "fields"));
}

#[test]
fn test_highlight_field_empty_serializes_to_empty_object() {
    let json = HighlightField::new().to_json();
    assert_eq!(json, jobj(vec![]));
}

#[test]
fn test_agg_insert_replaces_existing_name() {
    let request = SearchRequest::new()
        .agg(
            "by_type".to_string(),
            AggregationType::Terms(TermsAggregation::new("file_type")),
        )
        .agg(
            "by_type".to_string(),
            AggregationType::Cardinality(CardinalityAggregation::new("file_type")),
        );

    let json = request.to_json();

    assert_eq!(
        at(&json, &["aggs"]),
        &jobj(vec![(
            "by_type",
            jobj(vec![("cardinality", jobj(vec![("field", jstr("file_type"))]))])
        )])
    );
}

#[test]
fn test_is_empty_slice() {
    let empty: Vec<u32> = Vec::new();
    assert!(opensearch_dsl::is_empty_slice(&empty));
    assert!(!opensearch_dsl::is_empty_slice(&[1u32, 2, 3]));
}

#[test]
fn test_aggregation_codec_roundtrip() {
    let agg = AggregationType::Terms(
        TermsAggregation::new("category").size(10).sub_agg(
            "unique_authors",
            AggregationType::Cardinality(CardinalityAggregation::new("author_id")),
        ),
    );

    let encoded = agg.encode();
    let decoded = AggregationType::decode(&encoded).expect("decoding an encoding succeeds");

    assert_eq!(decoded.encode(), encoded);
    assert_eq!(decoded.to_json(), agg.to_json());
}

#[test]
fn test_aggregation_codec_roundtrip_cardinality() {
    let agg = AggregationType::Cardinality(CardinalityAggregation::new("user_id"));

    let encoded = agg.encode();
    let decoded = AggregationType::decode(&encoded).expect("decoding an encoding succeeds");

    assert_eq!(decoded.encode(), encoded);
    assert_eq!(decoded.to_json(), agg.to_json());
}

#[test]
fn test_aggregation_decode_rejects_malformed_input() {
    assert!(AggregationType::decode(&JsonValue::Null).is_none());
    assert!(AggregationType::decode(&jobj(vec![("type", jstr("Terms"))])).is_none());
    assert!(AggregationType::decode(&jobj(vec![
        ("type", jstr("Unknown")),
        ("params", jobj(vec![])),
    ]))
    .is_none());
}
