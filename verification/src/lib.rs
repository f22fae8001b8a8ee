//! Typed builders for OpenSearch-style query documents.
//!
//! Callers assemble a query from typed nodes (leaf queries, bool and
//! function-score composites, sorts, aggregations, highlighting) and project
//! the finished tree onto a structured JSON value with `to_json`. Every
//! projection carries a contract pinning down the exact wire shape, including
//! the simple-form versus object-form policy and the omission of unset
//! optional fields.

pub mod json;
pub mod keymap;
pub mod query;
pub mod request;
pub mod util;

pub use json::JsonNum;
pub use json::JsonValue;
pub use json::JVal;

pub use query::BoolQuery;
pub use query::BoolQueryBuilder;
pub use query::BoostMode;
pub use query::DecayFunction;
pub use query::FieldValueFactor;
pub use query::FunctionScoreQuery;
pub use query::FunctionScoreQueryBuilder;
pub use query::MatchPhraseQuery;
pub use query::MatchPhrasePrefixQuery;
pub use query::MatchQuery;
pub use query::QueryType;
pub use query::RandomScore;
pub use query::RangeQuery;
pub use query::RangeQueryBuilder;
pub use query::RegexpQuery;
pub use query::RegexpQueryFlags;
pub use query::ScoreFunction;
pub use query::ScoreFunctionType;
pub use query::ScoreMode;
pub use query::ScriptScore;
pub use query::TermQuery;
pub use query::TermsQuery;
pub use query::WildcardQuery;

pub use request::AggregationType;
pub use request::CardinalityAggregation;
pub use request::Collapse;
pub use request::FieldSort;
pub use request::Highlight;
pub use request::HighlightField;
pub use request::Lang;
pub use request::ScoreWithOrderSort;
pub use request::Script;
pub use request::ScriptSort;
pub use request::ScriptSortType;
pub use request::SearchRequest;
pub use request::SearchRequestBuilder;
pub use request::SortMode;
pub use request::SortOrder;
pub use request::SortType;
pub use request::TermsAggregation;

pub use util::is_empty_slice;
