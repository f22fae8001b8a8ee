//! Query nodes and the closed variant over all of them.

use vstd::prelude::*;
use crate::json::{jvals_of, lemma_jvals_of_push, JVal, JsonObj, JsonValue};

pub mod bool_query;
pub mod function_score;
pub mod match_phrase;
pub mod match_phrase_prefix;
pub mod match_query;
pub mod range;
pub mod regexp;
pub mod term;
pub mod terms;
pub mod wildcard;

pub use bool_query::BoolQuery;
pub use bool_query::BoolQueryBuilder;
pub use function_score::BoostMode;
pub use function_score::DecayFunction;
pub use function_score::FieldValueFactor;
pub use function_score::FunctionScoreQuery;
pub use function_score::FunctionScoreQueryBuilder;
pub use function_score::RandomScore;
pub use function_score::ScoreFunction;
pub use function_score::ScoreFunctionType;
pub use function_score::ScoreMode;
pub use function_score::ScriptScore;
pub use match_phrase::MatchPhraseQuery;
pub use match_phrase_prefix::MatchPhrasePrefixQuery;
pub use match_query::MatchQuery;
pub use range::RangeQuery;
pub use range::RangeQueryBuilder;
pub use regexp::RegexpQuery;
pub use regexp::RegexpQueryFlags;
pub use term::TermQuery;
pub use terms::TermsQuery;
pub use wildcard::WildcardQuery;

use bool_query::bool_query_jv;
use function_score::function_score_jv;
use match_phrase::match_phrase_jv;
use match_phrase_prefix::match_phrase_prefix_jv;
use match_query::match_query_jv;
use range::range_query_jv;
use regexp::regexp_query_jv;
use term::term_query_jv;
use terms::terms_query_jv;
use wildcard::wildcard_query_jv;

verus! {

/// The closed variant over every query node kind; composite kinds hold
/// `QueryType` children.
#[derive(Debug)]
pub enum QueryType {
    Term(TermQuery),
    Terms(TermsQuery),
    Match(MatchQuery),
    MatchPhrase(MatchPhraseQuery),
    MatchPhrasePrefix(MatchPhrasePrefixQuery),
    Bool(BoolQuery),
    Range(RangeQuery),
    MatchAll,
    WildCard(WildcardQuery),
    Regexp(RegexpQuery),
    FunctionScore(FunctionScoreQuery),
}

/// Wire shape of a match-all query: `{"match_all": {}}`.
pub open spec fn match_all_jv() -> JVal {
    JVal::Obj(seq![("match_all"@, JVal::Obj(Seq::<(Seq<char>, JVal)>::empty()))])
}

/// Wire shape of any query node.
pub open spec fn query_jv(q: QueryType) -> JVal
    decreases q, 2int,
{
    match q {
        QueryType::Term(t) => term_query_jv(t),
        QueryType::Terms(t) => terms_query_jv(t),
        QueryType::Match(m) => match_query_jv(m),
        QueryType::MatchPhrase(m) => match_phrase_jv(m),
        QueryType::MatchPhrasePrefix(m) => match_phrase_prefix_jv(m),
        QueryType::Bool(b) => bool_query_jv(b),
        QueryType::Range(r) => range_query_jv(r),
        QueryType::MatchAll => match_all_jv(),
        QueryType::WildCard(w) => wildcard_query_jv(w),
        QueryType::Regexp(r) => regexp_query_jv(r),
        QueryType::FunctionScore(f) => function_score_jv(f),
    }
}

/// Ghost images of a sequence of queries, in order.
pub open spec fn queries_jv(qs: Seq<QueryType>) -> Seq<JVal>
    decreases qs, 0int,
{
    if qs.len() == 0 {
        Seq::empty()
    } else {
        queries_jv(qs.subrange(0, qs.len() - 1)).push(query_jv(qs[qs.len() - 1]))
    }
}

/// Appending a query on the right extends the output on the right.
pub proof fn lemma_queries_jv_push(qs: Seq<QueryType>, q: QueryType)
    ensures
        queries_jv(qs.push(q)) == queries_jv(qs).push(query_jv(q)),
{
    let t = qs.push(q);
    assert(t.subrange(0, t.len() - 1) =~= qs);
    assert(t[t.len() - 1] == q);
}

/// The serialized array of a clause bucket keeps the bucket's insertion
/// order: it has the same length, and its i-th element is the projection of
/// the i-th child query.
pub proof fn lemma_queries_output_order(qs: Seq<QueryType>)
    ensures
        queries_jv(qs).len() == qs.len(),
        forall|i: int| 0 <= i < qs.len() ==> queries_jv(qs)[i] == query_jv(qs[i]),
    decreases qs,
{
    if qs.len() > 0 {
        lemma_queries_output_order(qs.subrange(0, qs.len() - 1));
        assert(forall|i: int|
            0 <= i < qs.len() - 1 ==> qs.subrange(0, qs.len() - 1)[i] == qs[i]);
    }
}

/// Project a vector of queries onto an ordered JSON array.
pub fn queries_to_array(qs: &Vec<QueryType>) -> (r: JsonValue)
    ensures
        r@ == JVal::Arr(queries_jv(qs@)),
    decreases qs@,
{
    let mut out: Vec<JsonValue> = Vec::new();
    let mut i: usize = 0;
    while i < qs.len()
        invariant
            i <= qs@.len(),
            jvals_of(out@) =~= queries_jv(qs@.subrange(0, i as int)),
        decreases qs@.len() - i,
    {
        proof {
            assert(decreases_to!(qs@ => qs@[i as int]));
        }
        let v = qs[i].to_json();
        proof {
            lemma_jvals_of_push(out@, v);
            lemma_queries_jv_push(qs@.subrange(0, i as int), qs@[i as int]);
            assert(qs@.subrange(0, i + 1 as int) =~= qs@.subrange(0, i as int).push(
                qs@[i as int],
            ));
        }
        out.push(v);
        i += 1;
    }
    proof {
        assert(qs@.subrange(0, qs@.len() as int) =~= qs@);
    }
    JsonValue::Arr(out)
}

impl QueryType {
    /// Project this query onto its wire shape.
    pub fn to_json(&self) -> (r: JsonValue)
        ensures
            r@ == query_jv(*self),
        decreases *self,
    {
        match self {
            QueryType::Term(t) => t.to_json(),
            QueryType::Terms(t) => t.to_json(),
            QueryType::Match(m) => m.to_json(),
            QueryType::MatchPhrase(m) => m.to_json(),
            QueryType::MatchPhrasePrefix(m) => m.to_json(),
            QueryType::Bool(b) => b.to_json(),
            QueryType::Range(r) => r.to_json(),
            QueryType::MatchAll => {
                let empty_obj = JsonObj::new();
                let mut root = JsonObj::new();
                root.push_field("match_all", empty_obj.finish());
                let r = root.finish();
                proof {
                    assert(r@ =~~= match_all_jv());
                }
                r
            },
            QueryType::WildCard(w) => w.to_json(),
            QueryType::Regexp(r) => r.to_json(),
            QueryType::FunctionScore(f) => f.to_json(),
        }
    }

    /// A term query variant.
    pub fn term(field: &str, value: JsonValue) -> (r: Self)
        ensures
            r matches QueryType::Term(t) && t.field@ == field@ && t.value == value && t.boost
                is None,
    {
        QueryType::Term(TermQuery::new(field, value))
    }

    /// A terms query variant.
    pub fn terms(field: &str, values: Vec<JsonValue>) -> (r: Self)
        ensures
            r matches QueryType::Terms(t) && t.field@ == field@ && t.values == values && t.boost
                is None,
    {
        QueryType::Terms(TermsQuery::new(field, values))
    }

    /// A match query variant.
    pub fn match_query(field: &str, query: &str) -> (r: Self)
        ensures
            r matches QueryType::Match(m) && m.field@ == field@ && m.query@ == query@
                && m.operator is None && m.fuzziness is None && m.boost is None
                && m.minimum_should_match is None,
    {
        QueryType::Match(MatchQuery::new(field, query))
    }

    /// A match-phrase query variant.
    pub fn match_phrase(field: &str, query: &str) -> (r: Self)
        ensures
            r matches QueryType::MatchPhrase(m) && m.field@ == field@ && m.query@ == query@
                && m.slop is None && m.analyzer is None && m.boost is None,
    {
        QueryType::MatchPhrase(MatchPhraseQuery::new(field, query))
    }

    /// A match-phrase-prefix query variant.
    pub fn match_phrase_prefix(field: &str, query: &str) -> (r: Self)
        ensures
            r matches QueryType::MatchPhrasePrefix(m) && m.field@ == field@ && m.query@ == query@
                && m.max_expansions is None && m.slop is None && m.boost is None,
    {
        QueryType::MatchPhrasePrefix(MatchPhrasePrefixQuery::new(field, query))
    }

    /// A wildcard query variant.
    pub fn wildcard(field: &str, value: &str, case_insensitive: bool) -> (r: Self)
        ensures
            r matches QueryType::WildCard(w) && w.field@ == field@ && w.value@ == value@
                && w.case_insensitive == case_insensitive && w.boost is None,
    {
        QueryType::WildCard(WildcardQuery::new(field, value, case_insensitive, None))
    }

    /// A regexp query variant.
    pub fn regexp(field: &str, value: &str) -> (r: Self)
        ensures
            r matches QueryType::Regexp(q) && q.field@ == field@ && q.value@ == value@ && q.flags
                is None,
    {
        QueryType::Regexp(RegexpQuery::new(field, value))
    }

    /// The match-all query.
    pub fn match_all() -> (r: Self)
        ensures
            r == QueryType::MatchAll,
    {
        QueryType::MatchAll
    }

    /// A builder for a bool query variant.
    pub fn bool_query() -> (r: BoolQueryBuilder)
        ensures
            r.inner_spec().must@ =~= Seq::<QueryType>::empty(),
            r.inner_spec().must_not@ =~= Seq::<QueryType>::empty(),
            r.inner_spec().should@ =~= Seq::<QueryType>::empty(),
            r.inner_spec().filter@ =~= Seq::<QueryType>::empty(),
            r.inner_spec().minimum_should_match is None,
            r.inner_spec().boost is None,
    {
        BoolQueryBuilder::new()
    }

    /// A builder for a range query variant on `field`.
    pub fn range(field: &str) -> (r: RangeQueryBuilder)
        ensures
            r.inner_spec().field@ == field@,
            r.inner_spec().gte is None,
            r.inner_spec().gt is None,
            r.inner_spec().lte is None,
            r.inner_spec().lt is None,
            r.inner_spec().boost is None,
    {
        RangeQueryBuilder::new(field)
    }

    /// A builder for a function-score query variant.
    pub fn function_score() -> (r: FunctionScoreQueryBuilder)
        ensures
            r.inner_spec().query is None,
            r.inner_spec().functions@ =~= Seq::<ScoreFunction>::empty(),
            r.inner_spec().score_mode is None,
            r.inner_spec().boost_mode is None,
            r.inner_spec().max_boost is None,
            r.inner_spec().boost is None,
            r.inner_spec().min_score is None,
    {
        FunctionScoreQueryBuilder::new()
    }
}

} // verus!
