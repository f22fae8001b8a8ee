//! Match query: full-text match on one field.

use vstd::prelude::*;
use vstd::string::StringExecFns;
use crate::json::{JVal, JsonNum, JsonObj, JsonValue};

verus! {

/// Match query node: a required field and query string, plus optional
/// operator, fuzziness, boost and minimum_should_match.
#[derive(Debug)]
pub struct MatchQuery {
    pub field: String,
    pub query: String,
    pub operator: Option<String>,
    pub fuzziness: Option<String>,
    pub boost: Option<JsonNum>,
    pub minimum_should_match: Option<String>,
}

/// Whether any optional field is set, which forces the object form.
pub open spec fn match_query_has_options(q: MatchQuery) -> bool {
    q.operator is Some || q.fuzziness is Some || q.boost is Some
        || q.minimum_should_match is Some
}

/// Fields of the object form, in the fixed key order
/// query, operator, fuzziness, boost, minimum_should_match.
pub open spec fn match_query_options_jv(q: MatchQuery) -> Seq<(Seq<char>, JVal)> {
    let ps = seq![("query"@, JVal::Str(q.query@))];
    let ps = if q.operator is Some {
        ps.push(("operator"@, JVal::Str(q.operator->0@)))
    } else {
        ps
    };
    let ps = if q.fuzziness is Some {
        ps.push(("fuzziness"@, JVal::Str(q.fuzziness->0@)))
    } else {
        ps
    };
    let ps = if q.boost is Some {
        ps.push(("boost"@, JVal::Num(q.boost->0)))
    } else {
        ps
    };
    if q.minimum_should_match is Some {
        ps.push(("minimum_should_match"@, JVal::Str(q.minimum_should_match->0@)))
    } else {
        ps
    }
}

/// Simple form: `{"match": {field: "query"}}`.
pub open spec fn match_query_simple_jv(q: MatchQuery) -> JVal {
    JVal::Obj(seq![("match"@, JVal::Obj(seq![(q.field@, JVal::Str(q.query@))]))])
}

/// Object form: `{"match": {field: {"query": ..., options...}}}`.
pub open spec fn match_query_object_jv(q: MatchQuery) -> JVal {
    JVal::Obj(seq![("match"@, JVal::Obj(seq![(q.field@, JVal::Obj(match_query_options_jv(q)))]))])
}

/// Wire shape of a match query: the object form exactly when an option is set.
pub open spec fn match_query_jv(q: MatchQuery) -> JVal {
    if match_query_has_options(q) {
        match_query_object_jv(q)
    } else {
        match_query_simple_jv(q)
    }
}

/// A match query with no options serializes in the simple form; setting any
/// optional field switches it to the object form.
pub proof fn lemma_match_query_form_selection(q: MatchQuery)
    ensures
        !match_query_has_options(q) ==> match_query_jv(q) == match_query_simple_jv(q),
        match_query_has_options(q) ==> match_query_jv(q) == match_query_object_jv(q),
{
}

impl MatchQuery {
    /// A match query on `field` for `query`, with no options set.
    pub fn new(field: &str, query: &str) -> (r: Self)
        ensures
            r.field@ == field@,
            r.query@ == query@,
            r.operator is None,
            r.fuzziness is None,
            r.boost is None,
            r.minimum_should_match is None,
    {
        MatchQuery {
            field: String::from_str(field),
            query: String::from_str(query),
            operator: None,
            fuzziness: None,
            boost: None,
            minimum_should_match: None,
        }
    }

    /// Set the operator.
    pub fn operator(self, operator: &str) -> (r: Self)
        ensures
            r.operator is Some,
            r.operator->0@ == operator@,
            r == (MatchQuery { operator: r.operator, ..self }),
    {
        MatchQuery { operator: Some(String::from_str(operator)), ..self }
    }

    /// Set the fuzziness.
    pub fn fuzziness(self, fuzziness: &str) -> (r: Self)
        ensures
            r.fuzziness is Some,
            r.fuzziness->0@ == fuzziness@,
            r == (MatchQuery { fuzziness: r.fuzziness, ..self }),
    {
        MatchQuery { fuzziness: Some(String::from_str(fuzziness)), ..self }
    }

    /// Set the boost.
    pub fn boost(self, boost: JsonNum) -> (r: Self)
        ensures
            r == (MatchQuery { boost: Some(boost), ..self }),
    {
        MatchQuery { boost: Some(boost), ..self }
    }

    /// Set the minimum_should_match expression.
    pub fn minimum_should_match(self, minimum_should_match: &str) -> (r: Self)
        ensures
            r.minimum_should_match is Some,
            r.minimum_should_match->0@ == minimum_should_match@,
            r == (MatchQuery { minimum_should_match: r.minimum_should_match, ..self }),
    {
        MatchQuery {
            minimum_should_match: Some(String::from_str(minimum_should_match)),
            ..self
        }
    }

    /// Whether any optional field is set.
    pub fn has_options(&self) -> (r: bool)
        ensures
            r == match_query_has_options(*self),
    {
        self.operator.is_some() || self.fuzziness.is_some() || self.boost.is_some()
            || self.minimum_should_match.is_some()
    }

    /// Project this node onto its wire shape.
    pub fn to_json(&self) -> (r: JsonValue)
        ensures
            r@ == match_query_jv(*self),
    {
        let mut match_obj = JsonObj::new();
        if self.has_options() {
            let mut field_obj = JsonObj::new();
            field_obj.push_field("query", JsonValue::Str(self.query.clone()));
            if let Some(operator) = &self.operator {
                field_obj.push_field("operator", JsonValue::Str(operator.clone()));
            }
            if let Some(fuzziness) = &self.fuzziness {
                field_obj.push_field("fuzziness", JsonValue::Str(fuzziness.clone()));
            }
            if let Some(b) = &self.boost {
                field_obj.push_field("boost", JsonValue::Num(*b));
            }
            if let Some(msm) = &self.minimum_should_match {
                field_obj.push_field("minimum_should_match", JsonValue::Str(msm.clone()));
            }
            proof {
                assert(field_obj@ =~= match_query_options_jv(*self));
            }
            match_obj.push_field(self.field.as_str(), field_obj.finish());
        } else {
            match_obj.push_field(self.field.as_str(), JsonValue::Str(self.query.clone()));
        }
        let mut root = JsonObj::new();
        root.push_field("match", match_obj.finish());
        let r = root.finish();
        proof {
            assert(r@ =~~= match_query_jv(*self));
        }
        r
    }
}

} // verus!
