//! Terms query: matches documents holding any of several exact values.

use vstd::prelude::*;
use vstd::string::StringExecFns;
use crate::json::{jvals_of, values_to_array, JVal, JsonNum, JsonObj, JsonValue};

verus! {

/// Terms query node: a required field and value list, plus an optional boost.
#[derive(Debug)]
pub struct TermsQuery {
    pub field: String,
    pub values: Vec<JsonValue>,
    pub boost: Option<JsonNum>,
}

/// Simple form: `{"terms": {field: [values]}}`.
pub open spec fn terms_query_simple_jv(q: TermsQuery) -> JVal {
    JVal::Obj(seq![("terms"@, JVal::Obj(seq![(q.field@, JVal::Arr(jvals_of(q.values@)))]))])
}

/// Object form: `{"terms": {field: {"terms": [values], "boost": boost}}}`.
pub open spec fn terms_query_object_jv(q: TermsQuery) -> JVal {
    JVal::Obj(
        seq![
            (
                "terms"@,
                JVal::Obj(
                    seq![
                        (
                            q.field@,
                            JVal::Obj(
                                seq![
                                    ("terms"@, JVal::Arr(jvals_of(q.values@))),
                                    ("boost"@, JVal::Num(q.boost->0)),
                                ],
                            ),
                        ),
                    ],
                ),
            ),
        ],
    )
}

/// Wire shape of a terms query: the object form exactly when boost is set.
pub open spec fn terms_query_jv(q: TermsQuery) -> JVal {
    if q.boost is Some {
        terms_query_object_jv(q)
    } else {
        terms_query_simple_jv(q)
    }
}

/// A terms query with no options serializes in the simple form; setting the
/// one optional field switches it to the object form.
pub proof fn lemma_terms_query_form_selection(q: TermsQuery)
    ensures
        q.boost is None ==> terms_query_jv(q) == terms_query_simple_jv(q),
        q.boost is Some ==> terms_query_jv(q) == terms_query_object_jv(q),
{
}

impl TermsQuery {
    /// A terms query on `field` for `values`, with no options set.
    pub fn new(field: &str, values: Vec<JsonValue>) -> (r: Self)
        ensures
            r.field@ == field@,
            r.values == values,
            r.boost is None,
    {
        TermsQuery { field: String::from_str(field), values, boost: None }
    }

    /// Set the boost.
    pub fn boost(self, boost: JsonNum) -> (r: Self)
        ensures
            r.field == self.field,
            r.values == self.values,
            r.boost == Some(boost),
    {
        TermsQuery { boost: Some(boost), ..self }
    }

    /// Project this node onto its wire shape.
    pub fn to_json(&self) -> (r: JsonValue)
        ensures
            r@ == terms_query_jv(*self),
    {
        let mut terms_obj = JsonObj::new();
        match &self.boost {
            Some(b) => {
                let mut field_obj = JsonObj::new();
                field_obj.push_field("terms", values_to_array(&self.values));
                field_obj.push_field("boost", JsonValue::Num(*b));
                proof {
                    assert(field_obj@ =~= seq![
                        ("terms"@, JVal::Arr(jvals_of(self.values@))),
                        ("boost"@, JVal::Num(self.boost->0)),
                    ]);
                }
                terms_obj.push_field(self.field.as_str(), field_obj.finish());
            },
            None => {
                terms_obj.push_field(self.field.as_str(), values_to_array(&self.values));
            },
        }
        let mut root = JsonObj::new();
        root.push_field("terms", terms_obj.finish());
        let r = root.finish();
        proof {
            assert(r@ =~~= terms_query_jv(*self));
        }
        r
    }
}

} // verus!
