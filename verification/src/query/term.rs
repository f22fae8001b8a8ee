//! Term query: matches documents holding an exact value in a field.

use vstd::prelude::*;
use vstd::string::StringExecFns;
use crate::json::{JVal, JsonNum, JsonObj, JsonValue};

verus! {

/// Term query node: a required field and value, plus an optional boost.
#[derive(Debug)]
pub struct TermQuery {
    pub field: String,
    pub value: JsonValue,
    pub boost: Option<JsonNum>,
}

/// Simple form: `{"term": {field: value}}`.
pub open spec fn term_query_simple_jv(q: TermQuery) -> JVal {
    JVal::Obj(seq![("term"@, JVal::Obj(seq![(q.field@, q.value@)]))])
}

/// Object form: `{"term": {field: {"value": value, "boost": boost}}}`.
pub open spec fn term_query_object_jv(q: TermQuery) -> JVal {
    JVal::Obj(
        seq![
            (
                "term"@,
                JVal::Obj(
                    seq![
                        (
                            q.field@,
                            JVal::Obj(
                                seq![
                                    ("value"@, q.value@),
                                    ("boost"@, JVal::Num(q.boost->0)),
                                ],
                            ),
                        ),
                    ],
                ),
            ),
        ],
    )
}

/// Wire shape of a term query: the object form exactly when boost is set.
pub open spec fn term_query_jv(q: TermQuery) -> JVal {
    if q.boost is Some {
        term_query_object_jv(q)
    } else {
        term_query_simple_jv(q)
    }
}

/// A term query with no options serializes in the simple form; setting the
/// one optional field switches it to the object form.
pub proof fn lemma_term_query_form_selection(q: TermQuery)
    ensures
        q.boost is None ==> term_query_jv(q) == term_query_simple_jv(q),
        q.boost is Some ==> term_query_jv(q) == term_query_object_jv(q),
{
}

impl TermQuery {
    /// A term query on `field` for `value`, with no options set.
    pub fn new(field: &str, value: JsonValue) -> (r: Self)
        ensures
            r.field@ == field@,
            r.value == value,
            r.boost is None,
    {
        TermQuery { field: String::from_str(field), value, boost: None }
    }

    /// Set the boost.
    pub fn boost(self, boost: JsonNum) -> (r: Self)
        ensures
            r.field == self.field,
            r.value == self.value,
            r.boost == Some(boost),
    {
        TermQuery { boost: Some(boost), ..self }
    }

    /// Project this node onto its wire shape.
    pub fn to_json(&self) -> (r: JsonValue)
        ensures
            r@ == term_query_jv(*self),
    {
        let mut term_obj = JsonObj::new();
        match &self.boost {
            Some(b) => {
                let mut field_obj = JsonObj::new();
                field_obj.push_field("value", self.value.deep_clone());
                field_obj.push_field("boost", JsonValue::Num(*b));
                proof {
                    assert(field_obj@ =~= seq![
                        ("value"@, self.value@),
                        ("boost"@, JVal::Num(self.boost->0)),
                    ]);
                }
                term_obj.push_field(self.field.as_str(), field_obj.finish());
            },
            None => {
                term_obj.push_field(self.field.as_str(), self.value.deep_clone());
            },
        }
        let mut root = JsonObj::new();
        root.push_field("term", term_obj.finish());
        let r = root.finish();
        proof {
            assert(r@ =~~= term_query_jv(*self));
        }
        r
    }
}

} // verus!
