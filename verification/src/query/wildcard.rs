//! Wildcard query: matches documents against a wildcard pattern.

use vstd::prelude::*;
use vstd::string::StringExecFns;
use crate::json::{JVal, JsonNum, JsonObj, JsonValue};

verus! {

/// Wildcard query node. The pattern is taken as given; callers wrap it in
/// `*` themselves. `case_insensitive` is always serialized; boost only if
/// set.
#[derive(Debug)]
pub struct WildcardQuery {
    pub field: String,
    pub value: String,
    pub case_insensitive: bool,
    pub boost: Option<JsonNum>,
}

/// Fields of the always-used object form, in the fixed key order
/// value, case_insensitive, boost.
pub open spec fn wildcard_options_jv(q: WildcardQuery) -> Seq<(Seq<char>, JVal)> {
    let ps = seq![
        ("value"@, JVal::Str(q.value@)),
        ("case_insensitive"@, JVal::Bool(q.case_insensitive)),
    ];
    if q.boost is Some {
        ps.push(("boost"@, JVal::Num(q.boost->0)))
    } else {
        ps
    }
}

/// Wire shape of a wildcard query: `{"wildcard": {field: {options...}}}`.
pub open spec fn wildcard_query_jv(q: WildcardQuery) -> JVal {
    JVal::Obj(seq![("wildcard"@, JVal::Obj(seq![(q.field@, JVal::Obj(wildcard_options_jv(q)))]))])
}

impl WildcardQuery {
    /// A wildcard query on `field` for the pattern `value`.
    pub fn new(field: &str, value: &str, case_insensitive: bool, boost: Option<JsonNum>) -> (r:
        Self)
        ensures
            r.field@ == field@,
            r.value@ == value@,
            r.case_insensitive == case_insensitive,
            r.boost == boost,
    {
        WildcardQuery {
            field: String::from_str(field),
            value: String::from_str(value),
            case_insensitive,
            boost,
        }
    }

    /// Set the boost.
    pub fn boost(self, boost: JsonNum) -> (r: Self)
        ensures
            r == (WildcardQuery { boost: Some(boost), ..self }),
    {
        WildcardQuery { boost: Some(boost), ..self }
    }

    /// Project this node onto its wire shape.
    pub fn to_json(&self) -> (r: JsonValue)
        ensures
            r@ == wildcard_query_jv(*self),
    {
        let mut field_obj = JsonObj::new();
        field_obj.push_field("value", JsonValue::Str(self.value.clone()));
        field_obj.push_field("case_insensitive", JsonValue::Bool(self.case_insensitive));
        if let Some(b) = &self.boost {
            field_obj.push_field("boost", JsonValue::Num(*b));
        }
        proof {
            assert(field_obj@ =~= wildcard_options_jv(*self));
        }
        let mut wildcard_obj = JsonObj::new();
        wildcard_obj.push_field(self.field.as_str(), field_obj.finish());
        let mut root = JsonObj::new();
        root.push_field("wildcard", wildcard_obj.finish());
        let r = root.finish();
        proof {
            assert(r@ =~~= wildcard_query_jv(*self));
        }
        r
    }
}

} // verus!
