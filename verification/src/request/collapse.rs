//! Collapse: folds hits that share a field value into one result.

use vstd::prelude::*;
use vstd::string::StringExecFns;
use crate::json::{JVal, JsonObj, JsonValue};

verus! {

/// Collapse configuration: the single required field to collapse on.
#[derive(Debug)]
pub struct Collapse {
    pub field: String,
}

/// Wire shape of a collapse: `{"field": field}`.
pub open spec fn collapse_jv(c: Collapse) -> JVal {
    JVal::Obj(seq![("field"@, JVal::Str(c.field@))])
}

impl Collapse {
    /// A collapse on `field`.
    pub fn new(field: &str) -> (r: Self)
        ensures
            r.field@ == field@,
    {
        Collapse { field: String::from_str(field) }
    }

    /// Project this configuration onto its wire shape.
    pub fn to_json(&self) -> (r: JsonValue)
        ensures
            r@ == collapse_jv(*self),
    {
        let mut root = JsonObj::new();
        root.push_field("field", JsonValue::Str(self.field.clone()));
        let r = root.finish();
        proof {
            assert(r@ =~~= collapse_jv(*self));
        }
        r
    }
}

} // verus!
