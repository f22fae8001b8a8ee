//! Range query: matches documents whose field value lies within bounds.

use vstd::prelude::*;
use vstd::string::StringExecFns;
use crate::json::{JVal, JsonNum, JsonObj, JsonValue};

verus! {

/// Range query node: a required field plus optional bounds and boost.
#[derive(Debug)]
pub struct RangeQuery {
    pub field: String,
    pub gte: Option<JsonValue>,
    pub gt: Option<JsonValue>,
    pub lte: Option<JsonValue>,
    pub lt: Option<JsonValue>,
    pub boost: Option<JsonNum>,
}

/// Fields of the always-used object form, in the fixed key order
/// gte, gt, lte, lt, boost; each bound appears only if set.
pub open spec fn range_bounds_jv(q: RangeQuery) -> Seq<(Seq<char>, JVal)> {
    let ps = Seq::<(Seq<char>, JVal)>::empty();
    let ps = if q.gte is Some {
        ps.push(("gte"@, q.gte->0@))
    } else {
        ps
    };
    let ps = if q.gt is Some {
        ps.push(("gt"@, q.gt->0@))
    } else {
        ps
    };
    let ps = if q.lte is Some {
        ps.push(("lte"@, q.lte->0@))
    } else {
        ps
    };
    let ps = if q.lt is Some {
        ps.push(("lt"@, q.lt->0@))
    } else {
        ps
    };
    if q.boost is Some {
        ps.push(("boost"@, JVal::Num(q.boost->0)))
    } else {
        ps
    }
}

/// Wire shape of a range query: `{"range": {field: {bounds...}}}`.
pub open spec fn range_query_jv(q: RangeQuery) -> JVal {
    JVal::Obj(seq![("range"@, JVal::Obj(seq![(q.field@, JVal::Obj(range_bounds_jv(q)))]))])
}

impl RangeQuery {
    /// A range query on `field`, with no bounds set.
    pub fn new(field: &str) -> (r: Self)
        ensures
            r.field@ == field@,
            r.gte is None,
            r.gt is None,
            r.lte is None,
            r.lt is None,
            r.boost is None,
    {
        RangeQuery {
            field: String::from_str(field),
            gte: None,
            gt: None,
            lte: None,
            lt: None,
            boost: None,
        }
    }

    /// Set the inclusive lower bound.
    pub fn gte(self, value: JsonValue) -> (r: Self)
        ensures
            r == (RangeQuery { gte: Some(value), ..self }),
    {
        RangeQuery { gte: Some(value), ..self }
    }

    /// Set the exclusive lower bound.
    pub fn gt(self, value: JsonValue) -> (r: Self)
        ensures
            r == (RangeQuery { gt: Some(value), ..self }),
    {
        RangeQuery { gt: Some(value), ..self }
    }

    /// Set the inclusive upper bound.
    pub fn lte(self, value: JsonValue) -> (r: Self)
        ensures
            r == (RangeQuery { lte: Some(value), ..self }),
    {
        RangeQuery { lte: Some(value), ..self }
    }

    /// Set the exclusive upper bound.
    pub fn lt(self, value: JsonValue) -> (r: Self)
        ensures
            r == (RangeQuery { lt: Some(value), ..self }),
    {
        RangeQuery { lt: Some(value), ..self }
    }

    /// Set the boost.
    pub fn boost(self, boost: JsonNum) -> (r: Self)
        ensures
            r == (RangeQuery { boost: Some(boost), ..self }),
    {
        RangeQuery { boost: Some(boost), ..self }
    }

    /// Project this node onto its wire shape.
    pub fn to_json(&self) -> (r: JsonValue)
        ensures
            r@ == range_query_jv(*self),
    {
        let mut field_obj = JsonObj::new();
        if let Some(gte) = &self.gte {
            field_obj.push_field("gte", gte.deep_clone());
        }
        if let Some(gt) = &self.gt {
            field_obj.push_field("gt", gt.deep_clone());
        }
        if let Some(lte) = &self.lte {
            field_obj.push_field("lte", lte.deep_clone());
        }
        if let Some(lt) = &self.lt {
            field_obj.push_field("lt", lt.deep_clone());
        }
        if let Some(b) = &self.boost {
            field_obj.push_field("boost", JsonValue::Num(*b));
        }
        proof {
            assert(field_obj@ =~= range_bounds_jv(*self));
        }
        let mut range_obj = JsonObj::new();
        range_obj.push_field(self.field.as_str(), field_obj.finish());
        let mut root = JsonObj::new();
        root.push_field("range", range_obj.finish());
        let r = root.finish();
        proof {
            assert(r@ =~~= range_query_jv(*self));
        }
        r
    }
}

/// Incremental builder for a range query: mutating methods that can be
/// called repeatedly and conditionally before a terminal `build`.
#[derive(Debug)]
pub struct RangeQueryBuilder {
    inner: RangeQuery,
}

impl RangeQueryBuilder {
    /// The range query this builder has accumulated so far.
    pub closed spec fn inner_spec(&self) -> RangeQuery {
        self.inner
    }

    /// A builder for a range query on `field`, with no bounds set.
    pub fn new(field: &str) -> (r: Self)
        ensures
            r.inner_spec().field@ == field@,
            r.inner_spec().gte is None,
            r.inner_spec().gt is None,
            r.inner_spec().lte is None,
            r.inner_spec().lt is None,
            r.inner_spec().boost is None,
    {
        RangeQueryBuilder { inner: RangeQuery::new(field) }
    }

    /// Set the inclusive lower bound.
    pub fn gte(&mut self, value: JsonValue) -> (ret: &mut Self)
        ensures
            ret.inner_spec() == (RangeQuery { gte: Some(value), ..old(self).inner_spec() }),
            *final(self) == *final(ret),
    {
        let mut inner = RangeQuery::new("");
        core::mem::swap(&mut inner, &mut self.inner);
        self.inner = inner.gte(value);
        self
    }

    /// Set the exclusive lower bound.
    pub fn gt(&mut self, value: JsonValue) -> (ret: &mut Self)
        ensures
            ret.inner_spec() == (RangeQuery { gt: Some(value), ..old(self).inner_spec() }),
            *final(self) == *final(ret),
    {
        let mut inner = RangeQuery::new("");
        core::mem::swap(&mut inner, &mut self.inner);
        self.inner = inner.gt(value);
        self
    }

    /// Set the inclusive upper bound.
    pub fn lte(&mut self, value: JsonValue) -> (ret: &mut Self)
        ensures
            ret.inner_spec() == (RangeQuery { lte: Some(value), ..old(self).inner_spec() }),
            *final(self) == *final(ret),
    {
        let mut inner = RangeQuery::new("");
        core::mem::swap(&mut inner, &mut self.inner);
        self.inner = inner.lte(value);
        self
    }

    /// Set the exclusive upper bound.
    pub fn lt(&mut self, value: JsonValue) -> (ret: &mut Self)
        ensures
            ret.inner_spec() == (RangeQuery { lt: Some(value), ..old(self).inner_spec() }),
            *final(self) == *final(ret),
    {
        let mut inner = RangeQuery::new("");
        core::mem::swap(&mut inner, &mut self.inner);
        self.inner = inner.lt(value);
        self
    }

    /// Set the boost.
    pub fn boost(&mut self, boost: JsonNum) -> (ret: &mut Self)
        ensures
            ret.inner_spec() == (RangeQuery { boost: Some(boost), ..old(self).inner_spec() }),
            *final(self) == *final(ret),
    {
        let mut inner = RangeQuery::new("");
        core::mem::swap(&mut inner, &mut self.inner);
        self.inner = inner.boost(boost);
        self
    }

    /// Freeze the accumulated bounds into a range query variant, leaving the
    /// builder holding an empty query on an empty field name.
    pub fn build(&mut self) -> (r: crate::query::QueryType)
        ensures
            r == crate::query::QueryType::Range(old(self).inner_spec()),
    {
        let mut inner = RangeQuery::new("");
        core::mem::swap(&mut inner, &mut self.inner);
        crate::query::QueryType::Range(inner)
    }
}

} // verus!
