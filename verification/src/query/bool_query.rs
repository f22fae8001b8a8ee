//! Bool query: combines child queries in must / must_not / should / filter
//! clause buckets.

use vstd::prelude::*;
use crate::json::{JVal, JsonNum, JsonObj, JsonValue};
use crate::query::{queries_jv, queries_to_array, QueryType};

verus! {

/// Bool query node: four ordered clause buckets plus optional
/// minimum_should_match and boost.
#[derive(Debug)]
pub struct BoolQuery {
    pub must: Vec<QueryType>,
    pub must_not: Vec<QueryType>,
    pub should: Vec<QueryType>,
    pub filter: Vec<QueryType>,
    pub minimum_should_match: Option<i32>,
    pub boost: Option<JsonNum>,
}

/// Fields of the bool object, in the fixed key order
/// must, must_not, should, filter, minimum_should_match, boost; a bucket key
/// is entirely absent when its sequence is empty.
pub open spec fn bool_body_jv(b: BoolQuery) -> Seq<(Seq<char>, JVal)>
    decreases b, 0int,
{
    let ps = Seq::<(Seq<char>, JVal)>::empty();
    let ps = if b.must@.len() > 0 {
        ps.push(("must"@, JVal::Arr(queries_jv(b.must@))))
    } else {
        ps
    };
    let ps = if b.must_not@.len() > 0 {
        ps.push(("must_not"@, JVal::Arr(queries_jv(b.must_not@))))
    } else {
        ps
    };
    let ps = if b.should@.len() > 0 {
        ps.push(("should"@, JVal::Arr(queries_jv(b.should@))))
    } else {
        ps
    };
    let ps = if b.filter@.len() > 0 {
        ps.push(("filter"@, JVal::Arr(queries_jv(b.filter@))))
    } else {
        ps
    };
    let ps = if b.minimum_should_match is Some {
        ps.push(("minimum_should_match"@, JVal::Num(JsonNum::Int(b.minimum_should_match->0 as i64))))
    } else {
        ps
    };
    if b.boost is Some {
        ps.push(("boost"@, JVal::Num(b.boost->0)))
    } else {
        ps
    }
}

/// Wire shape of a bool query: `{"bool": {buckets and options...}}`; an
/// all-default bool query serializes to `{"bool": {}}`.
pub open spec fn bool_query_jv(b: BoolQuery) -> JVal
    decreases b, 1int,
{
    JVal::Obj(seq![("bool"@, JVal::Obj(bool_body_jv(b)))])
}

/// An empty clause bucket is entirely absent from the output, never present
/// as an empty array.
pub proof fn lemma_bool_query_omits_empty_buckets(b: BoolQuery)
    ensures
        b.must@.len() == 0 ==> forall|j: int|
            0 <= j < bool_body_jv(b).len() ==> bool_body_jv(b)[j].0 != "must"@,
        b.must_not@.len() == 0 ==> forall|j: int|
            0 <= j < bool_body_jv(b).len() ==> bool_body_jv(b)[j].0 != "must_not"@,
        b.should@.len() == 0 ==> forall|j: int|
            0 <= j < bool_body_jv(b).len() ==> bool_body_jv(b)[j].0 != "should"@,
        b.filter@.len() == 0 ==> forall|j: int|
            0 <= j < bool_body_jv(b).len() ==> bool_body_jv(b)[j].0 != "filter"@,
{
    reveal_strlit("must");
    reveal_strlit("must_not");
    reveal_strlit("should");
    reveal_strlit("filter");
    reveal_strlit("minimum_should_match");
    reveal_strlit("boost");
    assert("should"@[0] == 's' && "filter"@[0] == 'f');
    assert("should"@ != "filter"@);
    assert forall|j: int| 0 <= j < bool_body_jv(b).len() implies (b.must@.len() == 0
        ==> bool_body_jv(b)[j].0 != "must"@) && (b.must_not@.len() == 0 ==> bool_body_jv(b)[j].0
        != "must_not"@) && (b.should@.len() == 0 ==> bool_body_jv(b)[j].0 != "should"@) && (
    b.filter@.len() == 0 ==> bool_body_jv(b)[j].0 != "filter"@) by {
        let ps = bool_body_jv(b);
        assert(ps[j].0 == "must"@ || ps[j].0 == "must_not"@ || ps[j].0 == "should"@ || ps[j].0
            == "filter"@ || ps[j].0 == "minimum_should_match"@ || ps[j].0 == "boost"@);
        assert(b.must@.len() == 0 ==> ps[j].0 != "must"@);
        assert(b.must_not@.len() == 0 ==> ps[j].0 != "must_not"@);
        assert(b.should@.len() == 0 ==> ps[j].0 != "should"@);
        assert(b.filter@.len() == 0 ==> ps[j].0 != "filter"@);
    }
}

impl BoolQuery {
    /// A bool query with all buckets empty and no options set.
    pub fn new() -> (r: Self)
        ensures
            r.must@ =~= Seq::<QueryType>::empty(),
            r.must_not@ =~= Seq::<QueryType>::empty(),
            r.should@ =~= Seq::<QueryType>::empty(),
            r.filter@ =~= Seq::<QueryType>::empty(),
            r.minimum_should_match is None,
            r.boost is None,
    {
        BoolQuery {
            must: Vec::new(),
            must_not: Vec::new(),
            should: Vec::new(),
            filter: Vec::new(),
            minimum_should_match: None,
            boost: None,
        }
    }

    /// Append a query to the must bucket.
    pub fn must(self, query: QueryType) -> (r: Self)
        ensures
            r.must@ == self.must@.push(query),
            r.must_not == self.must_not,
            r.should == self.should,
            r.filter == self.filter,
            r.minimum_should_match == self.minimum_should_match,
            r.boost == self.boost,
    {
        let mut s = self;
        s.must.push(query);
        s
    }

    /// Append a query to the must_not bucket.
    pub fn must_not(self, query: QueryType) -> (r: Self)
        ensures
            r.must_not@ == self.must_not@.push(query),
            r.must == self.must,
            r.should == self.should,
            r.filter == self.filter,
            r.minimum_should_match == self.minimum_should_match,
            r.boost == self.boost,
    {
        let mut s = self;
        s.must_not.push(query);
        s
    }

    /// Append a query to the should bucket.
    pub fn should(self, query: QueryType) -> (r: Self)
        ensures
            r.should@ == self.should@.push(query),
            r.must == self.must,
            r.must_not == self.must_not,
            r.filter == self.filter,
            r.minimum_should_match == self.minimum_should_match,
            r.boost == self.boost,
    {
        let mut s = self;
        s.should.push(query);
        s
    }

    /// Append a query to the filter bucket.
    pub fn filter(self, query: QueryType) -> (r: Self)
        ensures
            r.filter@ == self.filter@.push(query),
            r.must == self.must,
            r.must_not == self.must_not,
            r.should == self.should,
            r.minimum_should_match == self.minimum_should_match,
            r.boost == self.boost,
    {
        let mut s = self;
        s.filter.push(query);
        s
    }

    /// Set the minimum number of should clauses that must match.
    pub fn minimum_should_match(self, min: i32) -> (r: Self)
        ensures
            r == (BoolQuery { minimum_should_match: Some(min), ..self }),
    {
        BoolQuery { minimum_should_match: Some(min), ..self }
    }

    /// Set the boost.
    pub fn boost(self, boost: JsonNum) -> (r: Self)
        ensures
            r == (BoolQuery { boost: Some(boost), ..self }),
    {
        BoolQuery { boost: Some(boost), ..self }
    }

    /// Project this query onto its wire shape.
    pub fn to_json(&self) -> (r: JsonValue)
        ensures
            r@ == bool_query_jv(*self),
        decreases *self,
    {
        let mut bool_obj = JsonObj::new();
        if self.must.len() > 0 {
            proof {
                assert(decreases_to!(*self => self.must));
                assert(decreases_to!(self.must => self.must@));
            }
            bool_obj.push_field("must", queries_to_array(&self.must));
        }
        if self.must_not.len() > 0 {
            proof {
                assert(decreases_to!(*self => self.must_not));
                assert(decreases_to!(self.must_not => self.must_not@));
            }
            bool_obj.push_field("must_not", queries_to_array(&self.must_not));
        }
        if self.should.len() > 0 {
            proof {
                assert(decreases_to!(*self => self.should));
                assert(decreases_to!(self.should => self.should@));
            }
            bool_obj.push_field("should", queries_to_array(&self.should));
        }
        if self.filter.len() > 0 {
            proof {
                assert(decreases_to!(*self => self.filter));
                assert(decreases_to!(self.filter => self.filter@));
            }
            bool_obj.push_field("filter", queries_to_array(&self.filter));
        }
        if let Some(min) = &self.minimum_should_match {
            bool_obj.push_field("minimum_should_match", JsonValue::int64(*min as i64));
        }
        if let Some(b) = &self.boost {
            bool_obj.push_field("boost", JsonValue::Num(*b));
        }
        proof {
            assert(bool_obj@ =~= bool_body_jv(*self));
        }
        let mut root = JsonObj::new();
        root.push_field("bool", bool_obj.finish());
        let r = root.finish();
        proof {
            assert(r@ =~~= bool_query_jv(*self));
        }
        r
    }
}

/// Incremental builder for a bool query: mutating methods that can be called
/// repeatedly and conditionally before a terminal `build`.
#[derive(Debug)]
pub struct BoolQueryBuilder {
    inner: BoolQuery,
}

impl BoolQueryBuilder {
    /// The bool query this builder has accumulated so far.
    pub closed spec fn inner_spec(&self) -> BoolQuery {
        self.inner
    }

    /// A builder holding an all-default bool query.
    pub fn new() -> (r: Self)
        ensures
            r.inner_spec().must@ =~= Seq::<QueryType>::empty(),
            r.inner_spec().must_not@ =~= Seq::<QueryType>::empty(),
            r.inner_spec().should@ =~= Seq::<QueryType>::empty(),
            r.inner_spec().filter@ =~= Seq::<QueryType>::empty(),
            r.inner_spec().minimum_should_match is None,
            r.inner_spec().boost is None,
    {
        BoolQueryBuilder { inner: BoolQuery::new() }
    }

    /// Append a query to the must bucket.
    pub fn must(&mut self, query: QueryType) -> (ret: &mut Self)
        ensures
            ret.inner_spec().must@ == old(self).inner_spec().must@.push(query),
            ret.inner_spec() == (BoolQuery { must: ret.inner_spec().must, ..old(
                self,
            ).inner_spec() }),
            *final(self) == *final(ret),
    {
        let mut inner = BoolQuery::new();
        core::mem::swap(&mut inner, &mut self.inner);
        self.inner = inner.must(query);
        self
    }

    /// Append a query to the must_not bucket.
    pub fn must_not(&mut self, query: QueryType) -> (ret: &mut Self)
        ensures
            ret.inner_spec().must_not@ == old(self).inner_spec().must_not@.push(query),
            ret.inner_spec() == (BoolQuery { must_not: ret.inner_spec().must_not, ..old(
                self,
            ).inner_spec() }),
            *final(self) == *final(ret),
    {
        let mut inner = BoolQuery::new();
        core::mem::swap(&mut inner, &mut self.inner);
        self.inner = inner.must_not(query);
        self
    }

    /// Append a query to the should bucket.
    pub fn should(&mut self, query: QueryType) -> (ret: &mut Self)
        ensures
            ret.inner_spec().should@ == old(self).inner_spec().should@.push(query),
            ret.inner_spec() == (BoolQuery { should: ret.inner_spec().should, ..old(
                self,
            ).inner_spec() }),
            *final(self) == *final(ret),
    {
        let mut inner = BoolQuery::new();
        core::mem::swap(&mut inner, &mut self.inner);
        self.inner = inner.should(query);
        self
    }

    /// Append a query to the filter bucket.
    pub fn filter(&mut self, query: QueryType) -> (ret: &mut Self)
        ensures
            ret.inner_spec().filter@ == old(self).inner_spec().filter@.push(query),
            ret.inner_spec() == (BoolQuery { filter: ret.inner_spec().filter, ..old(
                self,
            ).inner_spec() }),
            *final(self) == *final(ret),
    {
        let mut inner = BoolQuery::new();
        core::mem::swap(&mut inner, &mut self.inner);
        self.inner = inner.filter(query);
        self
    }

    /// Set the minimum number of should clauses that must match.
    pub fn minimum_should_match(&mut self, min: i32) -> (ret: &mut Self)
        ensures
            ret.inner_spec() == (BoolQuery { minimum_should_match: Some(min), ..old(
                self,
            ).inner_spec() }),
            *final(self) == *final(ret),
    {
        let mut inner = BoolQuery::new();
        core::mem::swap(&mut inner, &mut self.inner);
        self.inner = inner.minimum_should_match(min);
        self
    }

    /// Set the boost.
    pub fn boost(&mut self, boost: JsonNum) -> (ret: &mut Self)
        ensures
            ret.inner_spec() == (BoolQuery { boost: Some(boost), ..old(self).inner_spec() }),
            *final(self) == *final(ret),
    {
        let mut inner = BoolQuery::new();
        core::mem::swap(&mut inner, &mut self.inner);
        self.inner = inner.boost(boost);
        self
    }

    /// Freeze the accumulated buckets into a bool query variant, leaving the
    /// builder empty.
    pub fn build(&mut self) -> (r: QueryType)
        ensures
            r == QueryType::Bool(old(self).inner_spec()),
    {
        let mut inner = BoolQuery::new();
        core::mem::swap(&mut inner, &mut self.inner);
        QueryType::Bool(inner)
    }
}

} // verus!
