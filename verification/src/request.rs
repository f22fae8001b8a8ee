//! The search request aggregate and its supporting configuration types.

use vstd::prelude::*;
use vstd::string::StringExecFns;
use crate::json::{strings_to_array, strs_jv, JVal, JsonNum, JsonObj, JsonValue};
use crate::keymap::{has_key, insert_entry, keys_unique, remove_entry};
use crate::query::{query_jv, QueryType};

pub mod aggregation_type;
pub mod collapse;
pub mod highlight;
pub mod sort_type;

pub use aggregation_type::AggregationType;
pub use aggregation_type::CardinalityAggregation;
pub use aggregation_type::TermsAggregation;
pub use collapse::Collapse;
pub use highlight::Highlight;
pub use highlight::HighlightField;
pub use sort_type::script::Lang;
pub use sort_type::script::Script;
pub use sort_type::script::ScriptSort;
pub use sort_type::script::ScriptSortType;
pub use sort_type::FieldSort;
pub use sort_type::ScoreWithOrderSort;
pub use sort_type::SortMode;
pub use sort_type::SortOrder;
pub use sort_type::SortType;

use aggregation_type::{agg_entries_jv, lemma_agg_entries_jv_push};
use collapse::collapse_jv;
use highlight::highlight_jv;
use sort_type::{lemma_sorts_jv_push, sorts_jv};

verus! {

/// The root aggregate of a search: an optional query, paging, ordered sorts,
/// named aggregations, source-field projection, highlighting, hit counting
/// and collapsing.
#[derive(Debug)]
pub struct SearchRequest {
    pub query: Option<QueryType>,
    pub size: Option<u32>,
    pub from: Option<u32>,
    pub sort: Vec<SortType>,
    pub aggs: Vec<(String, AggregationType)>,
    pub _source: Vec<String>,
    pub highlight: Option<Highlight>,
    pub track_total_hits: Option<bool>,
    pub collapse: Option<Collapse>,
}

/// Fields of a search request, in the fixed key order
/// query, size, from, sort, aggs, _source, highlight, track_total_hits,
/// collapse; a key is present only when its value is set or non-empty.
pub open spec fn search_request_body_jv(r: SearchRequest) -> Seq<(Seq<char>, JVal)> {
    let ps = Seq::<(Seq<char>, JVal)>::empty();
    let ps = if r.query is Some {
        ps.push(("query"@, query_jv(r.query->0)))
    } else {
        ps
    };
    let ps = if r.size is Some {
        ps.push(("size"@, JVal::Num(JsonNum::UInt(r.size->0 as u64))))
    } else {
        ps
    };
    let ps = if r.from is Some {
        ps.push(("from"@, JVal::Num(JsonNum::UInt(r.from->0 as u64))))
    } else {
        ps
    };
    let ps = if r.sort@.len() > 0 {
        ps.push(("sort"@, JVal::Arr(sorts_jv(r.sort@))))
    } else {
        ps
    };
    let ps = if r.aggs@.len() > 0 {
        ps.push(("aggs"@, JVal::Obj(agg_entries_jv(r.aggs@))))
    } else {
        ps
    };
    let ps = if r._source@.len() > 0 {
        ps.push(("_source"@, JVal::Arr(strs_jv(r._source@))))
    } else {
        ps
    };
    let ps = if r.highlight is Some {
        ps.push(("highlight"@, highlight_jv(r.highlight->0)))
    } else {
        ps
    };
    let ps = if r.track_total_hits is Some {
        ps.push(("track_total_hits"@, JVal::Bool(r.track_total_hits->0)))
    } else {
        ps
    };
    if r.collapse is Some {
        ps.push(("collapse"@, collapse_jv(r.collapse->0)))
    } else {
        ps
    }
}

/// Wire shape of a search request.
pub open spec fn search_request_jv(r: SearchRequest) -> JVal {
    JVal::Obj(search_request_body_jv(r))
}

/// An empty sort list, aggregation map or source-field list is entirely
/// absent from the output, never present as an empty array or object.
pub proof fn lemma_search_request_omits_empty_collections(r: SearchRequest)
    ensures
        r.sort@.len() == 0 ==> forall|j: int|
            0 <= j < search_request_body_jv(r).len() ==> search_request_body_jv(r)[j].0
                != "sort"@,
        r.aggs@.len() == 0 ==> forall|j: int|
            0 <= j < search_request_body_jv(r).len() ==> search_request_body_jv(r)[j].0
                != "aggs"@,
        r._source@.len() == 0 ==> forall|j: int|
            0 <= j < search_request_body_jv(r).len() ==> search_request_body_jv(r)[j].0
                != "_source"@,
{
    reveal_strlit("query");
    reveal_strlit("size");
    reveal_strlit("from");
    reveal_strlit("sort");
    reveal_strlit("aggs");
    reveal_strlit("_source");
    reveal_strlit("highlight");
    reveal_strlit("track_total_hits");
    reveal_strlit("collapse");
    assert("sort"@[0] == 's' && "size"@[0] == 's' && "from"@[0] == 'f' && "aggs"@[0] == 'a');
    assert("sort"@[1] == 'o' && "size"@[1] == 'i');
    assert("sort"@ != "size"@ && "sort"@ != "from"@ && "sort"@ != "aggs"@);
    assert("aggs"@ != "size"@ && "aggs"@ != "from"@);
    assert forall|j: int| 0 <= j < search_request_body_jv(r).len() implies (r.sort@.len() == 0
        ==> search_request_body_jv(r)[j].0 != "sort"@) && (r.aggs@.len() == 0
        ==> search_request_body_jv(r)[j].0 != "aggs"@) && (r._source@.len() == 0
        ==> search_request_body_jv(r)[j].0 != "_source"@) by {
        let ps = search_request_body_jv(r);
        assert(ps[j].0 == "query"@ || ps[j].0 == "size"@ || ps[j].0 == "from"@ || ps[j].0
            == "sort"@ || ps[j].0 == "aggs"@ || ps[j].0 == "_source"@ || ps[j].0 == "highlight"@
            || ps[j].0 == "track_total_hits"@ || ps[j].0 == "collapse"@);
        assert(r.sort@.len() == 0 ==> ps[j].0 != "sort"@);
        assert(r.aggs@.len() == 0 ==> ps[j].0 != "aggs"@);
        assert(r._source@.len() == 0 ==> ps[j].0 != "_source"@);
    }
}

impl SearchRequest {
    /// A search request with nothing set.
    pub fn new() -> (r: Self)
        ensures
            r.query is None,
            r.size is None,
            r.from is None,
            r.sort@ =~= Seq::<SortType>::empty(),
            r.aggs@ =~= Seq::<(String, AggregationType)>::empty(),
            r._source@ =~= Seq::<String>::empty(),
            r.highlight is None,
            r.track_total_hits is None,
            r.collapse is None,
    {
        SearchRequest {
            query: None,
            size: None,
            from: None,
            sort: Vec::new(),
            aggs: Vec::new(),
            _source: Vec::new(),
            highlight: None,
            track_total_hits: None,
            collapse: None,
        }
    }

    /// Set the query.
    pub fn query(self, query: QueryType) -> (r: Self)
        ensures
            r.query is Some,
            r.query->0 == query,
            r.size == self.size,
            r.from == self.from,
            r.sort == self.sort,
            r.aggs == self.aggs,
            r._source == self._source,
            r.highlight == self.highlight,
            r.track_total_hits == self.track_total_hits,
            r.collapse == self.collapse,
    {
        SearchRequest { query: Some(query), ..self }
    }

    /// Set the maximum number of results to return.
    pub fn size(self, size: u32) -> (r: Self)
        ensures
            r == (SearchRequest { size: Some(size), ..self }),
    {
        SearchRequest { size: Some(size), ..self }
    }

    /// Set the offset.
    pub fn from(self, from: u32) -> (r: Self)
        ensures
            r == (SearchRequest { from: Some(from), ..self }),
    {
        SearchRequest { from: Some(from), ..self }
    }

    /// Append a sort criterion; sorts keep their insertion order.
    pub fn sort(self, sort: SortType) -> (r: Self)
        ensures
            r.sort@ == self.sort@.push(sort),
            r.query == self.query,
            r.size == self.size,
            r.from == self.from,
            r.aggs == self.aggs,
            r._source == self._source,
            r.highlight == self.highlight,
            r.track_total_hits == self.track_total_hits,
            r.collapse == self.collapse,
    {
        let mut s = self;
        s.sort.push(sort);
        s
    }

    /// Add a named aggregation; one added under an existing name replaces
    /// the earlier one in place.
    pub fn agg(self, name: String, agg: AggregationType) -> (r: Self)
        requires
            keys_unique(self.aggs@),
        ensures
            keys_unique(r.aggs@),
            !has_key(self.aggs@, name@) ==> r.aggs@ == self.aggs@.push((name, agg)),
            forall|i: int|
                0 <= i < self.aggs@.len() && self.aggs@[i].0@ == name@ ==> r.aggs@
                    == self.aggs@.update(i, (name, agg)),
            r.query == self.query,
            r.size == self.size,
            r.from == self.from,
            r.sort == self.sort,
            r._source == self._source,
            r.highlight == self.highlight,
            r.track_total_hits == self.track_total_hits,
            r.collapse == self.collapse,
    {
        let mut s = self;
        insert_entry(&mut s.aggs, name, agg);
        s
    }

    /// Set the source fields, replacing any previous list.
    pub fn source_fields(self, fields: Vec<String>) -> (r: Self)
        ensures
            r == (SearchRequest { _source: fields, ..self }),
    {
        SearchRequest { _source: fields, ..self }
    }

    /// Set the highlight configuration.
    pub fn highlight(self, highlight: Highlight) -> (r: Self)
        ensures
            r.highlight is Some,
            r.highlight->0 == highlight,
            r == (SearchRequest { highlight: r.highlight, ..self }),
    {
        SearchRequest { highlight: Some(highlight), ..self }
    }

    /// Set whether to track the total hit count.
    pub fn track_total_hits(self, track: bool) -> (r: Self)
        ensures
            r == (SearchRequest { track_total_hits: Some(track), ..self }),
    {
        SearchRequest { track_total_hits: Some(track), ..self }
    }

    /// Set the collapse configuration.
    pub fn collapse(self, collapse: Collapse) -> (r: Self)
        ensures
            r.collapse is Some,
            r.collapse->0 == collapse,
            r == (SearchRequest { collapse: r.collapse, ..self }),
    {
        SearchRequest { collapse: Some(collapse), ..self }
    }

    /// Project this request onto its wire shape.
    pub fn to_json(&self) -> (r: JsonValue)
        ensures
            r@ == search_request_jv(*self),
    {
        let mut obj = JsonObj::new();
        if let Some(query) = &self.query {
            obj.push_field("query", query.to_json());
        }
        if let Some(size) = &self.size {
            obj.push_field("size", JsonValue::uint64(*size as u64));
        }
        if let Some(from) = &self.from {
            obj.push_field("from", JsonValue::uint64(*from as u64));
        }
        if self.sort.len() > 0 {
            let mut arr: Vec<JsonValue> = Vec::new();
            let mut i: usize = 0;
            while i < self.sort.len()
                invariant
                    i <= self.sort@.len(),
                    crate::json::jvals_of(arr@) =~= sorts_jv(self.sort@.subrange(0, i as int)),
                decreases self.sort@.len() - i,
            {
                let v = self.sort[i].to_json();
                proof {
                    crate::json::lemma_jvals_of_push(arr@, v);
                    lemma_sorts_jv_push(self.sort@.subrange(0, i as int), self.sort@[i as int]);
                    assert(self.sort@.subrange(0, i + 1 as int) =~= self.sort@.subrange(
                        0,
                        i as int,
                    ).push(self.sort@[i as int]));
                }
                arr.push(v);
                i += 1;
            }
            proof {
                assert(self.sort@.subrange(0, self.sort@.len() as int) =~= self.sort@);
            }
            obj.push_field("sort", JsonValue::Arr(arr));
        }
        if self.aggs.len() > 0 {
            let mut aggs_obj = JsonObj::new();
            let mut i: usize = 0;
            while i < self.aggs.len()
                invariant
                    i <= self.aggs@.len(),
                    aggs_obj@ =~= agg_entries_jv(self.aggs@.subrange(0, i as int)),
                decreases self.aggs@.len() - i,
            {
                let v = self.aggs[i].1.to_json();
                aggs_obj.push_field(self.aggs[i].0.as_str(), v);
                proof {
                    lemma_agg_entries_jv_push(
                        self.aggs@.subrange(0, i as int),
                        self.aggs@[i as int],
                    );
                    assert(self.aggs@.subrange(0, i + 1 as int) =~= self.aggs@.subrange(
                        0,
                        i as int,
                    ).push(self.aggs@[i as int]));
                }
                i += 1;
            }
            proof {
                assert(self.aggs@.subrange(0, self.aggs@.len() as int) =~= self.aggs@);
            }
            obj.push_field("aggs", aggs_obj.finish());
        }
        if self._source.len() > 0 {
            obj.push_field("_source", strings_to_array(&self._source));
        }
        if let Some(highlight) = &self.highlight {
            obj.push_field("highlight", highlight.to_json());
        }
        if let Some(track) = &self.track_total_hits {
            obj.push_field("track_total_hits", JsonValue::Bool(*track));
        }
        if let Some(collapse) = &self.collapse {
            obj.push_field("collapse", collapse.to_json());
        }
        proof {
            assert(obj@ =~= search_request_body_jv(*self));
        }
        let r = obj.finish();
        proof {
            assert(r@ =~~= search_request_jv(*self));
        }
        r
    }
}

/// Incremental builder for a search request: mutating methods that can be
/// called repeatedly and conditionally before a terminal `build`.
#[derive(Debug)]
pub struct SearchRequestBuilder {
    query: Option<QueryType>,
    size: Option<u32>,
    from: Option<u32>,
    sort: Vec<SortType>,
    aggs: Vec<(String, AggregationType)>,
    _source: Vec<String>,
    highlight: Option<Highlight>,
    track_total_hits: Option<bool>,
    collapse: Option<Collapse>,
}

impl SearchRequestBuilder {
    /// The search request this builder has accumulated so far.
    pub closed spec fn as_request(&self) -> SearchRequest {
        SearchRequest {
            query: self.query,
            size: self.size,
            from: self.from,
            sort: self.sort,
            aggs: self.aggs,
            _source: self._source,
            highlight: self.highlight,
            track_total_hits: self.track_total_hits,
            collapse: self.collapse,
        }
    }

    /// The builder's aggregation names are pairwise distinct.
    pub open spec fn wf(&self) -> bool {
        keys_unique(self.as_request().aggs@)
    }

    /// A builder holding an empty search request.
    pub fn new() -> (r: Self)
        ensures
            r.wf(),
            r.as_request().query is None,
            r.as_request().size is None,
            r.as_request().from is None,
            r.as_request().sort@ =~= Seq::<SortType>::empty(),
            r.as_request().aggs@ =~= Seq::<(String, AggregationType)>::empty(),
            r.as_request()._source@ =~= Seq::<String>::empty(),
            r.as_request().highlight is None,
            r.as_request().track_total_hits is None,
            r.as_request().collapse is None,
    {
        SearchRequestBuilder {
            query: None,
            size: None,
            from: None,
            sort: Vec::new(),
            aggs: Vec::new(),
            _source: Vec::new(),
            highlight: None,
            track_total_hits: None,
            collapse: None,
        }
    }

    /// Set the query.
    pub fn query(&mut self, query: QueryType) -> (ret: &mut Self)
        ensures
            ret.as_request().query is Some,
            ret.as_request().query->0 == query,
            ret.as_request() == (SearchRequest {
                query: ret.as_request().query,
                ..old(self).as_request()
            }),
            *final(self) == *final(ret),
    {
        self.query = Some(query);
        self
    }

    /// Set the maximum number of results to return.
    pub fn size(&mut self, size: u32) -> (ret: &mut Self)
        ensures
            ret.as_request() == (SearchRequest { size: Some(size), ..old(self).as_request() }),
            *final(self) == *final(ret),
    {
        self.size = Some(size);
        self
    }

    /// Set the offset for pagination.
    pub fn from(&mut self, from: u32) -> (ret: &mut Self)
        ensures
            ret.as_request() == (SearchRequest { from: Some(from), ..old(self).as_request() }),
            *final(self) == *final(ret),
    {
        self.from = Some(from);
        self
    }

    /// Append a sort criterion; sorts keep their insertion order.
    pub fn add_sort(&mut self, sort: SortType) -> (ret: &mut Self)
        ensures
            ret.as_request().sort@ == old(self).as_request().sort@.push(sort),
            ret.as_request() == (SearchRequest {
                sort: ret.as_request().sort,
                ..old(self).as_request()
            }),
            *final(self) == *final(ret),
    {
        self.sort.push(sort);
        self
    }

    /// Replace all sort criteria at once.
    pub fn set_sorts(&mut self, sorts: Vec<SortType>) -> (ret: &mut Self)
        ensures
            ret.as_request() == (SearchRequest { sort: sorts, ..old(self).as_request() }),
            *final(self) == *final(ret),
    {
        self.sort = sorts;
        self
    }

    /// Clear all sort criteria.
    pub fn clear_sorts(&mut self) -> (ret: &mut Self)
        ensures
            ret.as_request().sort@ =~= Seq::<SortType>::empty(),
            ret.as_request() == (SearchRequest {
                sort: ret.as_request().sort,
                ..old(self).as_request()
            }),
            *final(self) == *final(ret),
    {
        self.sort.clear();
        self
    }

    /// Add a named aggregation; one added under an existing name replaces
    /// the earlier one in place.
    pub fn add_agg(&mut self, name: String, agg: AggregationType) -> (ret: &mut Self)
        requires
            old(self).wf(),
        ensures
            ret.wf(),
            !has_key(old(self).as_request().aggs@, name@) ==> ret.as_request().aggs@ == old(
                self,
            ).as_request().aggs@.push((name, agg)),
            forall|i: int|
                0 <= i < old(self).as_request().aggs@.len() && old(self).as_request().aggs@[i].0@
                    == name@ ==> ret.as_request().aggs@ == old(self).as_request().aggs@.update(
                    i,
                    (name, agg),
                ),
            ret.as_request() == (SearchRequest {
                aggs: ret.as_request().aggs,
                ..old(self).as_request()
            }),
            *final(self) == *final(ret),
    {
        insert_entry(&mut self.aggs, name, agg);
        self
    }

    /// Remove the aggregation with the given name, if any.
    pub fn remove_agg(&mut self, name: &str) -> (ret: &mut Self)
        requires
            old(self).wf(),
        ensures
            ret.wf(),
            !has_key(old(self).as_request().aggs@, name@) ==> ret.as_request().aggs@ == old(
                self,
            ).as_request().aggs@,
            forall|i: int|
                0 <= i < old(self).as_request().aggs@.len() && old(self).as_request().aggs@[i].0@
                    == name@ ==> ret.as_request().aggs@ == old(self).as_request().aggs@.remove(i),
            ret.as_request() == (SearchRequest {
                aggs: ret.as_request().aggs,
                ..old(self).as_request()
            }),
            *final(self) == *final(ret),
    {
        remove_entry(&mut self.aggs, name);
        self
    }

    /// Clear all aggregations.
    pub fn clear_aggs(&mut self) -> (ret: &mut Self)
        ensures
            ret.wf(),
            ret.as_request().aggs@ =~= Seq::<(String, AggregationType)>::empty(),
            ret.as_request() == (SearchRequest {
                aggs: ret.as_request().aggs,
                ..old(self).as_request()
            }),
            *final(self) == *final(ret),
    {
        self.aggs.clear();
        self
    }

    /// Append a source field to include in the response.
    pub fn add_source_field(&mut self, field: String) -> (ret: &mut Self)
        ensures
            ret.as_request()._source@ == old(self).as_request()._source@.push(field),
            ret.as_request() == (SearchRequest {
                _source: ret.as_request()._source,
                ..old(self).as_request()
            }),
            *final(self) == *final(ret),
    {
        self._source.push(field);
        self
    }

    /// Replace the source-field list.
    pub fn set_source_fields(&mut self, fields: Vec<String>) -> (ret: &mut Self)
        ensures
            ret.as_request() == (SearchRequest { _source: fields, ..old(self).as_request() }),
            *final(self) == *final(ret),
    {
        self._source = fields;
        self
    }

    /// Clear the source-field list.
    pub fn clear_source_fields(&mut self) -> (ret: &mut Self)
        ensures
            ret.as_request()._source@ =~= Seq::<String>::empty(),
            ret.as_request() == (SearchRequest {
                _source: ret.as_request()._source,
                ..old(self).as_request()
            }),
            *final(self) == *final(ret),
    {
        self._source.clear();
        self
    }

    /// Set the highlight configuration.
    pub fn highlight(&mut self, highlight: Highlight) -> (ret: &mut Self)
        ensures
            ret.as_request().highlight is Some,
            ret.as_request().highlight->0 == highlight,
            ret.as_request() == (SearchRequest {
                highlight: ret.as_request().highlight,
                ..old(self).as_request()
            }),
            *final(self) == *final(ret),
    {
        self.highlight = Some(highlight);
        self
    }

    /// Set whether to track the total hit count.
    pub fn track_total_hits(&mut self, track: bool) -> (ret: &mut Self)
        ensures
            ret.as_request() == (SearchRequest {
                track_total_hits: Some(track),
                ..old(self).as_request()
            }),
            *final(self) == *final(ret),
    {
        self.track_total_hits = Some(track);
        self
    }

    /// Set the collapse configuration.
    pub fn collapse(&mut self, collapse: Collapse) -> (ret: &mut Self)
        ensures
            ret.as_request().collapse is Some,
            ret.as_request().collapse->0 == collapse,
            ret.as_request() == (SearchRequest {
                collapse: ret.as_request().collapse,
                ..old(self).as_request()
            }),
            *final(self) == *final(ret),
    {
        self.collapse = Some(collapse);
        self
    }

    /// Freeze the accumulated state into an immutable search request.
    pub fn build(self) -> (r: SearchRequest)
        ensures
            r == self.as_request(),
    {
        SearchRequest {
            query: self.query,
            size: self.size,
            from: self.from,
            sort: self.sort,
            aggs: self.aggs,
            _source: self._source,
            highlight: self.highlight,
            track_total_hits: self.track_total_hits,
            collapse: self.collapse,
        }
    }
}

} // verus!
