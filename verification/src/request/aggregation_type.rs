//! Aggregations: terms buckets with optional nested sub-aggregations, and
//! cardinality counts.

use vstd::prelude::*;
use vstd::string::StringExecFns;
use crate::json::{JVal, JsonNum, JsonObj, JsonValue};
use crate::keymap::{has_key, insert_entry, keys_unique};

verus! {

/// Cardinality aggregation: approximate count of distinct values of a field.
#[derive(Debug)]
pub struct CardinalityAggregation {
    pub field: String,
}

/// Wire shape of a cardinality aggregation:
/// `{"cardinality": {"field": field}}`.
pub open spec fn cardinality_agg_jv(c: CardinalityAggregation) -> JVal {
    JVal::Obj(seq![("cardinality"@, JVal::Obj(seq![("field"@, JVal::Str(c.field@))]))])
}

impl CardinalityAggregation {
    /// A cardinality aggregation on `field`.
    pub fn new(field: &str) -> (r: Self)
        ensures
            r.field@ == field@,
    {
        CardinalityAggregation { field: String::from_str(field) }
    }

    /// Project this aggregation onto its wire shape.
    pub fn to_json(&self) -> (r: JsonValue)
        ensures
            r@ == cardinality_agg_jv(*self),
    {
        let mut field_obj = JsonObj::new();
        field_obj.push_field("field", JsonValue::Str(self.field.clone()));
        let mut root = JsonObj::new();
        root.push_field("cardinality", field_obj.finish());
        let r = root.finish();
        proof {
            assert(r@ =~~= cardinality_agg_jv(*self));
        }
        r
    }
}

/// Terms aggregation: buckets by distinct field values, with an optional
/// result-size cap and a name-keyed map of nested sub-aggregations.
#[derive(Debug)]
pub struct TermsAggregation {
    pub field: String,
    pub size: Option<u32>,
    pub sub_aggs: Vec<(String, AggregationType)>,
}

/// One aggregation of a search request.
#[derive(Debug)]
pub enum AggregationType {
    /// Terms aggregation
    Terms(TermsAggregation),
    /// Cardinality aggregation
    Cardinality(CardinalityAggregation),
}

/// Fields of the `terms` object: `field`, then `size` only if set.
pub open spec fn terms_agg_params_jv(t: TermsAggregation) -> Seq<(Seq<char>, JVal)> {
    let ps = seq![("field"@, JVal::Str(t.field@))];
    if t.size is Some {
        ps.push(("size"@, JVal::Num(JsonNum::UInt(t.size->0 as u64))))
    } else {
        ps
    }
}

/// Wire shape of a terms aggregation: `{"terms": {...}, "aggs"?: {...}}`;
/// `aggs` is a sibling of `terms` and appears only when sub-aggregations
/// exist.
pub open spec fn terms_agg_jv(t: TermsAggregation) -> JVal
    decreases t,
{
    let ps = seq![("terms"@, JVal::Obj(terms_agg_params_jv(t)))];
    if t.sub_aggs@.len() > 0 {
        JVal::Obj(ps.push(("aggs"@, JVal::Obj(agg_entries_jv(t.sub_aggs@)))))
    } else {
        JVal::Obj(ps)
    }
}

/// Wire shape of an aggregation.
pub open spec fn agg_jv(a: AggregationType) -> JVal
    decreases a,
{
    match a {
        AggregationType::Terms(t) => terms_agg_jv(t),
        AggregationType::Cardinality(c) => cardinality_agg_jv(c),
    }
}

/// Ghost images of named aggregation entries, in order.
pub open spec fn agg_entries_jv(m: Seq<(String, AggregationType)>) -> Seq<(Seq<char>, JVal)>
    decreases m,
{
    if m.len() == 0 {
        Seq::empty()
    } else {
        agg_entries_jv(m.subrange(0, m.len() - 1)).push(
            (m[m.len() - 1].0@, agg_jv(m[m.len() - 1].1)),
        )
    }
}

/// Appending an entry on the right extends the output on the right.
pub proof fn lemma_agg_entries_jv_push(m: Seq<(String, AggregationType)>, p: (
    String,
    AggregationType,
))
    ensures
        agg_entries_jv(m.push(p)) == agg_entries_jv(m).push((p.0@, agg_jv(p.1))),
{
    let t = m.push(p);
    assert(t.subrange(0, t.len() - 1) =~= m);
    assert(t[t.len() - 1] == p);
}

/// An empty sub-aggregation map is entirely absent from the output, never
/// present as an empty object.
pub proof fn lemma_terms_agg_omits_empty_sub_aggs(t: TermsAggregation)
    ensures
        t.sub_aggs@.len() == 0 ==> terms_agg_jv(t) == JVal::Obj(
            seq![("terms"@, JVal::Obj(terms_agg_params_jv(t)))],
        ),
{
}

impl TermsAggregation {
    /// A terms aggregation on `field`, with no size cap and no
    /// sub-aggregations.
    pub fn new(field: &str) -> (r: Self)
        ensures
            r.field@ == field@,
            r.size is None,
            r.sub_aggs@ =~= Seq::<(String, AggregationType)>::empty(),
    {
        TermsAggregation { field: String::from_str(field), size: None, sub_aggs: Vec::new() }
    }

    /// Set the maximum number of buckets to return.
    pub fn size(self, size: u32) -> (r: Self)
        ensures
            r == (TermsAggregation { size: Some(size), ..self }),
    {
        TermsAggregation { size: Some(size), ..self }
    }

    /// Add a named sub-aggregation; one added under an existing name
    /// replaces the earlier one in place.
    pub fn sub_agg(self, name: &str, agg: AggregationType) -> (r: Self)
        requires
            keys_unique(self.sub_aggs@),
        ensures
            keys_unique(r.sub_aggs@),
            r.field == self.field,
            r.size == self.size,
            !has_key(self.sub_aggs@, name@) ==> r.sub_aggs@.len() == self.sub_aggs@.len() + 1
                && r.sub_aggs@.last().0@ == name@ && r.sub_aggs@.last().1 == agg
                && r.sub_aggs@.subrange(0, self.sub_aggs@.len() as int) == self.sub_aggs@,
            has_key(self.sub_aggs@, name@) ==> r.sub_aggs@.len() == self.sub_aggs@.len(),
            forall|i: int|
                0 <= i < self.sub_aggs@.len() && self.sub_aggs@[i].0@ == name@
                    ==> #[trigger] r.sub_aggs@[i].0@ == name@ && r.sub_aggs@[i].1 == agg && (
                forall|j: int|
                    0 <= j < self.sub_aggs@.len() && j != i ==> r.sub_aggs@[j]
                        == self.sub_aggs@[j]),
    {
        let ghost gval = agg;
        let key = String::from_str(name);
        let ghost gkey = key;
        let mut sub_aggs = self.sub_aggs;
        let ghost gold = sub_aggs@;
        insert_entry(&mut sub_aggs, key, agg);
        proof {
            if has_key(gold, name@) {
                let i = choose|i: int| 0 <= i < gold.len() && #[trigger] gold[i].0@ == name@;
                assert(sub_aggs@ == gold.update(i, (gkey, gval)));
            }
        }
        TermsAggregation { field: self.field, size: self.size, sub_aggs }
    }

    /// Project this aggregation onto its wire shape.
    pub fn to_json(&self) -> (r: JsonValue)
        ensures
            r@ == terms_agg_jv(*self),
        decreases *self,
    {
        let mut terms_obj = JsonObj::new();
        terms_obj.push_field("field", JsonValue::Str(self.field.clone()));
        if let Some(size) = &self.size {
            terms_obj.push_field("size", JsonValue::uint64(*size as u64));
        }
        proof {
            assert(terms_obj@ =~= terms_agg_params_jv(*self));
        }
        let mut root = JsonObj::new();
        root.push_field("terms", terms_obj.finish());
        if self.sub_aggs.len() > 0 {
            let mut aggs_obj = JsonObj::new();
            let mut i: usize = 0;
            while i < self.sub_aggs.len()
                invariant
                    i <= self.sub_aggs@.len(),
                    aggs_obj@ =~= agg_entries_jv(self.sub_aggs@.subrange(0, i as int)),
                decreases self.sub_aggs@.len() - i,
            {
                proof {
                    assert(decreases_to!(*self => self.sub_aggs));
                    assert(decreases_to!(self.sub_aggs => self.sub_aggs@[i as int]));
                    assert(decreases_to!(self.sub_aggs@[i as int] => self.sub_aggs@[i as int].1));
                }
                let v = self.sub_aggs[i].1.to_json();
                aggs_obj.push_field(self.sub_aggs[i].0.as_str(), v);
                proof {
                    lemma_agg_entries_jv_push(
                        self.sub_aggs@.subrange(0, i as int),
                        self.sub_aggs@[i as int],
                    );
                    assert(self.sub_aggs@.subrange(0, i + 1 as int) =~= self.sub_aggs@.subrange(
                        0,
                        i as int,
                    ).push(self.sub_aggs@[i as int]));
                }
                i += 1;
            }
            proof {
                assert(self.sub_aggs@.subrange(0, self.sub_aggs@.len() as int)
                    =~= self.sub_aggs@);
            }
            root.push_field("aggs", aggs_obj.finish());
        }
        let r = root.finish();
        proof {
            assert(r@ =~~= terms_agg_jv(*self));
        }
        r
    }
}

impl AggregationType {
    /// Project this aggregation onto its wire shape.
    pub fn to_json(&self) -> (r: JsonValue)
        ensures
            r@ == agg_jv(*self),
        decreases *self,
    {
        match self {
            AggregationType::Terms(t) => t.to_json(),
            AggregationType::Cardinality(c) => c.to_json(),
        }
    }
}

/// Tagged structural encoding of an aggregation: a `type` tag naming the
/// variant and a `params` object holding every field, so that decoding can
/// recover the aggregation exactly.
pub open spec fn enc_agg(a: AggregationType) -> JVal
    decreases a, 2int,
{
    match a {
        AggregationType::Terms(t) => JVal::Obj(
            seq![("type"@, JVal::Str("Terms"@)), ("params"@, enc_terms_agg(t))],
        ),
        AggregationType::Cardinality(c) => JVal::Obj(
            seq![("type"@, JVal::Str("Cardinality"@)), ("params"@, enc_cardinality_agg(c))],
        ),
    }
}

/// Encoded form of a cardinality aggregation's fields.
pub open spec fn enc_cardinality_agg(c: CardinalityAggregation) -> JVal {
    JVal::Obj(seq![("field"@, JVal::Str(c.field@))])
}

/// Encoded form of a terms aggregation's fields; an unset size is encoded
/// as null, and the sub-aggregation entries keep their order.
pub open spec fn enc_terms_agg(t: TermsAggregation) -> JVal
    decreases t, 1int,
{
    JVal::Obj(
        seq![
            ("field"@, JVal::Str(t.field@)),
            (
                "size"@,
                if t.size is Some {
                    JVal::Num(JsonNum::UInt(t.size->0 as u64))
                } else {
                    JVal::Null
                },
            ),
            ("aggs"@, JVal::Obj(enc_agg_entries(t.sub_aggs@))),
        ],
    )
}

/// Encoded forms of named sub-aggregation entries, in order.
pub open spec fn enc_agg_entries(m: Seq<(String, AggregationType)>) -> Seq<(Seq<char>, JVal)>
    decreases m, 0int,
{
    if m.len() == 0 {
        Seq::empty()
    } else {
        enc_agg_entries(m.subrange(0, m.len() - 1)).push(
            (m[m.len() - 1].0@, enc_agg(m[m.len() - 1].1)),
        )
    }
}

/// Appending an entry on the right extends the encoding on the right.
pub proof fn lemma_enc_agg_entries_push(m: Seq<(String, AggregationType)>, p: (
    String,
    AggregationType,
))
    ensures
        enc_agg_entries(m.push(p)) == enc_agg_entries(m).push((p.0@, enc_agg(p.1))),
{
    let t = m.push(p);
    assert(t.subrange(0, t.len() - 1) =~= m);
    assert(t[t.len() - 1] == p);
}

/// Whether a value is the encoding of some aggregation.
pub open spec fn is_enc_agg(v: JVal) -> bool
    decreases v, 2int,
{
    &&& v is Obj
    &&& v->Obj_0.len() == 2
    &&& v->Obj_0[0].0 == "type"@
    &&& v->Obj_0[1].0 == "params"@
    &&& {
        ||| (v->Obj_0[0].1 == JVal::Str("Terms"@) && is_enc_terms_agg(v->Obj_0[1].1))
        ||| (v->Obj_0[0].1 == JVal::Str("Cardinality"@) && is_enc_cardinality_agg(
            v->Obj_0[1].1,
        ))
    }
}

/// Whether a value is the encoding of a cardinality aggregation's fields.
pub open spec fn is_enc_cardinality_agg(v: JVal) -> bool {
    &&& v is Obj
    &&& v->Obj_0.len() == 1
    &&& v->Obj_0[0].0 == "field"@
    &&& v->Obj_0[0].1 is Str
}

/// Whether a value is the encoding of a terms aggregation's fields.
pub open spec fn is_enc_terms_agg(v: JVal) -> bool
    decreases v, 1int,
{
    &&& v is Obj
    &&& v->Obj_0.len() == 3
    &&& v->Obj_0[0].0 == "field"@
    &&& v->Obj_0[0].1 is Str
    &&& v->Obj_0[1].0 == "size"@
    &&& (v->Obj_0[1].1 is Null || (v->Obj_0[1].1 matches JVal::Num(JsonNum::UInt(n)) && n
        <= u32::MAX))
    &&& v->Obj_0[2].0 == "aggs"@
    &&& v->Obj_0[2].1 is Obj
    &&& is_enc_agg_entries(v->Obj_0[2].1->Obj_0)
}

/// Whether each entry value is the encoding of some aggregation.
pub open spec fn is_enc_agg_entries(m: Seq<(Seq<char>, JVal)>) -> bool
    decreases m, 0int,
{
    if m.len() == 0 {
        true
    } else {
        is_enc_agg_entries(m.subrange(0, m.len() - 1)) && is_enc_agg(m[m.len() - 1].1)
    }
}

/// Within a valid entry sequence, every entry value is a valid encoding.
pub proof fn lemma_is_enc_agg_entries_index(m: Seq<(Seq<char>, JVal)>)
    requires
        is_enc_agg_entries(m),
    ensures
        forall|j: int| 0 <= j < m.len() ==> is_enc_agg(#[trigger] m[j].1),
    decreases m,
{
    if m.len() > 0 {
        lemma_is_enc_agg_entries_index(m.subrange(0, m.len() - 1));
        assert(forall|j: int| 0 <= j < m.len() - 1 ==> m.subrange(0, m.len() - 1)[j] == m[j]);
    }
}

/// Every encoding the encoder produces is accepted by the decoder's
/// validity predicate; together with the decoder's contract this gives
/// round-trip idempotence: decoding an encoded aggregation succeeds and
/// yields an aggregation with the same encoding, hence the same structure.
pub proof fn lemma_enc_agg_valid(a: AggregationType)
    ensures
        is_enc_agg(enc_agg(a)),
    decreases a, 2int,
{
    match a {
        AggregationType::Terms(t) => {
            lemma_enc_terms_agg_valid(t);
        },
        AggregationType::Cardinality(c) => {},
    }
}

/// The encoding of a terms aggregation's fields is valid.
pub proof fn lemma_enc_terms_agg_valid(t: TermsAggregation)
    ensures
        is_enc_terms_agg(enc_terms_agg(t)),
    decreases t, 1int,
{
    lemma_enc_agg_entries_valid(t.sub_aggs@);
}

/// The encodings of sub-aggregation entries are valid.
pub proof fn lemma_enc_agg_entries_valid(m: Seq<(String, AggregationType)>)
    ensures
        is_enc_agg_entries(enc_agg_entries(m)),
    decreases m, 0int,
{
    if m.len() > 0 {
        lemma_enc_agg_entries_valid(m.subrange(0, m.len() - 1));
        lemma_enc_agg_valid(m[m.len() - 1].1);
        let e = enc_agg_entries(m);
        assert(e.subrange(0, e.len() - 1) =~= enc_agg_entries(m.subrange(0, m.len() - 1)));
    }
}

impl AggregationType {
    /// Encode this aggregation in the tagged structural form.
    pub fn encode(&self) -> (r: JsonValue)
        ensures
            r@ == enc_agg(*self),
        decreases *self,
    {
        let mut root = JsonObj::new();
        match self {
            AggregationType::Terms(t) => {
                root.push_field("type", JsonValue::string("Terms"));
                root.push_field("params", t.encode());
            },
            AggregationType::Cardinality(c) => {
                root.push_field("type", JsonValue::string("Cardinality"));
                let mut params = JsonObj::new();
                params.push_field("field", JsonValue::Str(c.field.clone()));
                root.push_field("params", params.finish());
            },
        }
        proof {
            assert(root@ =~~= enc_agg(*self)->Obj_0);
        }
        let r = root.finish();
        proof {
            assert(r@ =~~= enc_agg(*self));
        }
        r
    }

    /// Decode an aggregation from its tagged structural form. Returns the
    /// aggregation whose encoding is the input whenever the input is such
    /// an encoding, and nothing otherwise.
    pub fn decode(v: &JsonValue) -> (r: Option<AggregationType>)
        ensures
            r matches Some(a) ==> enc_agg(a) == v@,
            is_enc_agg(v@) ==> r is Some,
        decreases *v,
    {
        let pairs = match v {
            JsonValue::Obj(pairs) => pairs,
            _ => {
                return None;
            },
        };
        proof {
            crate::json::lemma_jpairs_of_index(pairs@);
        }
        if pairs.len() != 2 {
            return None;
        }
        proof {
            crate::json::lemma_jval_of_variants(pairs@[0].1);
            crate::json::lemma_jval_of_variants(pairs@[1].1);
            reveal_strlit("Terms");
            reveal_strlit("Cardinality");
            assert("Terms"@.len() == 5);
            assert("Cardinality"@.len() == 11);
        }
        if !(pairs[0].0 == String::from_str("type")) {
            return None;
        }
        if !(pairs[1].0 == String::from_str("params")) {
            return None;
        }
        let tag = match &pairs[0].1 {
            JsonValue::Str(tag) => tag,
            _ => {
                return None;
            },
        };
        if *tag == String::from_str("Terms") {
            proof {
                assert(decreases_to!(*v => v->Obj_0));
                assert(v->Obj_0 == *pairs);
                assert(decreases_to!(*pairs => pairs@[1]));
            }
            let t = match TermsAggregation::decode(&pairs[1].1) {
                Some(t) => t,
                None => {
                    return None;
                },
            };
            let r = Some(AggregationType::Terms(t));
            proof {
                assert(crate::json::jpairs_of(pairs@)[0].1 == JVal::Str("Terms"@));
                assert(crate::json::jpairs_of(pairs@)[1].1 == enc_terms_agg(t));
                assert(enc_agg(AggregationType::Terms(t))->Obj_0 =~~= crate::json::jpairs_of(
                    pairs@,
                ));
                assert(enc_agg(AggregationType::Terms(t)) =~~= v@);
            }
            r
        } else if *tag == String::from_str("Cardinality") {
            let params = match &pairs[1].1 {
                JsonValue::Obj(params) => params,
                _ => {
                    return None;
                },
            };
            proof {
                crate::json::lemma_jpairs_of_index(params@);
            }
            if params.len() != 1 {
                return None;
            }
            proof {
                crate::json::lemma_jval_of_variants(params@[0].1);
            }
            if !(params[0].0 == String::from_str("field")) {
                return None;
            }
            let field = match &params[0].1 {
                JsonValue::Str(field) => field,
                _ => {
                    return None;
                },
            };
            let c = CardinalityAggregation { field: field.clone() };
            let r = Some(AggregationType::Cardinality(c));
            proof {
                assert(crate::json::jpairs_of(params@) =~= seq![("field"@, JVal::Str(c.field@))]);
                assert(enc_agg(AggregationType::Cardinality(c))->Obj_0
                    =~~= crate::json::jpairs_of(pairs@));
                assert(enc_agg(AggregationType::Cardinality(c)) =~~= v@);
            }
            r
        } else {
            None
        }
    }
}

impl TermsAggregation {
    /// Encode this aggregation's fields in the structural form.
    pub fn encode(&self) -> (r: JsonValue)
        ensures
            r@ == enc_terms_agg(*self),
        decreases *self,
    {
        let mut obj = JsonObj::new();
        obj.push_field("field", JsonValue::Str(self.field.clone()));
        match &self.size {
            Some(size) => {
                obj.push_field("size", JsonValue::uint64(*size as u64));
            },
            None => {
                obj.push_field("size", JsonValue::Null);
            },
        }
        let mut entries = JsonObj::new();
        let mut i: usize = 0;
        while i < self.sub_aggs.len()
            invariant
                i <= self.sub_aggs@.len(),
                entries@ =~= enc_agg_entries(self.sub_aggs@.subrange(0, i as int)),
            decreases self.sub_aggs@.len() - i,
        {
            proof {
                assert(decreases_to!(*self => self.sub_aggs));
                assert(decreases_to!(self.sub_aggs => self.sub_aggs@[i as int]));
                assert(decreases_to!(self.sub_aggs@[i as int] => self.sub_aggs@[i as int].1));
            }
            let enc = self.sub_aggs[i].1.encode();
            entries.push_field(self.sub_aggs[i].0.as_str(), enc);
            proof {
                lemma_enc_agg_entries_push(
                    self.sub_aggs@.subrange(0, i as int),
                    self.sub_aggs@[i as int],
                );
                assert(self.sub_aggs@.subrange(0, i + 1 as int) =~= self.sub_aggs@.subrange(
                    0,
                    i as int,
                ).push(self.sub_aggs@[i as int]));
            }
            i += 1;
        }
        proof {
            assert(self.sub_aggs@.subrange(0, self.sub_aggs@.len() as int) =~= self.sub_aggs@);
        }
        obj.push_field("aggs", entries.finish());
        proof {
            assert(obj@ =~~= enc_terms_agg(*self)->Obj_0);
        }
        let r = obj.finish();
        proof {
            assert(r@ =~~= enc_terms_agg(*self));
        }
        r
    }

    /// Decode a terms aggregation's fields from the structural form.
    pub fn decode(v: &JsonValue) -> (r: Option<TermsAggregation>)
        ensures
            r matches Some(t) ==> enc_terms_agg(t) == v@,
            is_enc_terms_agg(v@) ==> r is Some,
        decreases *v,
    {
        let pairs = match v {
            JsonValue::Obj(pairs) => pairs,
            _ => {
                return None;
            },
        };
        proof {
            crate::json::lemma_jpairs_of_index(pairs@);
        }
        if pairs.len() != 3 {
            return None;
        }
        proof {
            crate::json::lemma_jval_of_variants(pairs@[0].1);
            crate::json::lemma_jval_of_variants(pairs@[1].1);
            crate::json::lemma_jval_of_variants(pairs@[2].1);
        }
        if !(pairs[0].0 == String::from_str("field")) {
            return None;
        }
        if !(pairs[1].0 == String::from_str("size")) {
            return None;
        }
        if !(pairs[2].0 == String::from_str("aggs")) {
            return None;
        }
        let field = match &pairs[0].1 {
            JsonValue::Str(field) => field.clone(),
            _ => {
                return None;
            },
        };
        let size: Option<u32> = match &pairs[1].1 {
            JsonValue::Null => None,
            JsonValue::Num(JsonNum::UInt(n)) => {
                if *n <= 0xffff_ffffu64 {
                    Some(*n as u32)
                } else {
                    return None;
                }
            },
            _ => {
                return None;
            },
        };
        let entries = match &pairs[2].1 {
            JsonValue::Obj(entries) => entries,
            _ => {
                return None;
            },
        };
        proof {
            crate::json::lemma_jpairs_of_index(entries@);
            if is_enc_terms_agg(v@) {
                lemma_is_enc_agg_entries_index(crate::json::jpairs_of(entries@));
            }
        }
        let mut sub_aggs: Vec<(String, AggregationType)> = Vec::new();
        let mut i: usize = 0;
        while i < entries.len()
            invariant
                *v == JsonValue::Obj(*pairs),
                pairs@.len() == 3,
                pairs@[2].1 == JsonValue::Obj(*entries),
                i <= entries@.len(),
                enc_agg_entries(sub_aggs@) =~= crate::json::jpairs_of(entries@).subrange(
                    0,
                    i as int,
                ),
                crate::json::jpairs_of(entries@).len() == entries@.len(),
                forall|j: int|
                    0 <= j < entries@.len() ==> crate::json::jpairs_of(entries@)[j] == (
                    entries@[j].0@,
                    crate::json::jval_of(entries@[j].1),
                ),
                is_enc_terms_agg(v@) ==> forall|j: int|
                    0 <= j < entries@.len() ==> is_enc_agg(
                        #[trigger] crate::json::jpairs_of(entries@)[j].1,
                    ),
            decreases entries@.len() - i,
        {
            proof {
                assert(decreases_to!(*v => v->Obj_0));
                assert(v->Obj_0 == *pairs);
                assert(decreases_to!(*pairs => pairs@[2]));
                assert(decreases_to!(pairs@[2] => pairs@[2].1));
                assert(decreases_to!(pairs@[2].1 => pairs@[2].1->Obj_0));
                assert(pairs@[2].1->Obj_0 == *entries);
                assert(decreases_to!(*entries => entries@[i as int]));
                assert(decreases_to!(entries@[i as int] => entries@[i as int].1));
            }
            let sub = match AggregationType::decode(&entries[i].1) {
                Some(sub) => sub,
                None => {
                    proof {
                        if is_enc_terms_agg(v@) {
                            assert(is_enc_agg(crate::json::jpairs_of(entries@)[i as int].1));
                            assert(crate::json::jpairs_of(entries@)[i as int] == (
                                entries@[i as int].0@,
                                crate::json::jval_of(entries@[i as int].1),
                            ));
                        }
                    }
                    return None;
                },
            };
            let name = entries[i].0.clone();
            proof {
                lemma_enc_agg_entries_push(sub_aggs@, (name, sub));
                assert(crate::json::jpairs_of(entries@).subrange(0, i + 1 as int)
                    =~= crate::json::jpairs_of(entries@).subrange(0, i as int).push(
                    crate::json::jpairs_of(entries@)[i as int],
                ));
            }
            sub_aggs.push((name, sub));
            i += 1;
        }
        proof {
            assert(crate::json::jpairs_of(entries@).subrange(
                0,
                crate::json::jpairs_of(entries@).len() as int,
            ) =~= crate::json::jpairs_of(entries@));
        }
        let t = TermsAggregation { field, size, sub_aggs };
        let r = Some(t);
        proof {
            assert(enc_terms_agg(t)->Obj_0 =~~= crate::json::jpairs_of(pairs@));
            assert(enc_terms_agg(t) =~~= v@);
        }
        r
    }
}

} // verus!
