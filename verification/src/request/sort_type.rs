//! Sort criteria: field sorts, score sorts, and script sorts.

use vstd::prelude::*;
use vstd::string::StringExecFns;
use crate::json::{JVal, JsonObj, JsonValue};
use crate::request::sort_type::script::{script_sort_jv, ScriptSort};

pub mod script;

verus! {

/// Sort order.
#[derive(Clone, Copy, Debug, PartialEq, Eq, Structural)]
pub enum SortOrder {
    /// Ascending
    Asc,
    /// Descending
    Desc,
}

/// Lowercase token of a sort order.
pub open spec fn sort_order_chars(o: SortOrder) -> Seq<char> {
    match o {
        SortOrder::Asc => "asc"@,
        SortOrder::Desc => "desc"@,
    }
}

impl SortOrder {
    /// The token of this order.
    pub fn token(&self) -> (r: String)
        ensures
            r@ == sort_order_chars(*self),
    {
        match self {
            SortOrder::Asc => String::from_str("asc"),
            SortOrder::Desc => String::from_str("desc"),
        }
    }
}

/// How multiple values of a field are folded into one sort value.
#[derive(Clone, Copy, Debug, PartialEq, Eq, Structural)]
pub enum SortMode {
    /// Minimum
    Min,
    /// Maximum
    Max,
    /// Sum
    Sum,
    /// Average
    Avg,
    /// Median
    Median,
}

/// Lowercase token of a sort mode.
pub open spec fn sort_mode_chars(m: SortMode) -> Seq<char> {
    match m {
        SortMode::Min => "min"@,
        SortMode::Max => "max"@,
        SortMode::Sum => "sum"@,
        SortMode::Avg => "avg"@,
        SortMode::Median => "median"@,
    }
}

impl SortMode {
    /// The token of this mode.
    pub fn token(&self) -> (r: String)
        ensures
            r@ == sort_mode_chars(*self),
    {
        match self {
            SortMode::Min => String::from_str("min"),
            SortMode::Max => String::from_str("max"),
            SortMode::Sum => String::from_str("sum"),
            SortMode::Avg => String::from_str("avg"),
            SortMode::Median => String::from_str("median"),
        }
    }
}

/// Sort on a field: a required field and order, plus optional missing-value
/// placeholder and unmapped type.
#[derive(Debug)]
pub struct FieldSort {
    pub field: String,
    pub order: SortOrder,
    pub missing: Option<String>,
    pub unmapped_type: Option<String>,
}

/// Whether any secondary option is set, which forces the object form.
pub open spec fn field_sort_has_options(s: FieldSort) -> bool {
    s.missing is Some || s.unmapped_type is Some
}

/// Simplified form: `{field: "asc"|"desc"}`.
pub open spec fn field_sort_simple_jv(s: FieldSort) -> JVal {
    JVal::Obj(seq![(s.field@, JVal::Str(sort_order_chars(s.order)))])
}

/// Fields of the object form, in the fixed key order
/// order, missing, unmapped_type.
pub open spec fn field_sort_options_jv(s: FieldSort) -> Seq<(Seq<char>, JVal)> {
    let ps = seq![("order"@, JVal::Str(sort_order_chars(s.order)))];
    let ps = if s.missing is Some {
        ps.push(("missing"@, JVal::Str(s.missing->0@)))
    } else {
        ps
    };
    if s.unmapped_type is Some {
        ps.push(("unmapped_type"@, JVal::Str(s.unmapped_type->0@)))
    } else {
        ps
    }
}

/// Object form: `{field: {"order": .., "missing"?: .., "unmapped_type"?: ..}}`.
pub open spec fn field_sort_object_jv(s: FieldSort) -> JVal {
    JVal::Obj(seq![(s.field@, JVal::Obj(field_sort_options_jv(s)))])
}

/// Wire shape of a field sort: the object form exactly when a secondary
/// option is set.
pub open spec fn field_sort_jv(s: FieldSort) -> JVal {
    if field_sort_has_options(s) {
        field_sort_object_jv(s)
    } else {
        field_sort_simple_jv(s)
    }
}

/// A field sort with no secondary options serializes in the simplified form;
/// setting any secondary option switches it to the object form.
pub proof fn lemma_field_sort_form_selection(s: FieldSort)
    ensures
        !field_sort_has_options(s) ==> field_sort_jv(s) == field_sort_simple_jv(s),
        field_sort_has_options(s) ==> field_sort_jv(s) == field_sort_object_jv(s),
{
}

impl FieldSort {
    /// A sort on `field` in the given order, with no secondary options.
    pub fn new(field: &str, order: SortOrder) -> (r: Self)
        ensures
            r.field@ == field@,
            r.order == order,
            r.missing is None,
            r.unmapped_type is None,
    {
        FieldSort {
            field: String::from_str(field),
            order,
            missing: None,
            unmapped_type: None,
        }
    }

    /// Set the missing-value placeholder.
    pub fn missing(self, missing: &str) -> (r: Self)
        ensures
            r.missing is Some,
            r.missing->0@ == missing@,
            r == (FieldSort { missing: r.missing, ..self }),
    {
        FieldSort { missing: Some(String::from_str(missing)), ..self }
    }

    /// Set the unmapped type.
    pub fn unmapped_type(self, unmapped_type: &str) -> (r: Self)
        ensures
            r.unmapped_type is Some,
            r.unmapped_type->0@ == unmapped_type@,
            r == (FieldSort { unmapped_type: r.unmapped_type, ..self }),
    {
        FieldSort { unmapped_type: Some(String::from_str(unmapped_type)), ..self }
    }

    /// Whether any secondary option is set.
    pub fn has_options(&self) -> (r: bool)
        ensures
            r == field_sort_has_options(*self),
    {
        self.missing.is_some() || self.unmapped_type.is_some()
    }

    /// Project this sort onto its wire shape.
    pub fn to_json(&self) -> (r: JsonValue)
        ensures
            r@ == field_sort_jv(*self),
    {
        let mut root = JsonObj::new();
        if self.has_options() {
            let mut field_obj = JsonObj::new();
            field_obj.push_field("order", JsonValue::Str(self.order.token()));
            if let Some(missing) = &self.missing {
                field_obj.push_field("missing", JsonValue::Str(missing.clone()));
            }
            if let Some(unmapped_type) = &self.unmapped_type {
                field_obj.push_field("unmapped_type", JsonValue::Str(unmapped_type.clone()));
            }
            proof {
                assert(field_obj@ =~= field_sort_options_jv(*self));
            }
            root.push_field(self.field.as_str(), field_obj.finish());
        } else {
            root.push_field(self.field.as_str(), JsonValue::Str(self.order.token()));
        }
        let r = root.finish();
        proof {
            assert(r@ =~~= field_sort_jv(*self));
        }
        r
    }
}

/// Sort by score with an explicit order.
#[derive(Debug)]
pub struct ScoreWithOrderSort {
    pub order: SortOrder,
}

/// Wire shape of a score sort with order: `{"_score": "asc"|"desc"}`.
pub open spec fn score_with_order_jv(s: ScoreWithOrderSort) -> JVal {
    JVal::Obj(seq![("_score"@, JVal::Str(sort_order_chars(s.order)))])
}

impl ScoreWithOrderSort {
    /// A score sort in the given order.
    pub fn new(order: SortOrder) -> (r: Self)
        ensures
            r.order == order,
    {
        ScoreWithOrderSort { order }
    }

    /// Project this sort onto its wire shape.
    pub fn to_json(&self) -> (r: JsonValue)
        ensures
            r@ == score_with_order_jv(*self),
    {
        let mut root = JsonObj::new();
        root.push_field("_score", JsonValue::Str(self.order.token()));
        let r = root.finish();
        proof {
            assert(r@ =~~= score_with_order_jv(*self));
        }
        r
    }
}

/// One sort criterion of a search request.
#[derive(Debug)]
pub enum SortType {
    /// Sort on a field
    Field(FieldSort),
    /// Sort by score
    Score,
    /// Sort by score with an explicit order
    ScoreWithOrder(ScoreWithOrderSort),
    /// Sort by a script's value
    ScriptSort(ScriptSort),
}

/// Wire shape of a sort criterion; a bare `Score` is the string `"_score"`.
pub open spec fn sort_type_jv(s: SortType) -> JVal {
    match s {
        SortType::Field(f) => field_sort_jv(f),
        SortType::Score => JVal::Str("_score"@),
        SortType::ScoreWithOrder(sw) => score_with_order_jv(sw),
        SortType::ScriptSort(sc) => script_sort_jv(sc),
    }
}

impl SortType {
    /// Project this sort onto its wire shape.
    pub fn to_json(&self) -> (r: JsonValue)
        ensures
            r@ == sort_type_jv(*self),
    {
        match self {
            SortType::Field(f) => f.to_json(),
            SortType::Score => JsonValue::string("_score"),
            SortType::ScoreWithOrder(sw) => sw.to_json(),
            SortType::ScriptSort(sc) => sc.to_json(),
        }
    }
}

/// Ghost images of a sequence of sort criteria, in order.
pub open spec fn sorts_jv(ss: Seq<SortType>) -> Seq<JVal>
    decreases ss,
{
    if ss.len() == 0 {
        Seq::empty()
    } else {
        sorts_jv(ss.subrange(0, ss.len() - 1)).push(sort_type_jv(ss[ss.len() - 1]))
    }
}

/// Appending a sort on the right extends the output on the right.
pub proof fn lemma_sorts_jv_push(ss: Seq<SortType>, s: SortType)
    ensures
        sorts_jv(ss.push(s)) == sorts_jv(ss).push(sort_type_jv(s)),
{
    let t = ss.push(s);
    assert(t.subrange(0, t.len() - 1) =~= ss);
    assert(t[t.len() - 1] == s);
}

/// The serialized sort array keeps the insertion order of the sort list:
/// it has the same length, and its i-th element is the projection of the
/// i-th sort criterion.
pub proof fn lemma_sort_output_order(ss: Seq<SortType>)
    ensures
        sorts_jv(ss).len() == ss.len(),
        forall|i: int| 0 <= i < ss.len() ==> sorts_jv(ss)[i] == sort_type_jv(ss[i]),
    decreases ss,
{
    if ss.len() > 0 {
        lemma_sort_output_order(ss.subrange(0, ss.len() - 1));
        assert(forall|i: int|
            0 <= i < ss.len() - 1 ==> ss.subrange(0, ss.len() - 1)[i] == ss[i]);
    }
}

impl SortOrder {
    /// Decode a sort order from its token.
    pub fn decode(v: &JsonValue) -> (r: Option<SortOrder>)
        ensures
            r matches Some(o) ==> v@ == JVal::Str(sort_order_chars(o)),
            (exists|o: SortOrder| v@ == JVal::Str(sort_order_chars(o))) ==> r is Some,
    {
        let s = match v {
            JsonValue::Str(s) => s,
            _ => {
                return None;
            },
        };
        if *s == String::from_str("asc") {
            Some(SortOrder::Asc)
        } else if *s == String::from_str("desc") {
            Some(SortOrder::Desc)
        } else {
            proof {
                assert forall|o: SortOrder| v@ != JVal::Str(sort_order_chars(o)) by {
                    if o is Asc {
                    } else {
                    }
                }
            }
            None
        }
    }
}

impl SortMode {
    /// Decode a sort mode from its token.
    pub fn decode(v: &JsonValue) -> (r: Option<SortMode>)
        ensures
            r matches Some(m) ==> v@ == JVal::Str(sort_mode_chars(m)),
            (exists|m: SortMode| v@ == JVal::Str(sort_mode_chars(m))) ==> r is Some,
    {
        let s = match v {
            JsonValue::Str(s) => s,
            _ => {
                return None;
            },
        };
        if *s == String::from_str("min") {
            Some(SortMode::Min)
        } else if *s == String::from_str("max") {
            Some(SortMode::Max)
        } else if *s == String::from_str("sum") {
            Some(SortMode::Sum)
        } else if *s == String::from_str("avg") {
            Some(SortMode::Avg)
        } else if *s == String::from_str("median") {
            Some(SortMode::Median)
        } else {
            proof {
                assert forall|m: SortMode| v@ != JVal::Str(sort_mode_chars(m)) by {
                    if m is Min {
                    } else if m is Max {
                    } else if m is Sum {
                    } else if m is Avg {
                    } else {
                    }
                }
            }
            None
        }
    }
}

/// Encoded form of a field sort: every field in a fixed order; an unset
/// option is encoded as null.
pub open spec fn enc_field_sort(s: FieldSort) -> JVal {
    JVal::Obj(
        seq![
            ("field"@, JVal::Str(s.field@)),
            ("order"@, JVal::Str(sort_order_chars(s.order))),
            (
                "missing"@,
                if s.missing is Some {
                    JVal::Str(s.missing->0@)
                } else {
                    JVal::Null
                },
            ),
            (
                "unmapped_type"@,
                if s.unmapped_type is Some {
                    JVal::Str(s.unmapped_type->0@)
                } else {
                    JVal::Null
                },
            ),
        ],
    )
}

/// Whether a value is the encoding of a field sort.
pub open spec fn is_enc_field_sort(v: JVal) -> bool {
    &&& v is Obj
    &&& v->Obj_0.len() == 4
    &&& v->Obj_0[0].0 == "field"@
    &&& v->Obj_0[0].1 is Str
    &&& v->Obj_0[1].0 == "order"@
    &&& (exists|o: SortOrder| v->Obj_0[1].1 == JVal::Str(sort_order_chars(o)))
    &&& v->Obj_0[2].0 == "missing"@
    &&& (v->Obj_0[2].1 is Null || v->Obj_0[2].1 is Str)
    &&& v->Obj_0[3].0 == "unmapped_type"@
    &&& (v->Obj_0[3].1 is Null || v->Obj_0[3].1 is Str)
}

/// Tagged structural encoding of a sort criterion: a `type` tag naming the
/// variant and a `params` value holding every field, so that decoding can
/// recover the criterion exactly. A bare score sort carries no fields, so
/// its params are null.
pub open spec fn enc_sort(s: SortType) -> JVal {
    match s {
        SortType::Field(f) => JVal::Obj(
            seq![("type"@, JVal::Str("Field"@)), ("params"@, enc_field_sort(f))],
        ),
        SortType::Score => JVal::Obj(
            seq![("type"@, JVal::Str("Score"@)), ("params"@, JVal::Null)],
        ),
        SortType::ScoreWithOrder(sw) => JVal::Obj(
            seq![
                ("type"@, JVal::Str("ScoreWithOrder"@)),
                ("params"@, JVal::Obj(seq![("order"@, JVal::Str(sort_order_chars(sw.order)))])),
            ],
        ),
        SortType::ScriptSort(sc) => JVal::Obj(
            seq![
                ("type"@, JVal::Str("ScriptSort"@)),
                ("params"@, crate::request::sort_type::script::enc_script_sort(sc)),
            ],
        ),
    }
}

/// Whether a value is the encoding of some sort criterion.
pub open spec fn is_enc_sort(v: JVal) -> bool {
    &&& v is Obj
    &&& v->Obj_0.len() == 2
    &&& v->Obj_0[0].0 == "type"@
    &&& v->Obj_0[1].0 == "params"@
    &&& {
        ||| (v->Obj_0[0].1 == JVal::Str("Field"@) && is_enc_field_sort(v->Obj_0[1].1))
        ||| (v->Obj_0[0].1 == JVal::Str("Score"@) && v->Obj_0[1].1 is Null)
        ||| (v->Obj_0[0].1 == JVal::Str("ScoreWithOrder"@) && v->Obj_0[1].1 is Obj
            && v->Obj_0[1].1->Obj_0.len() == 1 && v->Obj_0[1].1->Obj_0[0].0 == "order"@ && (
        exists|o: SortOrder| v->Obj_0[1].1->Obj_0[0].1 == JVal::Str(sort_order_chars(o))))
        ||| (v->Obj_0[0].1 == JVal::Str("ScriptSort"@)
            && crate::request::sort_type::script::is_enc_script_sort(v->Obj_0[1].1))
    }
}

/// Every encoding the encoder produces is accepted by the decoder's
/// validity predicate; together with the decoder's contract this gives
/// round-trip idempotence: decoding an encoded sort criterion succeeds and
/// yields a criterion with the same encoding, hence the same structure.
pub proof fn lemma_enc_sort_valid(s: SortType)
    ensures
        is_enc_sort(enc_sort(s)),
{
}

impl FieldSort {
    /// Encode this sort's fields in the structural form.
    pub fn encode(&self) -> (r: JsonValue)
        ensures
            r@ == enc_field_sort(*self),
    {
        let mut obj = JsonObj::new();
        obj.push_field("field", JsonValue::Str(self.field.clone()));
        obj.push_field("order", JsonValue::Str(self.order.token()));
        match &self.missing {
            Some(missing) => {
                obj.push_field("missing", JsonValue::Str(missing.clone()));
            },
            None => {
                obj.push_field("missing", JsonValue::Null);
            },
        }
        match &self.unmapped_type {
            Some(unmapped_type) => {
                obj.push_field("unmapped_type", JsonValue::Str(unmapped_type.clone()));
            },
            None => {
                obj.push_field("unmapped_type", JsonValue::Null);
            },
        }
        proof {
            assert(obj@ =~~= enc_field_sort(*self)->Obj_0);
        }
        let r = obj.finish();
        proof {
            assert(r@ =~~= enc_field_sort(*self));
        }
        r
    }

    /// Decode a field sort's fields from the structural form.
    pub fn decode(v: &JsonValue) -> (r: Option<FieldSort>)
        ensures
            r matches Some(s) ==> enc_field_sort(s) == v@,
            is_enc_field_sort(v@) ==> r is Some,
    {
        let pairs = match v {
            JsonValue::Obj(pairs) => pairs,
            _ => {
                return None;
            },
        };
        proof {
            crate::json::lemma_jpairs_of_index(pairs@);
        }
        if pairs.len() != 4 {
            return None;
        }
        proof {
            crate::json::lemma_jval_of_variants(pairs@[0].1);
            crate::json::lemma_jval_of_variants(pairs@[1].1);
            crate::json::lemma_jval_of_variants(pairs@[2].1);
            crate::json::lemma_jval_of_variants(pairs@[3].1);
        }
        if !(pairs[0].0 == String::from_str("field")) {
            return None;
        }
        if !(pairs[1].0 == String::from_str("order")) {
            return None;
        }
        if !(pairs[2].0 == String::from_str("missing")) {
            return None;
        }
        if !(pairs[3].0 == String::from_str("unmapped_type")) {
            return None;
        }
        let field = match &pairs[0].1 {
            JsonValue::Str(field) => field.clone(),
            _ => {
                return None;
            },
        };
        let order = match SortOrder::decode(&pairs[1].1) {
            Some(order) => order,
            None => {
                return None;
            },
        };
        let missing = match &pairs[2].1 {
            JsonValue::Null => None,
            JsonValue::Str(missing) => Some(missing.clone()),
            _ => {
                return None;
            },
        };
        let unmapped_type = match &pairs[3].1 {
            JsonValue::Null => None,
            JsonValue::Str(unmapped_type) => Some(unmapped_type.clone()),
            _ => {
                return None;
            },
        };
        let s = FieldSort { field, order, missing, unmapped_type };
        let r = Some(s);
        proof {
            assert(enc_field_sort(s)->Obj_0 =~~= crate::json::jpairs_of(pairs@));
            assert(enc_field_sort(s) =~~= v@);
        }
        r
    }
}

impl SortType {
    /// Encode this sort criterion in the tagged structural form.
    pub fn encode(&self) -> (r: JsonValue)
        ensures
            r@ == enc_sort(*self),
    {
        let mut root = JsonObj::new();
        match self {
            SortType::Field(f) => {
                root.push_field("type", JsonValue::string("Field"));
                root.push_field("params", f.encode());
            },
            SortType::Score => {
                root.push_field("type", JsonValue::string("Score"));
                root.push_field("params", JsonValue::Null);
            },
            SortType::ScoreWithOrder(sw) => {
                root.push_field("type", JsonValue::string("ScoreWithOrder"));
                let mut params = JsonObj::new();
                params.push_field("order", JsonValue::Str(sw.order.token()));
                root.push_field("params", params.finish());
            },
            SortType::ScriptSort(sc) => {
                root.push_field("type", JsonValue::string("ScriptSort"));
                root.push_field("params", sc.encode());
            },
        }
        proof {
            assert(root@ =~~= enc_sort(*self)->Obj_0);
        }
        let r = root.finish();
        proof {
            assert(r@ =~~= enc_sort(*self));
        }
        r
    }

    /// Decode a sort criterion from its tagged structural form. Returns the
    /// criterion whose encoding is the input whenever the input is such an
    /// encoding, and nothing otherwise.
    pub fn decode(v: &JsonValue) -> (r: Option<SortType>)
        ensures
            r matches Some(s) ==> enc_sort(s) == v@,
            is_enc_sort(v@) ==> r is Some,
    {
        let pairs = match v {
            JsonValue::Obj(pairs) => pairs,
            _ => {
                return None;
            },
        };
        proof {
            crate::json::lemma_jpairs_of_index(pairs@);
        }
        if pairs.len() != 2 {
            return None;
        }
        proof {
            crate::json::lemma_jval_of_variants(pairs@[0].1);
            crate::json::lemma_jval_of_variants(pairs@[1].1);
            reveal_strlit("Field");
            reveal_strlit("Score");
            reveal_strlit("ScoreWithOrder");
            reveal_strlit("ScriptSort");
            assert("Field"@.len() == 5 && "Score"@.len() == 5);
            assert("ScoreWithOrder"@.len() == 14 && "ScriptSort"@.len() == 10);
            assert("Field"@[0] == 'F' && "Score"@[0] == 'S');
            assert("Field"@ != "Score"@);
        }
        if !(pairs[0].0 == String::from_str("type")) {
            return None;
        }
        if !(pairs[1].0 == String::from_str("params")) {
            return None;
        }
        let tag = match &pairs[0].1 {
            JsonValue::Str(tag) => tag,
            _ => {
                return None;
            },
        };
        if *tag == String::from_str("Field") {
            let f = match FieldSort::decode(&pairs[1].1) {
                Some(f) => f,
                None => {
                    return None;
                },
            };
            let r = Some(SortType::Field(f));
            proof {
                assert(enc_sort(SortType::Field(f))->Obj_0 =~~= crate::json::jpairs_of(pairs@));
                assert(enc_sort(SortType::Field(f)) =~~= v@);
            }
            r
        } else if *tag == String::from_str("Score") {
            match &pairs[1].1 {
                JsonValue::Null => {},
                _ => {
                    return None;
                },
            }
            let r = Some(SortType::Score);
            proof {
                assert(enc_sort(SortType::Score)->Obj_0 =~~= crate::json::jpairs_of(pairs@));
                assert(enc_sort(SortType::Score) =~~= v@);
            }
            r
        } else if *tag == String::from_str("ScoreWithOrder") {
            let params = match &pairs[1].1 {
                JsonValue::Obj(params) => params,
                _ => {
                    return None;
                },
            };
            proof {
                crate::json::lemma_jpairs_of_index(params@);
            }
            if params.len() != 1 {
                return None;
            }
            if !(params[0].0 == String::from_str("order")) {
                return None;
            }
            let order = match SortOrder::decode(&params[0].1) {
                Some(order) => order,
                None => {
                    return None;
                },
            };
            let sw = ScoreWithOrderSort { order };
            let r = Some(SortType::ScoreWithOrder(sw));
            proof {
                assert(crate::json::jpairs_of(params@) =~= seq![
                    ("order"@, JVal::Str(sort_order_chars(sw.order))),
                ]);
                assert(enc_sort(SortType::ScoreWithOrder(sw))->Obj_0
                    =~~= crate::json::jpairs_of(pairs@));
                assert(enc_sort(SortType::ScoreWithOrder(sw)) =~~= v@);
            }
            r
        } else if *tag == String::from_str("ScriptSort") {
            let sc = match ScriptSort::decode(&pairs[1].1) {
                Some(sc) => sc,
                None => {
                    return None;
                },
            };
            let r = Some(SortType::ScriptSort(sc));
            proof {
                assert(enc_sort(SortType::ScriptSort(sc))->Obj_0 =~~= crate::json::jpairs_of(
                    pairs@,
                ));
                assert(enc_sort(SortType::ScriptSort(sc)) =~~= v@);
            }
            r
        } else {
            None
        }
    }
}

} // verus!
