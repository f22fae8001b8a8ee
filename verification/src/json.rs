//! Structured JSON values and their ghost model.
//!
//! `JsonValue` is the owned, executable value that every `to_json` projection
//! produces; `JVal` is its ghost mirror, with sequences in place of vectors
//! and character sequences in place of strings, so contracts can state the
//! exact shape of a projected document.

use vstd::prelude::*;
use vstd::string::StringExecFns;

verus! {

/// A JSON number: unsigned, signed, or an IEEE 754 double carried as its raw
/// bit pattern (so the model itself stays free of machine floats).
#[derive(Clone, Copy, Debug, PartialEq, Eq, Structural)]
pub enum JsonNum {
    UInt(u64),
    Int(i64),
    FloatBits(u64),
}

/// An owned JSON-like structured value: null, boolean, number, string,
/// ordered array, or an ordered list of string-keyed fields.
#[derive(Debug, PartialEq)]
pub enum JsonValue {
    Null,
    Bool(bool),
    Num(JsonNum),
    Str(String),
    Arr(Vec<JsonValue>),
    Obj(Vec<(String, JsonValue)>),
}

/// Ghost model of a JSON value.
#[verifier::ext_equal]
pub enum JVal {
    Null,
    Bool(bool),
    Num(JsonNum),
    Str(Seq<char>),
    Arr(Seq<JVal>),
    Obj(Seq<(Seq<char>, JVal)>),
}

/// Ghost image of an executable JSON value.
pub open spec fn jval_of(v: JsonValue) -> JVal
    decreases v,
{
    match v {
        JsonValue::Null => JVal::Null,
        JsonValue::Bool(b) => JVal::Bool(b),
        JsonValue::Num(n) => JVal::Num(n),
        JsonValue::Str(s) => JVal::Str(s@),
        JsonValue::Arr(items) => JVal::Arr(jvals_of(items@)),
        JsonValue::Obj(pairs) => JVal::Obj(jpairs_of(pairs@)),
    }
}

/// Ghost images of a sequence of JSON values, in order.
pub open spec fn jvals_of(items: Seq<JsonValue>) -> Seq<JVal>
    decreases items,
{
    if items.len() == 0 {
        Seq::empty()
    } else {
        jvals_of(items.subrange(0, items.len() - 1)).push(jval_of(items[items.len() - 1]))
    }
}

/// Ghost images of a sequence of string-keyed fields, in order.
pub open spec fn jpairs_of(pairs: Seq<(String, JsonValue)>) -> Seq<(Seq<char>, JVal)>
    decreases pairs,
{
    if pairs.len() == 0 {
        Seq::empty()
    } else {
        jpairs_of(pairs.subrange(0, pairs.len() - 1)).push(
            (pairs[pairs.len() - 1].0@, jval_of(pairs[pairs.len() - 1].1)),
        )
    }
}

impl View for JsonValue {
    type V = JVal;

    open spec fn view(&self) -> JVal {
        jval_of(*self)
    }
}

/// Appending a value on the right extends the ghost image on the right.
pub proof fn lemma_jvals_of_push(items: Seq<JsonValue>, v: JsonValue)
    ensures
        jvals_of(items.push(v)) == jvals_of(items).push(jval_of(v)),
{
    let s = items.push(v);
    assert(s.subrange(0, s.len() - 1) =~= items);
    assert(s[s.len() - 1] == v);
}

/// Appending a field on the right extends the ghost image on the right.
pub proof fn lemma_jpairs_of_push(pairs: Seq<(String, JsonValue)>, p: (String, JsonValue))
    ensures
        jpairs_of(pairs.push(p)) == jpairs_of(pairs).push((p.0@, jval_of(p.1))),
{
    let s = pairs.push(p);
    assert(s.subrange(0, s.len() - 1) =~= pairs);
    assert(s[s.len() - 1] == p);
}

impl JsonValue {
    /// A string value copied from a string slice.
    pub fn string(s: &str) -> (r: JsonValue)
        ensures
            r@ == JVal::Str(s@),
    {
        JsonValue::Str(String::from_str(s))
    }

    /// An unsigned number value.
    pub fn uint64(n: u64) -> (r: JsonValue)
        ensures
            r@ == JVal::Num(JsonNum::UInt(n)),
    {
        JsonValue::Num(JsonNum::UInt(n))
    }

    /// A signed number value.
    pub fn int64(n: i64) -> (r: JsonValue)
        ensures
            r@ == JVal::Num(JsonNum::Int(n)),
    {
        JsonValue::Num(JsonNum::Int(n))
    }

    /// A double value given by its IEEE 754 bit pattern.
    pub fn float_bits(bits: u64) -> (r: JsonValue)
        ensures
            r@ == JVal::Num(JsonNum::FloatBits(bits)),
    {
        JsonValue::Num(JsonNum::FloatBits(bits))
    }

    /// A structural copy of this value, equal to it in the ghost model.
    pub fn deep_clone(&self) -> (r: JsonValue)
        ensures
            r@ == self@,
        decreases self,
    {
        match self {
            JsonValue::Null => JsonValue::Null,
            JsonValue::Bool(b) => JsonValue::Bool(*b),
            JsonValue::Num(n) => JsonValue::Num(*n),
            JsonValue::Str(s) => JsonValue::Str(s.clone()),
            JsonValue::Arr(items) => {
                let mut out: Vec<JsonValue> = Vec::new();
                let mut i: usize = 0;
                while i < items.len()
                    invariant
                        *self == JsonValue::Arr(*items),
                        i <= items.len(),
                        jvals_of(out@) =~= jvals_of(items@.subrange(0, i as int)),
                    decreases items.len() - i,
                {
                    proof {
                        assert(decreases_to!(*self => self->Arr_0));
                        assert(self->Arr_0 == *items);
                        assert(decreases_to!(*items => items@[i as int]));
                    }
                    let c = items[i].deep_clone();
                    proof {
                        lemma_jvals_of_push(out@, c);
                        lemma_jvals_of_push(items@.subrange(0, i as int), items@[i as int]);
                        assert(items@.subrange(0, i + 1 as int) =~= items@.subrange(
                            0,
                            i as int,
                        ).push(items@[i as int]));
                    }
                    out.push(c);
                    i += 1;
                }
                proof {
                    assert(items@.subrange(0, items@.len() as int) =~= items@);
                }
                JsonValue::Arr(out)
            },
            JsonValue::Obj(pairs) => {
                let mut out: Vec<(String, JsonValue)> = Vec::new();
                let mut i: usize = 0;
                while i < pairs.len()
                    invariant
                        *self == JsonValue::Obj(*pairs),
                        i <= pairs.len(),
                        jpairs_of(out@) =~= jpairs_of(pairs@.subrange(0, i as int)),
                    decreases pairs.len() - i,
                {
                    proof {
                        assert(decreases_to!(*self => self->Obj_0));
                        assert(self->Obj_0 == *pairs);
                        assert(decreases_to!(*pairs => pairs@[i as int]));
                        assert(decreases_to!(pairs@[i as int] => pairs@[i as int].1));
                    }
                    let k = pairs[i].0.clone();
                    let v = pairs[i].1.deep_clone();
                    proof {
                        lemma_jpairs_of_push(out@, (k, v));
                        lemma_jpairs_of_push(pairs@.subrange(0, i as int), pairs@[i as int]);
                        assert(pairs@.subrange(0, i + 1 as int) =~= pairs@.subrange(
                            0,
                            i as int,
                        ).push(pairs@[i as int]));
                    }
                    out.push((k, v));
                    i += 1;
                }
                proof {
                    assert(pairs@.subrange(0, pairs@.len() as int) =~= pairs@);
                }
                JsonValue::Obj(out)
            },
        }
    }
}

/// Builds the ordered field list of a JSON object, one field at a time.
pub struct JsonObj {
    pairs: Vec<(String, JsonValue)>,
}

impl View for JsonObj {
    type V = Seq<(Seq<char>, JVal)>;

    closed spec fn view(&self) -> Seq<(Seq<char>, JVal)> {
        jpairs_of(self.pairs@)
    }
}

impl JsonObj {
    /// An object with no fields yet.
    pub fn new() -> (r: Self)
        ensures
            r@ == Seq::<(Seq<char>, JVal)>::empty(),
    {
        JsonObj { pairs: Vec::new() }
    }

    /// Append one field; fields keep their insertion order.
    pub fn push_field(&mut self, key: &str, value: JsonValue)
        ensures
            final(self)@ == old(self)@.push((key@, value@)),
    {
        let k = String::from_str(key);
        proof {
            lemma_jpairs_of_push(self.pairs@, (k, value));
        }
        self.pairs.push((k, value));
    }

    /// The finished object value.
    pub fn finish(self) -> (r: JsonValue)
        ensures
            r@ == JVal::Obj(self@),
    {
        JsonValue::Obj(self.pairs)
    }
}

/// Builds an ordered JSON array, one element at a time.
pub struct JsonArr {
    items: Vec<JsonValue>,
}

impl View for JsonArr {
    type V = Seq<JVal>;

    closed spec fn view(&self) -> Seq<JVal> {
        jvals_of(self.items@)
    }
}

impl JsonArr {
    /// An array with no elements yet.
    pub fn new() -> (r: Self)
        ensures
            r@ == Seq::<JVal>::empty(),
    {
        JsonArr { items: Vec::new() }
    }

    /// Append one element; elements keep their insertion order.
    pub fn push_value(&mut self, value: JsonValue)
        ensures
            final(self)@ == old(self)@.push(value@),
    {
        proof {
            lemma_jvals_of_push(self.items@, value);
        }
        self.items.push(value);
    }

    /// The finished array value.
    pub fn finish(self) -> (r: JsonValue)
        ensures
            r@ == JVal::Arr(self@),
    {
        JsonValue::Arr(self.items)
    }
}

/// The ghost image of a sequence keeps its length and order.
pub proof fn lemma_jvals_of_index(items: Seq<JsonValue>)
    ensures
        jvals_of(items).len() == items.len(),
        forall|i: int| 0 <= i < items.len() ==> jvals_of(items)[i] == jval_of(items[i]),
    decreases items,
{
    if items.len() > 0 {
        lemma_jvals_of_index(items.subrange(0, items.len() - 1));
        assert(forall|i: int|
            0 <= i < items.len() - 1 ==> items.subrange(0, items.len() - 1)[i] == items[i]);
    }
}

/// The ghost image of a field list keeps its length and order.
pub proof fn lemma_jpairs_of_index(pairs: Seq<(String, JsonValue)>)
    ensures
        jpairs_of(pairs).len() == pairs.len(),
        forall|i: int| 0 <= i < pairs.len() ==> jpairs_of(pairs)[i] == (
            pairs[i].0@,
            jval_of(pairs[i].1),
        ),
    decreases pairs,
{
    if pairs.len() > 0 {
        lemma_jpairs_of_index(pairs.subrange(0, pairs.len() - 1));
        assert(forall|i: int|
            0 <= i < pairs.len() - 1 ==> pairs.subrange(0, pairs.len() - 1)[i] == pairs[i]);
    }
}

/// Ghost images of a sequence of strings, in order.
pub open spec fn strs_jv(ss: Seq<String>) -> Seq<JVal>
    decreases ss,
{
    if ss.len() == 0 {
        Seq::empty()
    } else {
        strs_jv(ss.subrange(0, ss.len() - 1)).push(JVal::Str(ss[ss.len() - 1]@))
    }
}

/// Appending a string on the right extends the ghost image on the right.
pub proof fn lemma_strs_jv_push(ss: Seq<String>, s: String)
    ensures
        strs_jv(ss.push(s)) == strs_jv(ss).push(JVal::Str(s@)),
{
    let t = ss.push(s);
    assert(t.subrange(0, t.len() - 1) =~= ss);
    assert(t[t.len() - 1] == s);
}

/// The ghost image of a string sequence keeps its length and order.
pub proof fn lemma_strs_jv_index(ss: Seq<String>)
    ensures
        strs_jv(ss).len() == ss.len(),
        forall|i: int| 0 <= i < ss.len() ==> strs_jv(ss)[i] == JVal::Str(ss[i]@),
    decreases ss,
{
    if ss.len() > 0 {
        lemma_strs_jv_index(ss.subrange(0, ss.len() - 1));
        assert(forall|i: int|
            0 <= i < ss.len() - 1 ==> ss.subrange(0, ss.len() - 1)[i] == ss[i]);
    }
}

/// Copy a vector of values into a JSON array value, keeping the order.
pub fn values_to_array(vs: &Vec<JsonValue>) -> (r: JsonValue)
    ensures
        r@ == JVal::Arr(jvals_of(vs@)),
{
    let mut out: Vec<JsonValue> = Vec::new();
    let mut i: usize = 0;
    while i < vs.len()
        invariant
            i <= vs.len(),
            jvals_of(out@) =~= jvals_of(vs@.subrange(0, i as int)),
        decreases vs.len() - i,
    {
        let c = vs[i].deep_clone();
        proof {
            lemma_jvals_of_push(out@, c);
            lemma_jvals_of_push(vs@.subrange(0, i as int), vs@[i as int]);
            assert(vs@.subrange(0, i + 1 as int) =~= vs@.subrange(0, i as int).push(
                vs@[i as int],
            ));
        }
        out.push(c);
        i += 1;
    }
    proof {
        assert(vs@.subrange(0, vs@.len() as int) =~= vs@);
    }
    JsonValue::Arr(out)
}

/// Copy a vector of strings into a JSON array of string values.
pub fn strings_to_array(ss: &Vec<String>) -> (r: JsonValue)
    ensures
        r@ == JVal::Arr(strs_jv(ss@)),
{
    let mut out: Vec<JsonValue> = Vec::new();
    let mut i: usize = 0;
    while i < ss.len()
        invariant
            i <= ss.len(),
            jvals_of(out@) =~= strs_jv(ss@.subrange(0, i as int)),
        decreases ss.len() - i,
    {
        let c = JsonValue::Str(ss[i].clone());
        proof {
            lemma_jvals_of_push(out@, c);
            lemma_strs_jv_push(ss@.subrange(0, i as int), ss@[i as int]);
            assert(ss@.subrange(0, i + 1 as int) =~= ss@.subrange(0, i as int).push(
                ss@[i as int],
            ));
        }
        out.push(c);
        i += 1;
    }
    proof {
        assert(ss@.subrange(0, ss@.len() as int) =~= ss@);
    }
    JsonValue::Arr(out)
}

/// The ghost image keeps the kind of a value, and the number of a number.
pub proof fn lemma_jval_of_variants(x: JsonValue)
    ensures
        jval_of(x) is Null <==> x is Null,
        jval_of(x) is Bool <==> x is Bool,
        jval_of(x) is Num <==> x is Num,
        jval_of(x) is Str <==> x is Str,
        jval_of(x) is Arr <==> x is Arr,
        jval_of(x) is Obj <==> x is Obj,
        x is Num ==> jval_of(x)->Num_0 == x->Num_0,
        x is Bool ==> jval_of(x)->Bool_0 == x->Bool_0,
{
    match x {
        JsonValue::Null => {},
        JsonValue::Bool(_) => {},
        JsonValue::Num(_) => {},
        JsonValue::Str(_) => {},
        JsonValue::Arr(_) => {},
        JsonValue::Obj(_) => {},
    }
}

} // verus!
