//! Script sort: sorts by the value a script computes per document.

use vstd::prelude::*;
use vstd::string::StringExecFns;
use crate::json::{JVal, JsonObj, JsonValue};
use crate::request::sort_type::{sort_mode_chars, sort_order_chars, SortMode, SortOrder};

verus! {

/// Type of the value a sort script yields.
#[derive(Clone, Copy, Debug, PartialEq, Eq, Structural)]
pub enum ScriptSortType {
    /// Numeric values
    Number,
    /// String values, sorted lexicographically
    Str,
    /// Version strings
    Version,
}

/// Lowercase token of a script sort type.
pub open spec fn script_sort_type_chars(t: ScriptSortType) -> Seq<char> {
    match t {
        ScriptSortType::Number => "number"@,
        ScriptSortType::Str => "string"@,
        ScriptSortType::Version => "version"@,
    }
}

impl ScriptSortType {
    /// The token of this sort type.
    pub fn token(&self) -> (r: String)
        ensures
            r@ == script_sort_type_chars(*self),
    {
        match self {
            ScriptSortType::Number => String::from_str("number"),
            ScriptSortType::Str => String::from_str("string"),
            ScriptSortType::Version => String::from_str("version"),
        }
    }
}

/// Scripting language of a sort script.
#[derive(Clone, Copy, Debug, PartialEq, Eq, Structural, Default)]
pub enum Lang {
    /// Default and recommended scripting language
    #[default]
    Painless,
    /// Fast, lightweight expressions
    Expression,
    /// Template language
    Mustache,
}

/// Lowercase token of a scripting language.
pub open spec fn lang_chars(l: Lang) -> Seq<char> {
    match l {
        Lang::Painless => "painless"@,
        Lang::Expression => "expression"@,
        Lang::Mustache => "mustache"@,
    }
}

impl Lang {
    /// The token of this language.
    pub fn token(&self) -> (r: String)
        ensures
            r@ == lang_chars(*self),
    {
        match self {
            Lang::Painless => String::from_str("painless"),
            Lang::Expression => String::from_str("expression"),
            Lang::Mustache => String::from_str("mustache"),
        }
    }
}

/// A script: its source, language, and optional parameters.
#[derive(Debug)]
pub struct Script {
    pub source: String,
    pub lang: Lang,
    pub params: Option<JsonValue>,
}

/// Fields of a script object, in the fixed key order source, lang, params.
pub open spec fn script_fields_jv(s: Script) -> Seq<(Seq<char>, JVal)> {
    let ps = seq![("source"@, JVal::Str(s.source@)), ("lang"@, JVal::Str(lang_chars(s.lang)))];
    if s.params is Some {
        ps.push(("params"@, s.params->0@))
    } else {
        ps
    }
}

/// Wire shape of a script object.
pub open spec fn script_jv(s: Script) -> JVal {
    JVal::Obj(script_fields_jv(s))
}

impl Script {
    /// A script with the given source, in the default language, without
    /// parameters.
    pub fn new(source: &str) -> (r: Self)
        ensures
            r.source@ == source@,
            r.lang == Lang::Painless,
            r.params is None,
    {
        Script { source: String::from_str(source), lang: Lang::Painless, params: None }
    }

    /// Set the language.
    pub fn lang(self, lang: Lang) -> (r: Self)
        ensures
            r == (Script { lang, ..self }),
    {
        Script { lang, ..self }
    }

    /// Set the parameters.
    pub fn params(self, params: JsonValue) -> (r: Self)
        ensures
            r == (Script { params: Some(params), ..self }),
    {
        Script { params: Some(params), ..self }
    }

    /// Project this script onto its wire shape.
    pub fn to_json(&self) -> (r: JsonValue)
        ensures
            r@ == script_jv(*self),
    {
        let mut obj = JsonObj::new();
        obj.push_field("source", JsonValue::Str(self.source.clone()));
        obj.push_field("lang", JsonValue::Str(self.lang.token()));
        if let Some(params) = &self.params {
            obj.push_field("params", params.deep_clone());
        }
        proof {
            assert(obj@ =~= script_fields_jv(*self));
        }
        let r = obj.finish();
        proof {
            assert(r@ =~~= script_jv(*self));
        }
        r
    }
}

/// Script sort criterion: the script, its value type, the order, and an
/// optional multi-value mode.
#[derive(Debug)]
pub struct ScriptSort {
    pub sort_type: ScriptSortType,
    pub script: Script,
    pub order: SortOrder,
    pub mode: Option<SortMode>,
}

/// Fields of the `_script` object, in the fixed key order
/// type, script, order, mode.
pub open spec fn script_sort_fields_jv(s: ScriptSort) -> Seq<(Seq<char>, JVal)> {
    let ps = seq![
        ("type"@, JVal::Str(script_sort_type_chars(s.sort_type))),
        ("script"@, script_jv(s.script)),
        ("order"@, JVal::Str(sort_order_chars(s.order))),
    ];
    if s.mode is Some {
        ps.push(("mode"@, JVal::Str(sort_mode_chars(s.mode->0))))
    } else {
        ps
    }
}

/// Wire shape of a script sort: `{"_script": {fields...}}`.
pub open spec fn script_sort_jv(s: ScriptSort) -> JVal {
    JVal::Obj(seq![("_script"@, JVal::Obj(script_sort_fields_jv(s)))])
}

impl ScriptSort {
    /// A script sort with the given script, value type, and order.
    pub fn new(script: Script, sort_type: ScriptSortType, order: SortOrder) -> (r: Self)
        ensures
            r.sort_type == sort_type,
            r.script == script,
            r.order == order,
            r.mode is None,
    {
        ScriptSort { sort_type, script, order, mode: None }
    }

    /// Set the multi-value mode.
    pub fn mode(self, mode: SortMode) -> (r: Self)
        ensures
            r == (ScriptSort { mode: Some(mode), ..self }),
    {
        ScriptSort { mode: Some(mode), ..self }
    }

    /// Project this sort onto its wire shape.
    pub fn to_json(&self) -> (r: JsonValue)
        ensures
            r@ == script_sort_jv(*self),
    {
        let mut script_obj = JsonObj::new();
        script_obj.push_field("type", JsonValue::Str(self.sort_type.token()));
        script_obj.push_field("script", self.script.to_json());
        script_obj.push_field("order", JsonValue::Str(self.order.token()));
        if let Some(mode) = &self.mode {
            script_obj.push_field("mode", JsonValue::Str(mode.token()));
        }
        proof {
            assert(script_obj@ =~= script_sort_fields_jv(*self));
        }
        let mut root = JsonObj::new();
        root.push_field("_script", script_obj.finish());
        let r = root.finish();
        proof {
            assert(r@ =~~= script_sort_jv(*self));
        }
        r
    }
}

/// Encoded form of a script: every field in a fixed order; the optional
/// parameters are carried as a zero- or one-element array so that an absent
/// value and a null value stay distinguishable.
pub open spec fn enc_script(s: Script) -> JVal {
    JVal::Obj(
        seq![
            ("source"@, JVal::Str(s.source@)),
            ("lang"@, JVal::Str(lang_chars(s.lang))),
            (
                "params"@,
                if s.params is Some {
                    JVal::Arr(seq![s.params->0@])
                } else {
                    JVal::Arr(Seq::empty())
                },
            ),
        ],
    )
}

/// Whether a value is the encoding of a script.
pub open spec fn is_enc_script(v: JVal) -> bool {
    &&& v is Obj
    &&& v->Obj_0.len() == 3
    &&& v->Obj_0[0].0 == "source"@
    &&& v->Obj_0[0].1 is Str
    &&& v->Obj_0[1].0 == "lang"@
    &&& (exists|l: Lang| v->Obj_0[1].1 == JVal::Str(lang_chars(l)))
    &&& v->Obj_0[2].0 == "params"@
    &&& v->Obj_0[2].1 is Arr
    &&& v->Obj_0[2].1->Arr_0.len() <= 1
}

/// Encoded form of a script sort: every field in a fixed order; an unset
/// mode is encoded as null.
pub open spec fn enc_script_sort(s: ScriptSort) -> JVal {
    JVal::Obj(
        seq![
            ("type"@, JVal::Str(script_sort_type_chars(s.sort_type))),
            ("script"@, enc_script(s.script)),
            ("order"@, JVal::Str(sort_order_chars(s.order))),
            (
                "mode"@,
                if s.mode is Some {
                    JVal::Str(sort_mode_chars(s.mode->0))
                } else {
                    JVal::Null
                },
            ),
        ],
    )
}

/// Whether a value is the encoding of a script sort.
pub open spec fn is_enc_script_sort(v: JVal) -> bool {
    &&& v is Obj
    &&& v->Obj_0.len() == 4
    &&& v->Obj_0[0].0 == "type"@
    &&& (exists|t: ScriptSortType| v->Obj_0[0].1 == JVal::Str(script_sort_type_chars(t)))
    &&& v->Obj_0[1].0 == "script"@
    &&& is_enc_script(v->Obj_0[1].1)
    &&& v->Obj_0[2].0 == "order"@
    &&& (exists|o: SortOrder| v->Obj_0[2].1 == JVal::Str(sort_order_chars(o)))
    &&& v->Obj_0[3].0 == "mode"@
    &&& (v->Obj_0[3].1 is Null || (exists|m: SortMode| v->Obj_0[3].1 == JVal::Str(
        sort_mode_chars(m),
    )))
}

impl ScriptSortType {
    /// Decode a script sort type from its token.
    pub fn decode(v: &JsonValue) -> (r: Option<ScriptSortType>)
        ensures
            r matches Some(t) ==> v@ == JVal::Str(script_sort_type_chars(t)),
            (exists|t: ScriptSortType| v@ == JVal::Str(script_sort_type_chars(t))) ==> r
                is Some,
    {
        let s = match v {
            JsonValue::Str(s) => s,
            _ => {
                return None;
            },
        };
        if *s == String::from_str("number") {
            Some(ScriptSortType::Number)
        } else if *s == String::from_str("string") {
            Some(ScriptSortType::Str)
        } else if *s == String::from_str("version") {
            Some(ScriptSortType::Version)
        } else {
            proof {
                assert forall|t: ScriptSortType| v@ != JVal::Str(
                    script_sort_type_chars(t),
                ) by {
                    if t is Number {
                    } else if t is Str {
                    } else {
                    }
                }
            }
            None
        }
    }
}

impl Lang {
    /// Decode a language from its token.
    pub fn decode(v: &JsonValue) -> (r: Option<Lang>)
        ensures
            r matches Some(l) ==> v@ == JVal::Str(lang_chars(l)),
            (exists|l: Lang| v@ == JVal::Str(lang_chars(l))) ==> r is Some,
    {
        let s = match v {
            JsonValue::Str(s) => s,
            _ => {
                return None;
            },
        };
        if *s == String::from_str("painless") {
            Some(Lang::Painless)
        } else if *s == String::from_str("expression") {
            Some(Lang::Expression)
        } else if *s == String::from_str("mustache") {
            Some(Lang::Mustache)
        } else {
            proof {
                assert forall|l: Lang| v@ != JVal::Str(lang_chars(l)) by {
                    if l is Painless {
                    } else if l is Expression {
                    } else {
                    }
                }
            }
            None
        }
    }
}

impl Script {
    /// Encode this script in the structural form.
    pub fn encode(&self) -> (r: JsonValue)
        ensures
            r@ == enc_script(*self),
    {
        let mut obj = JsonObj::new();
        obj.push_field("source", JsonValue::Str(self.source.clone()));
        obj.push_field("lang", JsonValue::Str(self.lang.token()));
        let mut params_arr = crate::json::JsonArr::new();
        if let Some(params) = &self.params {
            params_arr.push_value(params.deep_clone());
        }
        obj.push_field("params", params_arr.finish());
        proof {
            assert(obj@ =~~= enc_script(*self)->Obj_0);
        }
        let r = obj.finish();
        proof {
            assert(r@ =~~= enc_script(*self));
        }
        r
    }

    /// Decode a script from the structural form.
    pub fn decode(v: &JsonValue) -> (r: Option<Script>)
        ensures
            r matches Some(s) ==> enc_script(s) == v@,
            is_enc_script(v@) ==> r is Some,
    {
        let pairs = match v {
            JsonValue::Obj(pairs) => pairs,
            _ => {
                return None;
            },
        };
        proof {
            crate::json::lemma_jpairs_of_index(pairs@);
        }
        if pairs.len() != 3 {
            return None;
        }
        proof {
            crate::json::lemma_jval_of_variants(pairs@[0].1);
            crate::json::lemma_jval_of_variants(pairs@[1].1);
            crate::json::lemma_jval_of_variants(pairs@[2].1);
        }
        if !(pairs[0].0 == String::from_str("source")) {
            return None;
        }
        if !(pairs[1].0 == String::from_str("lang")) {
            return None;
        }
        if !(pairs[2].0 == String::from_str("params")) {
            return None;
        }
        let source = match &pairs[0].1 {
            JsonValue::Str(source) => source.clone(),
            _ => {
                return None;
            },
        };
        let lang = match Lang::decode(&pairs[1].1) {
            Some(lang) => lang,
            None => {
                return None;
            },
        };
        let items = match &pairs[2].1 {
            JsonValue::Arr(items) => items,
            _ => {
                return None;
            },
        };
        proof {
            crate::json::lemma_jvals_of_index(items@);
        }
        if items.len() > 1 {
            return None;
        }
        let params = if items.len() == 1 {
            Some(items[0].deep_clone())
        } else {
            None
        };
        let s = Script { source, lang, params };
        let r = Some(s);
        proof {
            if params is Some {
                assert(crate::json::jvals_of(items@) =~= seq![s.params->0@]);
            } else {
                assert(crate::json::jvals_of(items@) =~= Seq::<JVal>::empty());
            }
            assert(enc_script(s)->Obj_0 =~~= crate::json::jpairs_of(pairs@));
            assert(enc_script(s) =~~= v@);
        }
        r
    }
}

impl ScriptSort {
    /// Encode this script sort in the structural form.
    pub fn encode(&self) -> (r: JsonValue)
        ensures
            r@ == enc_script_sort(*self),
    {
        let mut obj = JsonObj::new();
        obj.push_field("type", JsonValue::Str(self.sort_type.token()));
        obj.push_field("script", self.script.encode());
        obj.push_field("order", JsonValue::Str(self.order.token()));
        match &self.mode {
            Some(mode) => {
                obj.push_field("mode", JsonValue::Str(mode.token()));
            },
            None => {
                obj.push_field("mode", JsonValue::Null);
            },
        }
        proof {
            assert(obj@ =~~= enc_script_sort(*self)->Obj_0);
        }
        let r = obj.finish();
        proof {
            assert(r@ =~~= enc_script_sort(*self));
        }
        r
    }

    /// Decode a script sort from the structural form.
    pub fn decode(v: &JsonValue) -> (r: Option<ScriptSort>)
        ensures
            r matches Some(s) ==> enc_script_sort(s) == v@,
            is_enc_script_sort(v@) ==> r is Some,
    {
        let pairs = match v {
            JsonValue::Obj(pairs) => pairs,
            _ => {
                return None;
            },
        };
        proof {
            crate::json::lemma_jpairs_of_index(pairs@);
        }
        if pairs.len() != 4 {
            return None;
        }
        proof {
            crate::json::lemma_jval_of_variants(pairs@[0].1);
            crate::json::lemma_jval_of_variants(pairs@[1].1);
            crate::json::lemma_jval_of_variants(pairs@[2].1);
            crate::json::lemma_jval_of_variants(pairs@[3].1);
        }
        if !(pairs[0].0 == String::from_str("type")) {
            return None;
        }
        if !(pairs[1].0 == String::from_str("script")) {
            return None;
        }
        if !(pairs[2].0 == String::from_str("order")) {
            return None;
        }
        if !(pairs[3].0 == String::from_str("mode")) {
            return None;
        }
        let sort_type = match ScriptSortType::decode(&pairs[0].1) {
            Some(sort_type) => sort_type,
            None => {
                return None;
            },
        };
        let script = match Script::decode(&pairs[1].1) {
            Some(script) => script,
            None => {
                return None;
            },
        };
        let order = match SortOrder::decode(&pairs[2].1) {
            Some(order) => order,
            None => {
                return None;
            },
        };
        let mode = match &pairs[3].1 {
            JsonValue::Null => None,
            _ => match SortMode::decode(&pairs[3].1) {
                Some(mode) => Some(mode),
                None => {
                    return None;
                },
            },
        };
        let s = ScriptSort { sort_type, script, order, mode };
        let r = Some(s);
        proof {
            assert(enc_script_sort(s)->Obj_0 =~~= crate::json::jpairs_of(pairs@));
            assert(enc_script_sort(s) =~~= v@);
        }
        r
    }
}

} // verus!
