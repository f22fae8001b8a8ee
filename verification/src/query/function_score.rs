//! Function-score query: rescoring of a sub-query by decay, field-value,
//! random, script or weight-only scoring functions.

use vstd::prelude::*;
use vstd::string::StringExecFns;
use crate::json::{JVal, JsonNum, JsonObj, JsonValue};
use crate::query::{query_jv, QueryType};

verus! {

/// How the scores of several functions are combined.
#[derive(Clone, Copy, Debug, PartialEq, Eq, Structural)]
pub enum ScoreMode {
    Multiply,
    Sum,
    Avg,
    First,
    Max,
    Min,
}

/// Lowercase token of a score mode.
pub open spec fn score_mode_chars(m: ScoreMode) -> Seq<char> {
    match m {
        ScoreMode::Multiply => "multiply"@,
        ScoreMode::Sum => "sum"@,
        ScoreMode::Avg => "avg"@,
        ScoreMode::First => "first"@,
        ScoreMode::Max => "max"@,
        ScoreMode::Min => "min"@,
    }
}

impl ScoreMode {
    /// The token of this mode.
    pub fn token(&self) -> (r: String)
        ensures
            r@ == score_mode_chars(*self),
    {
        match self {
            ScoreMode::Multiply => String::from_str("multiply"),
            ScoreMode::Sum => String::from_str("sum"),
            ScoreMode::Avg => String::from_str("avg"),
            ScoreMode::First => String::from_str("first"),
            ScoreMode::Max => String::from_str("max"),
            ScoreMode::Min => String::from_str("min"),
        }
    }
}

/// How the function score is combined with the query score.
#[derive(Clone, Copy, Debug, PartialEq, Eq, Structural)]
pub enum BoostMode {
    Multiply,
    Replace,
    Sum,
    Avg,
    Max,
    Min,
}

/// Lowercase token of a boost mode.
pub open spec fn boost_mode_chars(m: BoostMode) -> Seq<char> {
    match m {
        BoostMode::Multiply => "multiply"@,
        BoostMode::Replace => "replace"@,
        BoostMode::Sum => "sum"@,
        BoostMode::Avg => "avg"@,
        BoostMode::Max => "max"@,
        BoostMode::Min => "min"@,
    }
}

impl BoostMode {
    /// The token of this mode.
    pub fn token(&self) -> (r: String)
        ensures
            r@ == boost_mode_chars(*self),
    {
        match self {
            BoostMode::Multiply => String::from_str("multiply"),
            BoostMode::Replace => String::from_str("replace"),
            BoostMode::Sum => String::from_str("sum"),
            BoostMode::Avg => String::from_str("avg"),
            BoostMode::Max => String::from_str("max"),
            BoostMode::Min => String::from_str("min"),
        }
    }
}

/// Decay scoring configuration: score falls off with distance from an
/// origin over a scale.
#[derive(Debug)]
pub struct DecayFunction {
    pub field: String,
    pub origin: Option<JsonValue>,
    pub scale: String,
    pub offset: Option<String>,
    pub decay: Option<JsonNum>,
}

/// Fields of a decay object, in the fixed key order
/// origin, scale, offset, decay; `scale` is always present.
pub open spec fn decay_fields_jv(d: DecayFunction) -> Seq<(Seq<char>, JVal)> {
    let ps = Seq::<(Seq<char>, JVal)>::empty();
    let ps = if d.origin is Some {
        ps.push(("origin"@, d.origin->0@))
    } else {
        ps
    };
    let ps = ps.push(("scale"@, JVal::Str(d.scale@)));
    let ps = if d.offset is Some {
        ps.push(("offset"@, JVal::Str(d.offset->0@)))
    } else {
        ps
    };
    if d.decay is Some {
        ps.push(("decay"@, JVal::Num(d.decay->0)))
    } else {
        ps
    }
}

impl DecayFunction {
    /// A decay configuration on `field` with the given scale.
    pub fn new(field: &str, scale: &str) -> (r: Self)
        ensures
            r.field@ == field@,
            r.scale@ == scale@,
            r.origin is None,
            r.offset is None,
            r.decay is None,
    {
        DecayFunction {
            field: String::from_str(field),
            origin: None,
            scale: String::from_str(scale),
            offset: None,
            decay: None,
        }
    }

    /// Set the origin.
    pub fn origin(self, origin: JsonValue) -> (r: Self)
        ensures
            r == (DecayFunction { origin: Some(origin), ..self }),
    {
        DecayFunction { origin: Some(origin), ..self }
    }

    /// Set the offset.
    pub fn offset(self, offset: &str) -> (r: Self)
        ensures
            r.offset is Some,
            r.offset->0@ == offset@,
            r == (DecayFunction { offset: r.offset, ..self }),
    {
        DecayFunction { offset: Some(String::from_str(offset)), ..self }
    }

    /// Set the decay factor.
    pub fn decay(self, decay: JsonNum) -> (r: Self)
        ensures
            r == (DecayFunction { decay: Some(decay), ..self }),
    {
        DecayFunction { decay: Some(decay), ..self }
    }

    /// The `{field: {origin?, scale, offset?, decay?}}` object of this
    /// configuration.
    pub fn field_object(&self) -> (r: JsonValue)
        ensures
            r@ == JVal::Obj(seq![(self.field@, JVal::Obj(decay_fields_jv(*self)))]),
    {
        let mut fields = JsonObj::new();
        if let Some(origin) = &self.origin {
            fields.push_field("origin", origin.deep_clone());
        }
        fields.push_field("scale", JsonValue::Str(self.scale.clone()));
        if let Some(offset) = &self.offset {
            fields.push_field("offset", JsonValue::Str(offset.clone()));
        }
        if let Some(decay) = &self.decay {
            fields.push_field("decay", JsonValue::Num(*decay));
        }
        proof {
            assert(fields@ =~= decay_fields_jv(*self));
        }
        let mut obj = JsonObj::new();
        obj.push_field(self.field.as_str(), fields.finish());
        let r = obj.finish();
        proof {
            assert(r@ =~~= JVal::Obj(seq![(self.field@, JVal::Obj(decay_fields_jv(*self)))]));
        }
        r
    }
}

/// Field-value-factor scoring configuration.
#[derive(Debug)]
pub struct FieldValueFactor {
    pub field: String,
    pub factor: Option<JsonNum>,
    pub modifier: Option<String>,
    pub missing: Option<JsonNum>,
}

/// Fields of a field_value_factor object, in the fixed key order
/// field, factor, modifier, missing.
pub open spec fn fvf_fields_jv(v: FieldValueFactor) -> Seq<(Seq<char>, JVal)> {
    let ps = seq![("field"@, JVal::Str(v.field@))];
    let ps = if v.factor is Some {
        ps.push(("factor"@, JVal::Num(v.factor->0)))
    } else {
        ps
    };
    let ps = if v.modifier is Some {
        ps.push(("modifier"@, JVal::Str(v.modifier->0@)))
    } else {
        ps
    };
    if v.missing is Some {
        ps.push(("missing"@, JVal::Num(v.missing->0)))
    } else {
        ps
    }
}

impl FieldValueFactor {
    /// A field-value-factor configuration on `field`.
    pub fn new(field: &str) -> (r: Self)
        ensures
            r.field@ == field@,
            r.factor is None,
            r.modifier is None,
            r.missing is None,
    {
        FieldValueFactor {
            field: String::from_str(field),
            factor: None,
            modifier: None,
            missing: None,
        }
    }

    /// Set the factor.
    pub fn factor(self, factor: JsonNum) -> (r: Self)
        ensures
            r == (FieldValueFactor { factor: Some(factor), ..self }),
    {
        FieldValueFactor { factor: Some(factor), ..self }
    }

    /// Set the modifier.
    pub fn modifier(self, modifier: &str) -> (r: Self)
        ensures
            r.modifier is Some,
            r.modifier->0@ == modifier@,
            r == (FieldValueFactor { modifier: r.modifier, ..self }),
    {
        FieldValueFactor { modifier: Some(String::from_str(modifier)), ..self }
    }

    /// Set the value used for documents missing the field.
    pub fn missing(self, missing: JsonNum) -> (r: Self)
        ensures
            r == (FieldValueFactor { missing: Some(missing), ..self }),
    {
        FieldValueFactor { missing: Some(missing), ..self }
    }
}

/// Random-score configuration; both fields are optional.
#[derive(Debug)]
pub struct RandomScore {
    pub seed: Option<JsonValue>,
    pub field: Option<String>,
}

/// Fields of a random_score object, in the fixed key order seed, field; an
/// empty object is valid.
pub open spec fn random_score_fields_jv(s: RandomScore) -> Seq<(Seq<char>, JVal)> {
    let ps = Seq::<(Seq<char>, JVal)>::empty();
    let ps = if s.seed is Some {
        ps.push(("seed"@, s.seed->0@))
    } else {
        ps
    };
    if s.field is Some {
        ps.push(("field"@, JVal::Str(s.field->0@)))
    } else {
        ps
    }
}

impl RandomScore {
    /// A random-score configuration with nothing set.
    pub fn new() -> (r: Self)
        ensures
            r.seed is None,
            r.field is None,
    {
        RandomScore { seed: None, field: None }
    }

    /// Set the seed.
    pub fn seed(self, seed: JsonValue) -> (r: Self)
        ensures
            r == (RandomScore { seed: Some(seed), ..self }),
    {
        RandomScore { seed: Some(seed), ..self }
    }

    /// Set the field the random value is derived from.
    pub fn field(self, field: &str) -> (r: Self)
        ensures
            r.field is Some,
            r.field->0@ == field@,
            r == (RandomScore { field: r.field, ..self }),
    {
        RandomScore { field: Some(String::from_str(field)), ..self }
    }
}

/// Script-score configuration: a script source and optional parameters.
#[derive(Debug)]
pub struct ScriptScore {
    pub source: String,
    pub params: Option<JsonValue>,
}

/// Fields of the inner script object, in the fixed key order source, params.
pub open spec fn script_score_fields_jv(s: ScriptScore) -> Seq<(Seq<char>, JVal)> {
    let ps = seq![("source"@, JVal::Str(s.source@))];
    if s.params is Some {
        ps.push(("params"@, s.params->0@))
    } else {
        ps
    }
}

impl ScriptScore {
    /// A script-score configuration with the given source.
    pub fn new(source: &str) -> (r: Self)
        ensures
            r.source@ == source@,
            r.params is None,
    {
        ScriptScore { source: String::from_str(source), params: None }
    }

    /// Set the parameters.
    pub fn params(self, params: JsonValue) -> (r: Self)
        ensures
            r == (ScriptScore { params: Some(params), ..self }),
    {
        ScriptScore { params: Some(params), ..self }
    }
}

/// The kind of scoring function; `Weight` carries only a number and emits no
/// function-type key of its own.
#[derive(Debug)]
pub enum ScoreFunctionType {
    Gauss(DecayFunction),
    Exp(DecayFunction),
    Linear(DecayFunction),
    FieldValueFactor(FieldValueFactor),
    RandomScore(RandomScore),
    ScriptScore(ScriptScore),
    Weight(JsonNum),
}

/// The function-type fields a scoring function contributes: one key named
/// after the kind, or none at all for `Weight`.
pub open spec fn function_type_pairs_jv(t: ScoreFunctionType) -> Seq<(Seq<char>, JVal)> {
    match t {
        ScoreFunctionType::Gauss(d) => seq![
            ("gauss"@, JVal::Obj(seq![(d.field@, JVal::Obj(decay_fields_jv(d)))])),
        ],
        ScoreFunctionType::Exp(d) => seq![
            ("exp"@, JVal::Obj(seq![(d.field@, JVal::Obj(decay_fields_jv(d)))])),
        ],
        ScoreFunctionType::Linear(d) => seq![
            ("linear"@, JVal::Obj(seq![(d.field@, JVal::Obj(decay_fields_jv(d)))])),
        ],
        ScoreFunctionType::FieldValueFactor(v) => seq![
            ("field_value_factor"@, JVal::Obj(fvf_fields_jv(v))),
        ],
        ScoreFunctionType::RandomScore(s) => seq![
            ("random_score"@, JVal::Obj(random_score_fields_jv(s))),
        ],
        ScoreFunctionType::ScriptScore(s) => seq![
            ("script_score"@, JVal::Obj(seq![("script"@, JVal::Obj(script_score_fields_jv(s)))])),
        ],
        ScoreFunctionType::Weight(_) => Seq::empty(),
    }
}

/// One scoring function: its kind, an optional filter gating it, and an
/// optional weight.
#[derive(Debug)]
pub struct ScoreFunction {
    pub function: ScoreFunctionType,
    pub filter: Option<Box<QueryType>>,
    pub weight: Option<JsonNum>,
}

/// Fields of a scoring-function object: the function-type key first, then
/// `filter`, then `weight`, each only if present.
pub open spec fn score_function_body_jv(sf: ScoreFunction) -> Seq<(Seq<char>, JVal)>
    decreases sf, 0int,
{
    let ps = function_type_pairs_jv(sf.function);
    let ps = if sf.filter is Some {
        ps.push(("filter"@, query_jv(*sf.filter->0)))
    } else {
        ps
    };
    if sf.weight is Some {
        ps.push(("weight"@, JVal::Num(sf.weight->0)))
    } else {
        ps
    }
}

/// Wire shape of a scoring function.
pub open spec fn score_function_jv(sf: ScoreFunction) -> JVal
    decreases sf, 1int,
{
    JVal::Obj(score_function_body_jv(sf))
}

/// Ghost images of a sequence of scoring functions, in order.
pub open spec fn score_functions_jv(fs: Seq<ScoreFunction>) -> Seq<JVal>
    decreases fs, 0int,
{
    if fs.len() == 0 {
        Seq::empty()
    } else {
        score_functions_jv(fs.subrange(0, fs.len() - 1)).push(
            score_function_jv(fs[fs.len() - 1]),
        )
    }
}

/// Appending a function on the right extends the output on the right.
pub proof fn lemma_score_functions_jv_push(fs: Seq<ScoreFunction>, f: ScoreFunction)
    ensures
        score_functions_jv(fs.push(f)) == score_functions_jv(fs).push(score_function_jv(f)),
{
    let t = fs.push(f);
    assert(t.subrange(0, t.len() - 1) =~= fs);
    assert(t[t.len() - 1] == f);
}

/// The serialized functions array keeps the insertion order of the function
/// list.
pub proof fn lemma_score_functions_output_order(fs: Seq<ScoreFunction>)
    ensures
        score_functions_jv(fs).len() == fs.len(),
        forall|i: int| 0 <= i < fs.len() ==> score_functions_jv(fs)[i] == score_function_jv(
            fs[i],
        ),
    decreases fs,
{
    if fs.len() > 0 {
        lemma_score_functions_output_order(fs.subrange(0, fs.len() - 1));
        assert(forall|i: int|
            0 <= i < fs.len() - 1 ==> fs.subrange(0, fs.len() - 1)[i] == fs[i]);
    }
}

impl ScoreFunction {
    /// A gauss decay function on `field` with the given scale.
    pub fn gauss(field: &str, scale: &str) -> (r: Self)
        ensures
            r.function matches ScoreFunctionType::Gauss(d) && d.field@ == field@ && d.scale@
                == scale@ && d.origin is None && d.offset is None && d.decay is None,
            r.filter is None,
            r.weight is None,
    {
        ScoreFunction {
            function: ScoreFunctionType::Gauss(DecayFunction::new(field, scale)),
            filter: None,
            weight: None,
        }
    }

    /// An exponential decay function on `field` with the given scale.
    pub fn exp(field: &str, scale: &str) -> (r: Self)
        ensures
            r.function matches ScoreFunctionType::Exp(d) && d.field@ == field@ && d.scale@
                == scale@ && d.origin is None && d.offset is None && d.decay is None,
            r.filter is None,
            r.weight is None,
    {
        ScoreFunction {
            function: ScoreFunctionType::Exp(DecayFunction::new(field, scale)),
            filter: None,
            weight: None,
        }
    }

    /// A linear decay function on `field` with the given scale.
    pub fn linear(field: &str, scale: &str) -> (r: Self)
        ensures
            r.function matches ScoreFunctionType::Linear(d) && d.field@ == field@ && d.scale@
                == scale@ && d.origin is None && d.offset is None && d.decay is None,
            r.filter is None,
            r.weight is None,
    {
        ScoreFunction {
            function: ScoreFunctionType::Linear(DecayFunction::new(field, scale)),
            filter: None,
            weight: None,
        }
    }

    /// A field-value-factor function on `field`.
    pub fn field_value_factor(field: &str) -> (r: Self)
        ensures
            r.function matches ScoreFunctionType::FieldValueFactor(v) && v.field@ == field@
                && v.factor is None && v.modifier is None && v.missing is None,
            r.filter is None,
            r.weight is None,
    {
        ScoreFunction {
            function: ScoreFunctionType::FieldValueFactor(FieldValueFactor::new(field)),
            filter: None,
            weight: None,
        }
    }

    /// A random-score function with nothing set.
    pub fn random_score() -> (r: Self)
        ensures
            r.function matches ScoreFunctionType::RandomScore(s) && s.seed is None && s.field
                is None,
            r.filter is None,
            r.weight is None,
    {
        ScoreFunction {
            function: ScoreFunctionType::RandomScore(RandomScore::new()),
            filter: None,
            weight: None,
        }
    }

    /// A script-score function with the given source.
    pub fn script_score(source: &str) -> (r: Self)
        ensures
            r.function matches ScoreFunctionType::ScriptScore(s) && s.source@ == source@
                && s.params is None,
            r.filter is None,
            r.weight is None,
    {
        ScoreFunction {
            function: ScoreFunctionType::ScriptScore(ScriptScore::new(source)),
            filter: None,
            weight: None,
        }
    }

    /// A weight-only function: no function-type key, and the weight itself
    /// set.
    pub fn weight_only(weight: JsonNum) -> (r: Self)
        ensures
            r.function == ScoreFunctionType::Weight(weight),
            r.filter is None,
            r.weight == Some(weight),
    {
        ScoreFunction {
            function: ScoreFunctionType::Weight(weight),
            filter: None,
            weight: Some(weight),
        }
    }

    /// Gate this function with a filter query.
    pub fn filter(self, filter: QueryType) -> (r: Self)
        ensures
            r.function == self.function,
            r.filter is Some,
            *r.filter->0 == filter,
            r.weight == self.weight,
    {
        ScoreFunction { filter: Some(Box::new(filter)), ..self }
    }

    /// Set the weight.
    pub fn weight(self, weight: JsonNum) -> (r: Self)
        ensures
            r == (ScoreFunction { weight: Some(weight), ..self }),
    {
        ScoreFunction { weight: Some(weight), ..self }
    }

    /// Set the origin of a decay function; other kinds are left unchanged.
    pub fn origin(self, origin: JsonValue) -> (r: Self)
        ensures
            self.function matches ScoreFunctionType::Gauss(d) ==> r == (ScoreFunction {
                function: ScoreFunctionType::Gauss(DecayFunction { origin: Some(origin), ..d }),
                ..self
            }),
            self.function matches ScoreFunctionType::Exp(d) ==> r == (ScoreFunction {
                function: ScoreFunctionType::Exp(DecayFunction { origin: Some(origin), ..d }),
                ..self
            }),
            self.function matches ScoreFunctionType::Linear(d) ==> r == (ScoreFunction {
                function: ScoreFunctionType::Linear(DecayFunction { origin: Some(origin), ..d }),
                ..self
            }),
            !(self.function matches ScoreFunctionType::Gauss(_)) && !(self.function
                matches ScoreFunctionType::Exp(_)) && !(self.function
                matches ScoreFunctionType::Linear(_)) ==> r == self,
    {
        match self.function {
            ScoreFunctionType::Gauss(d) => ScoreFunction {
                function: ScoreFunctionType::Gauss(d.origin(origin)),
                ..self
            },
            ScoreFunctionType::Exp(d) => ScoreFunction {
                function: ScoreFunctionType::Exp(d.origin(origin)),
                ..self
            },
            ScoreFunctionType::Linear(d) => ScoreFunction {
                function: ScoreFunctionType::Linear(d.origin(origin)),
                ..self
            },
            f => ScoreFunction { function: f, ..self },
        }
    }

    /// Set the offset of a decay function; other kinds are left unchanged.
    pub fn offset(self, offset: &str) -> (r: Self)
        ensures
            self.function matches ScoreFunctionType::Gauss(d) ==> r.function
                matches ScoreFunctionType::Gauss(d2) && d2.offset is Some && d2.offset->0@
                == offset@ && d2 == (DecayFunction { offset: d2.offset, ..d }),
            self.function matches ScoreFunctionType::Exp(d) ==> r.function
                matches ScoreFunctionType::Exp(d2) && d2.offset is Some && d2.offset->0@
                == offset@ && d2 == (DecayFunction { offset: d2.offset, ..d }),
            self.function matches ScoreFunctionType::Linear(d) ==> r.function
                matches ScoreFunctionType::Linear(d2) && d2.offset is Some && d2.offset->0@
                == offset@ && d2 == (DecayFunction { offset: d2.offset, ..d }),
            !(self.function matches ScoreFunctionType::Gauss(_)) && !(self.function
                matches ScoreFunctionType::Exp(_)) && !(self.function
                matches ScoreFunctionType::Linear(_)) ==> r == self,
            r.filter == self.filter,
            r.weight == self.weight,
    {
        match self.function {
            ScoreFunctionType::Gauss(d) => ScoreFunction {
                function: ScoreFunctionType::Gauss(d.offset(offset)),
                ..self
            },
            ScoreFunctionType::Exp(d) => ScoreFunction {
                function: ScoreFunctionType::Exp(d.offset(offset)),
                ..self
            },
            ScoreFunctionType::Linear(d) => ScoreFunction {
                function: ScoreFunctionType::Linear(d.offset(offset)),
                ..self
            },
            f => ScoreFunction { function: f, ..self },
        }
    }

    /// Set the decay factor of a decay function; other kinds are left
    /// unchanged.
    pub fn decay(self, decay: JsonNum) -> (r: Self)
        ensures
            self.function matches ScoreFunctionType::Gauss(d) ==> r == (ScoreFunction {
                function: ScoreFunctionType::Gauss(DecayFunction { decay: Some(decay), ..d }),
                ..self
            }),
            self.function matches ScoreFunctionType::Exp(d) ==> r == (ScoreFunction {
                function: ScoreFunctionType::Exp(DecayFunction { decay: Some(decay), ..d }),
                ..self
            }),
            self.function matches ScoreFunctionType::Linear(d) ==> r == (ScoreFunction {
                function: ScoreFunctionType::Linear(DecayFunction { decay: Some(decay), ..d }),
                ..self
            }),
            !(self.function matches ScoreFunctionType::Gauss(_)) && !(self.function
                matches ScoreFunctionType::Exp(_)) && !(self.function
                matches ScoreFunctionType::Linear(_)) ==> r == self,
    {
        match self.function {
            ScoreFunctionType::Gauss(d) => ScoreFunction {
                function: ScoreFunctionType::Gauss(d.decay(decay)),
                ..self
            },
            ScoreFunctionType::Exp(d) => ScoreFunction {
                function: ScoreFunctionType::Exp(d.decay(decay)),
                ..self
            },
            ScoreFunctionType::Linear(d) => ScoreFunction {
                function: ScoreFunctionType::Linear(d.decay(decay)),
                ..self
            },
            f => ScoreFunction { function: f, ..self },
        }
    }

    /// Set the factor of a field-value-factor function; other kinds are left
    /// unchanged.
    pub fn factor(self, factor: JsonNum) -> (r: Self)
        ensures
            self.function matches ScoreFunctionType::FieldValueFactor(v) ==> r == (ScoreFunction {
                function: ScoreFunctionType::FieldValueFactor(
                    FieldValueFactor { factor: Some(factor), ..v },
                ),
                ..self
            }),
            !(self.function matches ScoreFunctionType::FieldValueFactor(_)) ==> r == self,
    {
        match self.function {
            ScoreFunctionType::FieldValueFactor(v) => ScoreFunction {
                function: ScoreFunctionType::FieldValueFactor(v.factor(factor)),
                ..self
            },
            f => ScoreFunction { function: f, ..self },
        }
    }

    /// Set the modifier of a field-value-factor function; other kinds are
    /// left unchanged.
    pub fn modifier(self, modifier: &str) -> (r: Self)
        ensures
            self.function matches ScoreFunctionType::FieldValueFactor(v) ==> r.function
                matches ScoreFunctionType::FieldValueFactor(v2) && v2.modifier is Some
                && v2.modifier->0@ == modifier@ && v2 == (FieldValueFactor {
                modifier: v2.modifier,
                ..v
            }),
            !(self.function matches ScoreFunctionType::FieldValueFactor(_)) ==> r == self,
            r.filter == self.filter,
            r.weight == self.weight,
    {
        match self.function {
            ScoreFunctionType::FieldValueFactor(v) => ScoreFunction {
                function: ScoreFunctionType::FieldValueFactor(v.modifier(modifier)),
                ..self
            },
            f => ScoreFunction { function: f, ..self },
        }
    }

    /// Set the missing value of a field-value-factor function; other kinds
    /// are left unchanged.
    pub fn missing(self, missing: JsonNum) -> (r: Self)
        ensures
            self.function matches ScoreFunctionType::FieldValueFactor(v) ==> r == (ScoreFunction {
                function: ScoreFunctionType::FieldValueFactor(
                    FieldValueFactor { missing: Some(missing), ..v },
                ),
                ..self
            }),
            !(self.function matches ScoreFunctionType::FieldValueFactor(_)) ==> r == self,
    {
        match self.function {
            ScoreFunctionType::FieldValueFactor(v) => ScoreFunction {
                function: ScoreFunctionType::FieldValueFactor(v.missing(missing)),
                ..self
            },
            f => ScoreFunction { function: f, ..self },
        }
    }

    /// Set the seed of a random-score function; other kinds are left
    /// unchanged.
    pub fn seed(self, seed: JsonValue) -> (r: Self)
        ensures
            self.function matches ScoreFunctionType::RandomScore(s) ==> r == (ScoreFunction {
                function: ScoreFunctionType::RandomScore(RandomScore { seed: Some(seed), ..s }),
                ..self
            }),
            !(self.function matches ScoreFunctionType::RandomScore(_)) ==> r == self,
    {
        match self.function {
            ScoreFunctionType::RandomScore(s) => ScoreFunction {
                function: ScoreFunctionType::RandomScore(s.seed(seed)),
                ..self
            },
            f => ScoreFunction { function: f, ..self },
        }
    }

    /// Set the field of a random-score function; other kinds are left
    /// unchanged.
    pub fn field(self, field: &str) -> (r: Self)
        ensures
            self.function matches ScoreFunctionType::RandomScore(s) ==> r.function
                matches ScoreFunctionType::RandomScore(s2) && s2.field is Some && s2.field->0@
                == field@ && s2 == (RandomScore { field: s2.field, ..s }),
            !(self.function matches ScoreFunctionType::RandomScore(_)) ==> r == self,
            r.filter == self.filter,
            r.weight == self.weight,
    {
        match self.function {
            ScoreFunctionType::RandomScore(s) => ScoreFunction {
                function: ScoreFunctionType::RandomScore(s.field(field)),
                ..self
            },
            f => ScoreFunction { function: f, ..self },
        }
    }

    /// Set the parameters of a script-score function; other kinds are left
    /// unchanged.
    pub fn params(self, params: JsonValue) -> (r: Self)
        ensures
            self.function matches ScoreFunctionType::ScriptScore(s) ==> r == (ScoreFunction {
                function: ScoreFunctionType::ScriptScore(ScriptScore { params: Some(params), ..s }),
                ..self
            }),
            !(self.function matches ScoreFunctionType::ScriptScore(_)) ==> r == self,
    {
        match self.function {
            ScoreFunctionType::ScriptScore(s) => ScoreFunction {
                function: ScoreFunctionType::ScriptScore(s.params(params)),
                ..self
            },
            f => ScoreFunction { function: f, ..self },
        }
    }

    /// Project this scoring function onto its wire shape.
    pub fn to_json(&self) -> (r: JsonValue)
        ensures
            r@ == score_function_jv(*self),
        decreases *self,
    {
        let mut obj = JsonObj::new();
        match &self.function {
            ScoreFunctionType::Gauss(d) => {
                obj.push_field("gauss", d.field_object());
            },
            ScoreFunctionType::Exp(d) => {
                obj.push_field("exp", d.field_object());
            },
            ScoreFunctionType::Linear(d) => {
                obj.push_field("linear", d.field_object());
            },
            ScoreFunctionType::FieldValueFactor(v) => {
                let mut fvf_obj = JsonObj::new();
                fvf_obj.push_field("field", JsonValue::Str(v.field.clone()));
                if let Some(factor) = &v.factor {
                    fvf_obj.push_field("factor", JsonValue::Num(*factor));
                }
                if let Some(modifier) = &v.modifier {
                    fvf_obj.push_field("modifier", JsonValue::Str(modifier.clone()));
                }
                if let Some(missing) = &v.missing {
                    fvf_obj.push_field("missing", JsonValue::Num(*missing));
                }
                proof {
                    assert(fvf_obj@ =~= fvf_fields_jv(*v));
                }
                obj.push_field("field_value_factor", fvf_obj.finish());
            },
            ScoreFunctionType::RandomScore(s) => {
                let mut rs_obj = JsonObj::new();
                if let Some(seed) = &s.seed {
                    rs_obj.push_field("seed", seed.deep_clone());
                }
                if let Some(field) = &s.field {
                    rs_obj.push_field("field", JsonValue::Str(field.clone()));
                }
                proof {
                    assert(rs_obj@ =~= random_score_fields_jv(*s));
                }
                obj.push_field("random_score", rs_obj.finish());
            },
            ScoreFunctionType::ScriptScore(s) => {
                let mut script_obj = JsonObj::new();
                script_obj.push_field("source", JsonValue::Str(s.source.clone()));
                if let Some(params) = &s.params {
                    script_obj.push_field("params", params.deep_clone());
                }
                proof {
                    assert(script_obj@ =~= script_score_fields_jv(*s));
                }
                let mut ss_obj = JsonObj::new();
                ss_obj.push_field("script", script_obj.finish());
                obj.push_field("script_score", ss_obj.finish());
            },
            ScoreFunctionType::Weight(_) => {},
        }
        proof {
            assert(obj@ =~= function_type_pairs_jv(self.function));
        }
        if let Some(filter) = &self.filter {
            proof {
                assert(decreases_to!(*self => self.filter));
                assert(decreases_to!(self.filter => *self.filter->0));
            }
            obj.push_field("filter", filter.to_json());
        }
        if let Some(weight) = &self.weight {
            obj.push_field("weight", JsonValue::Num(*weight));
        }
        proof {
            assert(obj@ =~= score_function_body_jv(*self));
        }
        let r = obj.finish();
        proof {
            assert(r@ =~~= score_function_jv(*self));
        }
        r
    }
}

/// Function-score query: an optional base query, an ordered list of scoring
/// functions, and optional combination knobs.
#[derive(Debug)]
pub struct FunctionScoreQuery {
    pub query: Option<Box<QueryType>>,
    pub functions: Vec<ScoreFunction>,
    pub score_mode: Option<ScoreMode>,
    pub boost_mode: Option<BoostMode>,
    pub max_boost: Option<JsonNum>,
    pub boost: Option<JsonNum>,
    pub min_score: Option<JsonNum>,
}

/// Fields of the function_score object, in the fixed key order
/// query, functions, score_mode, boost_mode, max_boost, boost, min_score;
/// `functions` is omitted when the list is empty.
pub open spec fn function_score_body_jv(f: FunctionScoreQuery) -> Seq<(Seq<char>, JVal)>
    decreases f, 0int,
{
    let ps = Seq::<(Seq<char>, JVal)>::empty();
    let ps = if f.query is Some {
        ps.push(("query"@, query_jv(*f.query->0)))
    } else {
        ps
    };
    let ps = if f.functions@.len() > 0 {
        ps.push(("functions"@, JVal::Arr(score_functions_jv(f.functions@))))
    } else {
        ps
    };
    let ps = if f.score_mode is Some {
        ps.push(("score_mode"@, JVal::Str(score_mode_chars(f.score_mode->0))))
    } else {
        ps
    };
    let ps = if f.boost_mode is Some {
        ps.push(("boost_mode"@, JVal::Str(boost_mode_chars(f.boost_mode->0))))
    } else {
        ps
    };
    let ps = if f.max_boost is Some {
        ps.push(("max_boost"@, JVal::Num(f.max_boost->0)))
    } else {
        ps
    };
    let ps = if f.boost is Some {
        ps.push(("boost"@, JVal::Num(f.boost->0)))
    } else {
        ps
    };
    if f.min_score is Some {
        ps.push(("min_score"@, JVal::Num(f.min_score->0)))
    } else {
        ps
    }
}

/// Wire shape of a function-score query:
/// `{"function_score": {fields...}}`.
pub open spec fn function_score_jv(f: FunctionScoreQuery) -> JVal
    decreases f, 1int,
{
    JVal::Obj(seq![("function_score"@, JVal::Obj(function_score_body_jv(f)))])
}

/// An empty functions list is entirely absent from the output, never present
/// as an empty array.
pub proof fn lemma_function_score_omits_empty_functions(f: FunctionScoreQuery)
    ensures
        f.functions@.len() == 0 ==> forall|j: int|
            0 <= j < function_score_body_jv(f).len() ==> function_score_body_jv(f)[j].0
                != "functions"@,
{
    reveal_strlit("query");
    reveal_strlit("functions");
    reveal_strlit("score_mode");
    reveal_strlit("boost_mode");
    reveal_strlit("max_boost");
    reveal_strlit("boost");
    reveal_strlit("min_score");
    assert("functions"@[0] == 'f' && "max_boost"@[0] == 'm' && "min_score"@[0] == 'm');
    assert("functions"@ != "max_boost"@ && "functions"@ != "min_score"@);
    if f.functions@.len() == 0 {
        assert forall|j: int| 0 <= j < function_score_body_jv(f).len() implies
            function_score_body_jv(f)[j].0 != "functions"@ by {
            let ps = function_score_body_jv(f);
            assert(ps[j].0 == "query"@ || ps[j].0 == "score_mode"@ || ps[j].0 == "boost_mode"@
                || ps[j].0 == "max_boost"@ || ps[j].0 == "boost"@ || ps[j].0 == "min_score"@);
        }
    }
}

impl FunctionScoreQuery {
    /// A function-score query with nothing set.
    pub fn new() -> (r: Self)
        ensures
            r.query is None,
            r.functions@ =~= Seq::<ScoreFunction>::empty(),
            r.score_mode is None,
            r.boost_mode is None,
            r.max_boost is None,
            r.boost is None,
            r.min_score is None,
    {
        FunctionScoreQuery {
            query: None,
            functions: Vec::new(),
            score_mode: None,
            boost_mode: None,
            max_boost: None,
            boost: None,
            min_score: None,
        }
    }

    /// Set the base query to score.
    pub fn query(self, query: QueryType) -> (r: Self)
        ensures
            r.query is Some,
            *r.query->0 == query,
            r.functions == self.functions,
            r.score_mode == self.score_mode,
            r.boost_mode == self.boost_mode,
            r.max_boost == self.max_boost,
            r.boost == self.boost,
            r.min_score == self.min_score,
    {
        FunctionScoreQuery { query: Some(Box::new(query)), ..self }
    }

    /// Append a scoring function; functions keep their insertion order.
    pub fn function(self, function: ScoreFunction) -> (r: Self)
        ensures
            r.functions@ == self.functions@.push(function),
            r.query == self.query,
            r.score_mode == self.score_mode,
            r.boost_mode == self.boost_mode,
            r.max_boost == self.max_boost,
            r.boost == self.boost,
            r.min_score == self.min_score,
    {
        let mut s = self;
        s.functions.push(function);
        s
    }

    /// Set the score mode.
    pub fn score_mode(self, score_mode: ScoreMode) -> (r: Self)
        ensures
            r == (FunctionScoreQuery { score_mode: Some(score_mode), ..self }),
    {
        FunctionScoreQuery { score_mode: Some(score_mode), ..self }
    }

    /// Set the boost mode.
    pub fn boost_mode(self, boost_mode: BoostMode) -> (r: Self)
        ensures
            r == (FunctionScoreQuery { boost_mode: Some(boost_mode), ..self }),
    {
        FunctionScoreQuery { boost_mode: Some(boost_mode), ..self }
    }

    /// Set the maximum boost.
    pub fn max_boost(self, max_boost: JsonNum) -> (r: Self)
        ensures
            r == (FunctionScoreQuery { max_boost: Some(max_boost), ..self }),
    {
        FunctionScoreQuery { max_boost: Some(max_boost), ..self }
    }

    /// Set the boost.
    pub fn boost(self, boost: JsonNum) -> (r: Self)
        ensures
            r == (FunctionScoreQuery { boost: Some(boost), ..self }),
    {
        FunctionScoreQuery { boost: Some(boost), ..self }
    }

    /// Set the minimum score.
    pub fn min_score(self, min_score: JsonNum) -> (r: Self)
        ensures
            r == (FunctionScoreQuery { min_score: Some(min_score), ..self }),
    {
        FunctionScoreQuery { min_score: Some(min_score), ..self }
    }

    /// Project this query onto its wire shape.
    pub fn to_json(&self) -> (r: JsonValue)
        ensures
            r@ == function_score_jv(*self),
        decreases *self,
    {
        let mut obj = JsonObj::new();
        if let Some(query) = &self.query {
            proof {
                assert(decreases_to!(*self => self.query));
                assert(decreases_to!(self.query => *self.query->0));
            }
            obj.push_field("query", query.to_json());
        }
        if self.functions.len() > 0 {
            let mut arr: Vec<JsonValue> = Vec::new();
            let mut i: usize = 0;
            while i < self.functions.len()
                invariant
                    i <= self.functions@.len(),
                    crate::json::jvals_of(arr@) =~= score_functions_jv(
                        self.functions@.subrange(0, i as int),
                    ),
                decreases self.functions@.len() - i,
            {
                proof {
                    assert(decreases_to!(*self => self.functions));
                    assert(decreases_to!(self.functions => self.functions@[i as int]));
                }
                let v = self.functions[i].to_json();
                proof {
                    crate::json::lemma_jvals_of_push(arr@, v);
                    lemma_score_functions_jv_push(
                        self.functions@.subrange(0, i as int),
                        self.functions@[i as int],
                    );
                    assert(self.functions@.subrange(0, i + 1 as int)
                        =~= self.functions@.subrange(0, i as int).push(
                        self.functions@[i as int],
                    ));
                }
                arr.push(v);
                i += 1;
            }
            proof {
                assert(self.functions@.subrange(0, self.functions@.len() as int)
                    =~= self.functions@);
            }
            obj.push_field("functions", JsonValue::Arr(arr));
        }
        if let Some(score_mode) = &self.score_mode {
            obj.push_field("score_mode", JsonValue::Str(score_mode.token()));
        }
        if let Some(boost_mode) = &self.boost_mode {
            obj.push_field("boost_mode", JsonValue::Str(boost_mode.token()));
        }
        if let Some(max_boost) = &self.max_boost {
            obj.push_field("max_boost", JsonValue::Num(*max_boost));
        }
        if let Some(boost) = &self.boost {
            obj.push_field("boost", JsonValue::Num(*boost));
        }
        if let Some(min_score) = &self.min_score {
            obj.push_field("min_score", JsonValue::Num(*min_score));
        }
        proof {
            assert(obj@ =~= function_score_body_jv(*self));
        }
        let mut root = JsonObj::new();
        root.push_field("function_score", obj.finish());
        let r = root.finish();
        proof {
            assert(r@ =~~= function_score_jv(*self));
        }
        r
    }
}

/// Incremental builder for a function-score query: mutating methods that can
/// be called repeatedly and conditionally before a terminal `build`.
#[derive(Debug)]
pub struct FunctionScoreQueryBuilder {
    inner: FunctionScoreQuery,
}

impl FunctionScoreQueryBuilder {
    /// The function-score query this builder has accumulated so far.
    pub closed spec fn inner_spec(&self) -> FunctionScoreQuery {
        self.inner
    }

    /// A builder holding an all-default function-score query.
    pub fn new() -> (r: Self)
        ensures
            r.inner_spec().query is None,
            r.inner_spec().functions@ =~= Seq::<ScoreFunction>::empty(),
            r.inner_spec().score_mode is None,
            r.inner_spec().boost_mode is None,
            r.inner_spec().max_boost is None,
            r.inner_spec().boost is None,
            r.inner_spec().min_score is None,
    {
        FunctionScoreQueryBuilder { inner: FunctionScoreQuery::new() }
    }

    /// Set the base query to score.
    pub fn query(&mut self, query: QueryType) -> (ret: &mut Self)
        ensures
            ret.inner_spec().query is Some,
            *ret.inner_spec().query->0 == query,
            ret.inner_spec() == (FunctionScoreQuery {
                query: ret.inner_spec().query,
                ..old(self).inner_spec()
            }),
            *final(self) == *final(ret),
    {
        let mut inner = FunctionScoreQuery::new();
        core::mem::swap(&mut inner, &mut self.inner);
        self.inner = inner.query(query);
        self
    }

    /// Append a scoring function.
    pub fn function(&mut self, function: ScoreFunction) -> (ret: &mut Self)
        ensures
            ret.inner_spec().functions@ == old(self).inner_spec().functions@.push(function),
            ret.inner_spec() == (FunctionScoreQuery {
                functions: ret.inner_spec().functions,
                ..old(self).inner_spec()
            }),
            *final(self) == *final(ret),
    {
        let mut inner = FunctionScoreQuery::new();
        core::mem::swap(&mut inner, &mut self.inner);
        self.inner = inner.function(function);
        self
    }

    /// Set the score mode.
    pub fn score_mode(&mut self, score_mode: ScoreMode) -> (ret: &mut Self)
        ensures
            ret.inner_spec() == (FunctionScoreQuery {
                score_mode: Some(score_mode),
                ..old(self).inner_spec()
            }),
            *final(self) == *final(ret),
    {
        let mut inner = FunctionScoreQuery::new();
        core::mem::swap(&mut inner, &mut self.inner);
        self.inner = inner.score_mode(score_mode);
        self
    }

    /// Set the boost mode.
    pub fn boost_mode(&mut self, boost_mode: BoostMode) -> (ret: &mut Self)
        ensures
            ret.inner_spec() == (FunctionScoreQuery {
                boost_mode: Some(boost_mode),
                ..old(self).inner_spec()
            }),
            *final(self) == *final(ret),
    {
        let mut inner = FunctionScoreQuery::new();
        core::mem::swap(&mut inner, &mut self.inner);
        self.inner = inner.boost_mode(boost_mode);
        self
    }

    /// Set the maximum boost.
    pub fn max_boost(&mut self, max_boost: JsonNum) -> (ret: &mut Self)
        ensures
            ret.inner_spec() == (FunctionScoreQuery {
                max_boost: Some(max_boost),
                ..old(self).inner_spec()
            }),
            *final(self) == *final(ret),
    {
        let mut inner = FunctionScoreQuery::new();
        core::mem::swap(&mut inner, &mut self.inner);
        self.inner = inner.max_boost(max_boost);
        self
    }

    /// Set the boost.
    pub fn boost(&mut self, boost: JsonNum) -> (ret: &mut Self)
        ensures
            ret.inner_spec() == (FunctionScoreQuery {
                boost: Some(boost),
                ..old(self).inner_spec()
            }),
            *final(self) == *final(ret),
    {
        let mut inner = FunctionScoreQuery::new();
        core::mem::swap(&mut inner, &mut self.inner);
        self.inner = inner.boost(boost);
        self
    }

    /// Set the minimum score.
    pub fn min_score(&mut self, min_score: JsonNum) -> (ret: &mut Self)
        ensures
            ret.inner_spec() == (FunctionScoreQuery {
                min_score: Some(min_score),
                ..old(self).inner_spec()
            }),
            *final(self) == *final(ret),
    {
        let mut inner = FunctionScoreQuery::new();
        core::mem::swap(&mut inner, &mut self.inner);
        self.inner = inner.min_score(min_score);
        self
    }

    /// Freeze the accumulated state into a function-score query variant,
    /// leaving the builder empty.
    pub fn build(&mut self) -> (r: QueryType)
        ensures
            r == QueryType::FunctionScore(old(self).inner_spec()),
    {
        let mut inner = FunctionScoreQuery::new();
        core::mem::swap(&mut inner, &mut self.inner);
        QueryType::FunctionScore(inner)
    }
}

} // verus!
