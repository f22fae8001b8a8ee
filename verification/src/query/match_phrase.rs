//! Match-phrase query: exact phrase match on one field.

use vstd::prelude::*;
use vstd::string::StringExecFns;
use crate::json::{JVal, JsonNum, JsonObj, JsonValue};

verus! {

/// Match-phrase query node: a required field and phrase, plus optional slop,
/// analyzer and boost.
#[derive(Debug)]
pub struct MatchPhraseQuery {
    pub field: String,
    pub query: String,
    pub slop: Option<u32>,
    pub analyzer: Option<String>,
    pub boost: Option<JsonNum>,
}

/// Whether any optional field is set, which forces the object form.
pub open spec fn match_phrase_has_options(q: MatchPhraseQuery) -> bool {
    q.slop is Some || q.analyzer is Some || q.boost is Some
}

/// Fields of the object form, in the fixed key order
/// query, analyzer, slop, boost.
pub open spec fn match_phrase_options_jv(q: MatchPhraseQuery) -> Seq<(Seq<char>, JVal)> {
    let ps = seq![("query"@, JVal::Str(q.query@))];
    let ps = if q.analyzer is Some {
        ps.push(("analyzer"@, JVal::Str(q.analyzer->0@)))
    } else {
        ps
    };
    let ps = if q.slop is Some {
        ps.push(("slop"@, JVal::Num(JsonNum::UInt(q.slop->0 as u64))))
    } else {
        ps
    };
    if q.boost is Some {
        ps.push(("boost"@, JVal::Num(q.boost->0)))
    } else {
        ps
    }
}

/// Simple form: `{"match_phrase": {field: "query"}}`.
pub open spec fn match_phrase_simple_jv(q: MatchPhraseQuery) -> JVal {
    JVal::Obj(seq![("match_phrase"@, JVal::Obj(seq![(q.field@, JVal::Str(q.query@))]))])
}

/// Object form: `{"match_phrase": {field: {"query": ..., options...}}}`.
pub open spec fn match_phrase_object_jv(q: MatchPhraseQuery) -> JVal {
    JVal::Obj(
        seq![
            ("match_phrase"@, JVal::Obj(seq![(q.field@, JVal::Obj(match_phrase_options_jv(q)))])),
        ],
    )
}

/// Wire shape of a match-phrase query: the object form exactly when an option
/// is set.
pub open spec fn match_phrase_jv(q: MatchPhraseQuery) -> JVal {
    if match_phrase_has_options(q) {
        match_phrase_object_jv(q)
    } else {
        match_phrase_simple_jv(q)
    }
}

/// A match-phrase query with no options serializes in the simple form;
/// setting any optional field switches it to the object form.
pub proof fn lemma_match_phrase_form_selection(q: MatchPhraseQuery)
    ensures
        !match_phrase_has_options(q) ==> match_phrase_jv(q) == match_phrase_simple_jv(q),
        match_phrase_has_options(q) ==> match_phrase_jv(q) == match_phrase_object_jv(q),
{
}

impl MatchPhraseQuery {
    /// A match-phrase query on `field` for `query`, with no options set.
    pub fn new(field: &str, query: &str) -> (r: Self)
        ensures
            r.field@ == field@,
            r.query@ == query@,
            r.slop is None,
            r.analyzer is None,
            r.boost is None,
    {
        MatchPhraseQuery {
            field: String::from_str(field),
            query: String::from_str(query),
            slop: None,
            analyzer: None,
            boost: None,
        }
    }

    /// Set the slop.
    pub fn slop(self, slop: u32) -> (r: Self)
        ensures
            r == (MatchPhraseQuery { slop: Some(slop), ..self }),
    {
        MatchPhraseQuery { slop: Some(slop), ..self }
    }

    /// Set the analyzer.
    pub fn analyzer(self, analyzer: &str) -> (r: Self)
        ensures
            r.analyzer is Some,
            r.analyzer->0@ == analyzer@,
            r == (MatchPhraseQuery { analyzer: r.analyzer, ..self }),
    {
        MatchPhraseQuery { analyzer: Some(String::from_str(analyzer)), ..self }
    }

    /// Set the boost.
    pub fn boost(self, boost: JsonNum) -> (r: Self)
        ensures
            r == (MatchPhraseQuery { boost: Some(boost), ..self }),
    {
        MatchPhraseQuery { boost: Some(boost), ..self }
    }

    /// Whether any optional field is set.
    pub fn has_options(&self) -> (r: bool)
        ensures
            r == match_phrase_has_options(*self),
    {
        self.slop.is_some() || self.analyzer.is_some() || self.boost.is_some()
    }

    /// Project this node onto its wire shape.
    pub fn to_json(&self) -> (r: JsonValue)
        ensures
            r@ == match_phrase_jv(*self),
    {
        let mut phrase_obj = JsonObj::new();
        if self.has_options() {
            let mut field_obj = JsonObj::new();
            field_obj.push_field("query", JsonValue::Str(self.query.clone()));
            if let Some(analyzer) = &self.analyzer {
                field_obj.push_field("analyzer", JsonValue::Str(analyzer.clone()));
            }
            if let Some(slop) = &self.slop {
                field_obj.push_field("slop", JsonValue::uint64(*slop as u64));
            }
            if let Some(b) = &self.boost {
                field_obj.push_field("boost", JsonValue::Num(*b));
            }
            proof {
                assert(field_obj@ =~= match_phrase_options_jv(*self));
            }
            phrase_obj.push_field(self.field.as_str(), field_obj.finish());
        } else {
            phrase_obj.push_field(self.field.as_str(), JsonValue::Str(self.query.clone()));
        }
        let mut root = JsonObj::new();
        root.push_field("match_phrase", phrase_obj.finish());
        let r = root.finish();
        proof {
            assert(r@ =~~= match_phrase_jv(*self));
        }
        r
    }
}

} // verus!
