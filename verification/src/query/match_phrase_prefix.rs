//! Match-phrase-prefix query: phrase match where the last term is a prefix.

use vstd::prelude::*;
use vstd::string::StringExecFns;
use crate::json::{JVal, JsonNum, JsonObj, JsonValue};

verus! {

/// Match-phrase-prefix query node: a required field and phrase, plus optional
/// max_expansions, slop and boost.
#[derive(Debug)]
pub struct MatchPhrasePrefixQuery {
    pub field: String,
    pub query: String,
    pub max_expansions: Option<u32>,
    pub slop: Option<u32>,
    pub boost: Option<JsonNum>,
}

/// Fields of the always-used object form, in the fixed key order
/// query, max_expansions, slop, boost.
pub open spec fn match_phrase_prefix_options_jv(
    q: MatchPhrasePrefixQuery,
) -> Seq<(Seq<char>, JVal)> {
    let ps = seq![("query"@, JVal::Str(q.query@))];
    let ps = if q.max_expansions is Some {
        ps.push(("max_expansions"@, JVal::Num(JsonNum::UInt(q.max_expansions->0 as u64))))
    } else {
        ps
    };
    let ps = if q.slop is Some {
        ps.push(("slop"@, JVal::Num(JsonNum::UInt(q.slop->0 as u64))))
    } else {
        ps
    };
    if q.boost is Some {
        ps.push(("boost"@, JVal::Num(q.boost->0)))
    } else {
        ps
    }
}

/// Wire shape of a match-phrase-prefix query: always the object form, with
/// `query` always present.
pub open spec fn match_phrase_prefix_jv(q: MatchPhrasePrefixQuery) -> JVal {
    JVal::Obj(
        seq![
            (
                "match_phrase_prefix"@,
                JVal::Obj(seq![(q.field@, JVal::Obj(match_phrase_prefix_options_jv(q)))]),
            ),
        ],
    )
}

impl MatchPhrasePrefixQuery {
    /// A match-phrase-prefix query on `field` for `query`, with no options
    /// set.
    pub fn new(field: &str, query: &str) -> (r: Self)
        ensures
            r.field@ == field@,
            r.query@ == query@,
            r.max_expansions is None,
            r.slop is None,
            r.boost is None,
    {
        MatchPhrasePrefixQuery {
            field: String::from_str(field),
            query: String::from_str(query),
            max_expansions: None,
            slop: None,
            boost: None,
        }
    }

    /// Set the maximum number of prefix expansions.
    pub fn max_expansions(self, max_expansions: u32) -> (r: Self)
        ensures
            r == (MatchPhrasePrefixQuery { max_expansions: Some(max_expansions), ..self }),
    {
        MatchPhrasePrefixQuery { max_expansions: Some(max_expansions), ..self }
    }

    /// Set the slop.
    pub fn slop(self, slop: u32) -> (r: Self)
        ensures
            r == (MatchPhrasePrefixQuery { slop: Some(slop), ..self }),
    {
        MatchPhrasePrefixQuery { slop: Some(slop), ..self }
    }

    /// Set the boost.
    pub fn boost(self, boost: JsonNum) -> (r: Self)
        ensures
            r == (MatchPhrasePrefixQuery { boost: Some(boost), ..self }),
    {
        MatchPhrasePrefixQuery { boost: Some(boost), ..self }
    }

    /// Project this node onto its wire shape.
    pub fn to_json(&self) -> (r: JsonValue)
        ensures
            r@ == match_phrase_prefix_jv(*self),
    {
        let mut field_obj = JsonObj::new();
        field_obj.push_field("query", JsonValue::Str(self.query.clone()));
        if let Some(max_expansions) = &self.max_expansions {
            field_obj.push_field("max_expansions", JsonValue::uint64(*max_expansions as u64));
        }
        if let Some(slop) = &self.slop {
            field_obj.push_field("slop", JsonValue::uint64(*slop as u64));
        }
        if let Some(b) = &self.boost {
            field_obj.push_field("boost", JsonValue::Num(*b));
        }
        proof {
            assert(field_obj@ =~= match_phrase_prefix_options_jv(*self));
        }
        let mut prefix_obj = JsonObj::new();
        prefix_obj.push_field(self.field.as_str(), field_obj.finish());
        let mut root = JsonObj::new();
        root.push_field("match_phrase_prefix", prefix_obj.finish());
        let r = root.finish();
        proof {
            assert(r@ =~~= match_phrase_prefix_jv(*self));
        }
        r
    }
}

} // verus!
