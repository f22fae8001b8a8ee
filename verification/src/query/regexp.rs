//! Regexp query: matches documents against a regular expression, with
//! optional engine flags joined into one `|`-separated token string.

use vstd::prelude::*;
use vstd::string::StringExecFns;
use crate::json::{JVal, JsonObj, JsonValue};

verus! {

/// Optional features of the regular-expression engine.
#[derive(Clone, Copy, Debug, PartialEq, Eq, Structural, Default)]
pub enum RegexpQueryFlags {
    /// Enables all optional features.
    All,
    /// Allows `@` to match any string.
    Anystring,
    /// Matches the complement of the language described by the pattern.
    Complement,
    /// Allows matching empty strings.
    Empty,
    /// Enables intersection of multiple patterns.
    Intersection,
    /// Enables interval arithmetic on character classes.
    Interval,
    /// Disables all optional features.
    #[default]
    NoOptional,
}

/// Canonical uppercase token of one flag.
pub open spec fn flag_chars(f: RegexpQueryFlags) -> Seq<char> {
    match f {
        RegexpQueryFlags::All => "ALL"@,
        RegexpQueryFlags::Anystring => "ANYSTRING"@,
        RegexpQueryFlags::Complement => "COMPLEMENT"@,
        RegexpQueryFlags::Empty => "EMPTY"@,
        RegexpQueryFlags::Intersection => "INTERSECTION"@,
        RegexpQueryFlags::Interval => "INTERVAL"@,
        RegexpQueryFlags::NoOptional => "NONE"@,
    }
}

/// The flags' tokens joined with `|`, in order.
pub open spec fn flags_joined(fs: Seq<RegexpQueryFlags>) -> Seq<char>
    decreases fs,
{
    if fs.len() == 0 {
        Seq::empty()
    } else if fs.len() == 1 {
        flag_chars(fs[0])
    } else {
        flags_joined(fs.subrange(0, fs.len() - 1)) + "|"@ + flag_chars(fs[fs.len() - 1])
    }
}

/// Joining one more flag appends a separator (when something precedes it)
/// and the flag's token.
pub proof fn lemma_flags_joined_push(fs: Seq<RegexpQueryFlags>, f: RegexpQueryFlags)
    ensures
        fs.len() == 0 ==> flags_joined(fs.push(f)) == flag_chars(f),
        fs.len() > 0 ==> flags_joined(fs.push(f)) == flags_joined(fs) + "|"@ + flag_chars(f),
{
    let t = fs.push(f);
    assert(t.subrange(0, t.len() - 1) =~= fs);
    assert(t[t.len() - 1] == f);
}

impl RegexpQueryFlags {
    /// The token of this flag.
    pub fn token(&self) -> (r: String)
        ensures
            r@ == flag_chars(*self),
    {
        match self {
            RegexpQueryFlags::All => String::from_str("ALL"),
            RegexpQueryFlags::Anystring => String::from_str("ANYSTRING"),
            RegexpQueryFlags::Complement => String::from_str("COMPLEMENT"),
            RegexpQueryFlags::Empty => String::from_str("EMPTY"),
            RegexpQueryFlags::Intersection => String::from_str("INTERSECTION"),
            RegexpQueryFlags::Interval => String::from_str("INTERVAL"),
            RegexpQueryFlags::NoOptional => String::from_str("NONE"),
        }
    }

    /// The flag list enabling every optional feature.
    pub fn all() -> (r: Vec<RegexpQueryFlags>)
        ensures
            r@ =~= seq![RegexpQueryFlags::All],
    {
        let mut v: Vec<RegexpQueryFlags> = Vec::new();
        v.push(RegexpQueryFlags::All);
        v
    }
}

/// Join the flags' tokens with `|`, in order.
pub fn join_flag_tokens(fs: &Vec<RegexpQueryFlags>) -> (r: String)
    ensures
        r@ == flags_joined(fs@),
{
    let mut out = String::new();
    let mut i: usize = 0;
    while i < fs.len()
        invariant
            i <= fs.len(),
            out@ =~= flags_joined(fs@.subrange(0, i as int)),
        decreases fs.len() - i,
    {
        if i > 0 {
            out.append("|");
        }
        let t = fs[i].token();
        out.append(t.as_str());
        proof {
            lemma_flags_joined_push(fs@.subrange(0, i as int), fs@[i as int]);
            assert(fs@.subrange(0, i + 1 as int) =~= fs@.subrange(0, i as int).push(
                fs@[i as int],
            ));
        }
        i += 1;
    }
    proof {
        assert(fs@.subrange(0, fs@.len() as int) =~= fs@);
    }
    out
}

/// Regexp query node: a required field and pattern, plus an optional flag
/// list.
#[derive(Debug)]
pub struct RegexpQuery {
    pub field: String,
    pub value: String,
    pub flags: Option<Vec<RegexpQueryFlags>>,
}

/// Fields of the per-field object: `value`, then `flags` only when the flag
/// list is present and non-empty.
pub open spec fn regexp_options_jv(q: RegexpQuery) -> Seq<(Seq<char>, JVal)> {
    let ps = seq![("value"@, JVal::Str(q.value@))];
    if q.flags is Some && q.flags->0@.len() > 0 {
        ps.push(("flags"@, JVal::Str(flags_joined(q.flags->0@))))
    } else {
        ps
    }
}

/// Wire shape of a regexp query: `{"regexp": {field: {"value": ..,
/// "flags"?: ..}}}`.
pub open spec fn regexp_query_jv(q: RegexpQuery) -> JVal {
    JVal::Obj(seq![("regexp"@, JVal::Obj(seq![(q.field@, JVal::Obj(regexp_options_jv(q)))]))])
}

impl RegexpQuery {
    /// A regexp query on `field` for the pattern `value`, with no flags.
    pub fn new(field: &str, value: &str) -> (r: Self)
        ensures
            r.field@ == field@,
            r.value@ == value@,
            r.flags is None,
    {
        RegexpQuery {
            field: String::from_str(field),
            value: String::from_str(value),
            flags: None,
        }
    }

    /// Set the flag list.
    pub fn flags(self, flags: Vec<RegexpQueryFlags>) -> (r: Self)
        ensures
            r == (RegexpQuery { flags: Some(flags), ..self }),
    {
        RegexpQuery { flags: Some(flags), ..self }
    }

    /// Project this node onto its wire shape.
    pub fn to_json(&self) -> (r: JsonValue)
        ensures
            r@ == regexp_query_jv(*self),
    {
        let mut field_obj = JsonObj::new();
        field_obj.push_field("value", JsonValue::Str(self.value.clone()));
        if let Some(fs) = &self.flags {
            if fs.len() > 0 {
                field_obj.push_field("flags", JsonValue::Str(join_flag_tokens(fs)));
            }
        }
        proof {
            assert(field_obj@ =~= regexp_options_jv(*self));
        }
        let mut regexp_obj = JsonObj::new();
        regexp_obj.push_field(self.field.as_str(), field_obj.finish());
        let mut root = JsonObj::new();
        root.push_field("regexp", regexp_obj.finish());
        let r = root.finish();
        proof {
            assert(r@ =~~= regexp_query_jv(*self));
        }
        r
    }
}

} // verus!
