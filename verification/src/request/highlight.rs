//! Highlighting configuration: which fields to highlight and how.

use vstd::prelude::*;
use vstd::string::StringExecFns;
use crate::json::{strings_to_array, strs_jv, JVal, JsonNum, JsonObj, JsonValue};
use crate::keymap::{has_key, insert_entry, keys_unique};

verus! {

/// Per-field highlight options; each key appears only if set or non-empty.
#[derive(Debug)]
pub struct HighlightField {
    pub highlight_type: Option<String>,
    pub number_of_fragments: Option<u32>,
    pub pre_tags: Vec<String>,
    pub post_tags: Vec<String>,
}

/// Fields of a highlight-field object, in the fixed key order
/// type, number_of_fragments, pre_tags, post_tags.
pub open spec fn highlight_field_fields_jv(h: HighlightField) -> Seq<(Seq<char>, JVal)> {
    let ps = Seq::<(Seq<char>, JVal)>::empty();
    let ps = if h.highlight_type is Some {
        ps.push(("type"@, JVal::Str(h.highlight_type->0@)))
    } else {
        ps
    };
    let ps = if h.number_of_fragments is Some {
        ps.push(("number_of_fragments"@, JVal::Num(JsonNum::UInt(h.number_of_fragments->0 as u64))))
    } else {
        ps
    };
    let ps = if h.pre_tags@.len() > 0 {
        ps.push(("pre_tags"@, JVal::Arr(strs_jv(h.pre_tags@))))
    } else {
        ps
    };
    if h.post_tags@.len() > 0 {
        ps.push(("post_tags"@, JVal::Arr(strs_jv(h.post_tags@))))
    } else {
        ps
    }
}

/// Wire shape of a highlight field.
pub open spec fn highlight_field_jv(h: HighlightField) -> JVal {
    JVal::Obj(highlight_field_fields_jv(h))
}

impl HighlightField {
    /// A highlight field with nothing set.
    pub fn new() -> (r: Self)
        ensures
            r.highlight_type is None,
            r.number_of_fragments is None,
            r.pre_tags@ =~= Seq::<String>::empty(),
            r.post_tags@ =~= Seq::<String>::empty(),
    {
        HighlightField {
            highlight_type: None,
            number_of_fragments: None,
            pre_tags: Vec::new(),
            post_tags: Vec::new(),
        }
    }

    /// Set the highlighter type.
    pub fn highlight_type(self, highlight_type: &str) -> (r: Self)
        ensures
            r.highlight_type is Some,
            r.highlight_type->0@ == highlight_type@,
            r == (HighlightField { highlight_type: r.highlight_type, ..self }),
    {
        HighlightField { highlight_type: Some(String::from_str(highlight_type)), ..self }
    }

    /// Set the number of fragments.
    pub fn number_of_fragments(self, number_of_fragments: u32) -> (r: Self)
        ensures
            r == (HighlightField { number_of_fragments: Some(number_of_fragments), ..self }),
    {
        HighlightField { number_of_fragments: Some(number_of_fragments), ..self }
    }

    /// Set the pre-tags, replacing any previous ones.
    pub fn pre_tags(self, pre_tags: Vec<String>) -> (r: Self)
        ensures
            r == (HighlightField { pre_tags, ..self }),
    {
        HighlightField { pre_tags, ..self }
    }

    /// Set the post-tags, replacing any previous ones.
    pub fn post_tags(self, post_tags: Vec<String>) -> (r: Self)
        ensures
            r == (HighlightField { post_tags, ..self }),
    {
        HighlightField { post_tags, ..self }
    }

    /// Project this highlight field onto its wire shape.
    pub fn to_json(&self) -> (r: JsonValue)
        ensures
            r@ == highlight_field_jv(*self),
    {
        let mut obj = JsonObj::new();
        if let Some(highlight_type) = &self.highlight_type {
            obj.push_field("type", JsonValue::Str(highlight_type.clone()));
        }
        if let Some(number_of_fragments) = &self.number_of_fragments {
            obj.push_field("number_of_fragments", JsonValue::uint64(*number_of_fragments as u64));
        }
        if self.pre_tags.len() > 0 {
            obj.push_field("pre_tags", strings_to_array(&self.pre_tags));
        }
        if self.post_tags.len() > 0 {
            obj.push_field("post_tags", strings_to_array(&self.post_tags));
        }
        proof {
            assert(obj@ =~= highlight_field_fields_jv(*self));
        }
        let r = obj.finish();
        proof {
            assert(r@ =~~= highlight_field_jv(*self));
        }
        r
    }
}

/// Highlight configuration: a field-name keyed map of highlight fields plus
/// an optional require_field_match flag.
#[derive(Debug)]
pub struct Highlight {
    pub fields: Vec<(String, HighlightField)>,
    pub require_field_match: Option<bool>,
}

/// Ghost images of the highlight-field entries, in order.
pub open spec fn highlight_entries_jv(m: Seq<(String, HighlightField)>) -> Seq<(Seq<char>, JVal)>
    decreases m,
{
    if m.len() == 0 {
        Seq::empty()
    } else {
        highlight_entries_jv(m.subrange(0, m.len() - 1)).push(
            (m[m.len() - 1].0@, highlight_field_jv(m[m.len() - 1].1)),
        )
    }
}

/// Appending an entry on the right extends the output on the right.
pub proof fn lemma_highlight_entries_jv_push(
    m: Seq<(String, HighlightField)>,
    p: (String, HighlightField),
)
    ensures
        highlight_entries_jv(m.push(p)) == highlight_entries_jv(m).push(
            (p.0@, highlight_field_jv(p.1)),
        ),
{
    let t = m.push(p);
    assert(t.subrange(0, t.len() - 1) =~= m);
    assert(t[t.len() - 1] == p);
}

/// Fields of a highlight object: `fields` only when non-empty, then
/// `require_field_match` only when set.
pub open spec fn highlight_fields_jv(h: Highlight) -> Seq<(Seq<char>, JVal)> {
    let ps = Seq::<(Seq<char>, JVal)>::empty();
    let ps = if h.fields@.len() > 0 {
        ps.push(("fields"@, JVal::Obj(highlight_entries_jv(h.fields@))))
    } else {
        ps
    };
    if h.require_field_match is Some {
        ps.push(("require_field_match"@, JVal::Bool(h.require_field_match->0)))
    } else {
        ps
    }
}

/// Wire shape of a highlight configuration.
pub open spec fn highlight_jv(h: Highlight) -> JVal {
    JVal::Obj(highlight_fields_jv(h))
}

/// An empty field map is entirely absent from the output, never present as
/// an empty object.
pub proof fn lemma_highlight_omits_empty_fields(h: Highlight)
    ensures
        h.fields@.len() == 0 ==> forall|j: int|
            0 <= j < highlight_fields_jv(h).len() ==> highlight_fields_jv(h)[j].0 != "fields"@,
{
    reveal_strlit("fields");
    reveal_strlit("require_field_match");
    if h.fields@.len() == 0 {
        assert("require_field_match"@.len() == 19);
        assert("fields"@.len() == 6);
        assert forall|j: int| 0 <= j < highlight_fields_jv(h).len() implies highlight_fields_jv(
            h,
        )[j].0 != "fields"@ by {
            assert(highlight_fields_jv(h)[j].0 == "require_field_match"@);
        }
    }
}

impl Highlight {
    /// A highlight configuration with nothing set.
    pub fn new() -> (r: Self)
        ensures
            r.fields@ =~= Seq::<(String, HighlightField)>::empty(),
            r.require_field_match is None,
    {
        Highlight { fields: Vec::new(), require_field_match: None }
    }

    /// Add a field to highlight; a field added under an existing name
    /// replaces the earlier one in place.
    pub fn field(self, field_name: &str, highlight_field: HighlightField) -> (r: Self)
        requires
            keys_unique(self.fields@),
        ensures
            keys_unique(r.fields@),
            r.require_field_match == self.require_field_match,
            !has_key(self.fields@, field_name@) ==> r.fields@.len() == self.fields@.len() + 1
                && r.fields@.last().0@ == field_name@ && r.fields@.last().1 == highlight_field
                && r.fields@.subrange(0, self.fields@.len() as int) == self.fields@,
            has_key(self.fields@, field_name@) ==> r.fields@.len() == self.fields@.len(),
            forall|i: int|
                0 <= i < self.fields@.len() && self.fields@[i].0@ == field_name@
                    ==> #[trigger] r.fields@[i].0@ == field_name@ && r.fields@[i].1
                    == highlight_field && (forall|j: int|
                    0 <= j < self.fields@.len() && j != i ==> r.fields@[j] == self.fields@[j]),
    {
        let ghost gval = highlight_field;
        let key = String::from_str(field_name);
        let ghost gkey = key;
        let mut fields = self.fields;
        let ghost gold = fields@;
        insert_entry(&mut fields, key, highlight_field);
        proof {
            if has_key(gold, field_name@) {
                let i = choose|i: int|
                    0 <= i < gold.len() && #[trigger] gold[i].0@ == field_name@;
                assert(fields@ == gold.update(i, (gkey, gval)));
            }
        }
        Highlight { fields, require_field_match: self.require_field_match }
    }

    /// Set whether highlighted fields must match the query.
    pub fn require_field_match(self, require_field_match: bool) -> (r: Self)
        ensures
            r == (Highlight { require_field_match: Some(require_field_match), ..self }),
    {
        Highlight { require_field_match: Some(require_field_match), ..self }
    }

    /// Project this configuration onto its wire shape.
    pub fn to_json(&self) -> (r: JsonValue)
        ensures
            r@ == highlight_jv(*self),
    {
        let mut obj = JsonObj::new();
        if self.fields.len() > 0 {
            let mut fields_obj = JsonObj::new();
            let mut i: usize = 0;
            while i < self.fields.len()
                invariant
                    i <= self.fields@.len(),
                    fields_obj@ =~= highlight_entries_jv(self.fields@.subrange(0, i as int)),
                decreases self.fields@.len() - i,
            {
                let v = self.fields[i].1.to_json();
                fields_obj.push_field(self.fields[i].0.as_str(), v);
                proof {
                    lemma_highlight_entries_jv_push(
                        self.fields@.subrange(0, i as int),
                        self.fields@[i as int],
                    );
                    assert(self.fields@.subrange(0, i + 1 as int) =~= self.fields@.subrange(
                        0,
                        i as int,
                    ).push(self.fields@[i as int]));
                }
                i += 1;
            }
            proof {
                assert(self.fields@.subrange(0, self.fields@.len() as int) =~= self.fields@);
            }
            obj.push_field("fields", fields_obj.finish());
        }
        if let Some(require_field_match) = &self.require_field_match {
            obj.push_field("require_field_match", JsonValue::Bool(*require_field_match));
        }
        proof {
            assert(obj@ =~= highlight_fields_jv(*self));
        }
        let r = obj.finish();
        proof {
            assert(r@ =~~= highlight_jv(*self));
        }
        r
    }
}

} // verus!
