//! The tool catalog and its enablement state: an immutable set of tool
//! descriptors assembled once at startup, a mutable set of enabled
//! names, and the lazy-mode switch that decides how the set starts.
//! Each descriptor's schema is decorated, once at registration, with the
//! implicit `instance` routing property.
use vstd::prelude::*;
use vstd::string::*;

use crate::config::Config;
use crate::json::{json_view_entries, jv_get, lemma_json_view_entries, lemma_obj_set_get_other,
    lemma_obj_set_get_same, obj_set_entries, JsonV, JsonValue};
use crate::strutil::str_eq;
use crate::tools::schema_shape;

verus! {

/// One tool as the catalog holds it: name, description, and the cached,
/// instance-decorated input schema.
#[derive(Debug)]
pub struct ToolDescriptor {
    pub name: String,
    pub description: String,
    pub schema: JsonValue,
}

/// One catalog row as introspection reports it.
#[derive(Debug)]
pub struct ToolInfo {
    pub name: String,
    pub description: String,
    pub input_schema: JsonValue,
}

/// True when two descriptors carry the same content.
pub open spec fn desc_eq(a: ToolDescriptor, b: ToolDescriptor) -> bool {
    &&& a.name@ == b.name@
    &&& a.description@ == b.description@
    &&& a.schema@ == b.schema@
}

/// The implicit schema property every registered tool gains: an integer
/// `instance` index selecting the target backend.
pub open spec fn instance_property() -> JsonV {
    JsonV::Obj(
        seq![
            ("type"@, JsonV::Str("integer"@)),
            (
                "description"@,
                JsonV::Str(
                    "The index of the aria2 instance to target (0, 1, etc.). Defaults to 0."@,
                ),
            ),
        ],
    )
}

fn make_instance_property() -> (r: JsonValue)
    ensures
        r@ == instance_property(),
{
    let mut entries: Vec<(String, JsonValue)> = Vec::new();
    entries.push((String::from_str("type"), JsonValue::of_str("integer")));
    entries.push((
        String::from_str("description"),
        JsonValue::of_str("The index of the aria2 instance to target (0, 1, etc.). Defaults to 0."),
    ));
    let ghost es = entries@;
    let r = JsonValue::Obj(entries);
    proof {
        lemma_json_view_entries(es);
        assert(json_view_entries(es) =~= instance_property()->Obj_0);
    }
    r
}

/// Merges the implicit `instance` property into a tool's schema. A
/// schema whose property map is an object gains (or replaces) the
/// `instance` entry, every other key untouched; a schema without a
/// property map gets one created holding just `instance`, and a missing
/// or null top-level `type` is set to `"object"`; a schema whose
/// `properties` is some other value is left alone.
pub fn decorate_schema(s: JsonValue) -> (r: JsonValue)
    requires
        s@ is Obj,
    ensures
        r@ is Obj,
        schema_shape(s@) ==> schema_shape(r@),
        match jv_get(s@, "properties"@) {
            Some(JsonV::Obj(op)) => {
                &&& jv_get(r@, "properties"@) == Some(
                    JsonV::Obj(obj_set_entries(op, "instance"@, instance_property())),
                )
                &&& forall|k: Seq<char>| k != "properties"@ ==> jv_get(r@, k) == jv_get(s@, k)
                &&& (jv_get(r@, "properties"@) matches Some(JsonV::Obj(np))
                    && crate::json::obj_get_entries(np, "instance"@) == Some(instance_property())
                    && forall|k: Seq<char>| k != "instance"@ ==> crate::json::obj_get_entries(
                        np,
                        k,
                    ) == crate::json::obj_get_entries(op, k))
            },
            Some(_) => r@ == s@,
            None => {
                &&& jv_get(r@, "properties"@) == Some(
                    JsonV::Obj(seq![("instance"@, instance_property())]),
                )
                &&& match jv_get(s@, "type"@) {
                    None => jv_get(r@, "type"@) == Some(JsonV::Str("object"@)),
                    Some(JsonV::Null) => jv_get(r@, "type"@) == Some(JsonV::Str("object"@)),
                    Some(t) => jv_get(r@, "type"@) == Some(t),
                }
                &&& forall|k: Seq<char>| k != "properties"@ && k != "type"@ ==> jv_get(r@, k)
                    == jv_get(s@, k)
            },
        },
{
    let props_kind: u8 = match s.get("properties") {
        Some(v) => match v {
            JsonValue::Obj(_) => 1,
            _ => 2,
        },
        None => 0,
    };
    if props_kind == 2 {
        return s;
    }
    if props_kind == 1 {
        let props_ref = match s.get("properties") {
            Some(p) => p,
            None => {
                proof {
                    assert(false);
                }
                &s
            },
        };
        let mut new_props = props_ref.deep_copy();
        let ghost old_props = new_props@->Obj_0;
        new_props.set_key("instance", make_instance_property());
        let ghost np_view = new_props@;
        let mut out = s;
        out.set_key("properties", new_props);
        proof {
            let ghost old_entries = s@->Obj_0;
            lemma_obj_set_get_same(old_entries, "properties"@, np_view);
            assert forall|k: Seq<char>| k != "properties"@ implies jv_get(out@, k) == jv_get(
                s@,
                k,
            ) by {
                lemma_obj_set_get_other(old_entries, "properties"@, np_view, k);
            }
            lemma_obj_set_get_same(old_props, "instance"@, instance_property());
            assert forall|k: Seq<char>| k != "instance"@ implies crate::json::obj_get_entries(
                np_view->Obj_0,
                k,
            ) == crate::json::obj_get_entries(old_props, k) by {
                lemma_obj_set_get_other(old_props, "instance"@, instance_property(), k);
            }
            reveal_strlit("type");
            reveal_strlit("properties");
            assert("type"@.len() == 4 && "properties"@.len() == 10);
            assert("type"@ != "properties"@);
            assert(jv_get(out@, "type"@) == jv_get(s@, "type"@));
        }
        out
    } else {
        let mut props_entries: Vec<(String, JsonValue)> = Vec::new();
        props_entries.push((String::from_str("instance"), make_instance_property()));
        let ghost pes = props_entries@;
        let props = JsonValue::Obj(props_entries);
        let ghost props_view = props@;
        proof {
            lemma_json_view_entries(pes);
            assert(props_view->Obj_0 =~= seq![("instance"@, instance_property())]);
        }
        let mut out = s;
        out.set_key("properties", props);
        let ghost mid = out@;
        proof {
            let ghost old_entries = s@->Obj_0;
            lemma_obj_set_get_same(old_entries, "properties"@, props_view);
            assert forall|k: Seq<char>| k != "properties"@ implies jv_get(mid, k) == jv_get(
                s@,
                k,
            ) by {
                lemma_obj_set_get_other(old_entries, "properties"@, props_view, k);
            }
        }
        let set_type: bool = match out.get("type") {
            None => true,
            Some(v) => match v {
                JsonValue::Null => true,
                _ => false,
            },
        };
        if set_type {
            out.set_key("type", JsonValue::of_str("object"));
            proof {
                let ghost mid_entries = mid->Obj_0;
                lemma_obj_set_get_same(mid_entries, "type"@, JsonV::Str("object"@));
                assert forall|k: Seq<char>| k != "type"@ implies jv_get(out@, k) == jv_get(
                    mid,
                    k,
                ) by {
                    lemma_obj_set_get_other(mid_entries, "type"@, JsonV::Str("object"@), k);
                }
                reveal_strlit("type");
                reveal_strlit("properties");
                assert("type"@.len() == 4 && "properties"@.len() == 10);
                assert("type"@ != "properties"@);
                assert(jv_get(out@, "properties"@) == jv_get(mid, "properties"@));
            }
        } else {
            proof {
                reveal_strlit("type");
                reveal_strlit("properties");
                assert("type"@.len() == 4 && "properties"@.len() == 10);
                assert("type"@ != "properties"@);
                assert(jv_get(out@, "type"@) == jv_get(s@, "type"@));
            }
        }
        proof {
            assert forall|k: Seq<char>| k != "properties"@ && k != "type"@ implies jv_get(
                out@,
                k,
            ) == jv_get(s@, k) by {
                assert(jv_get(out@, k) == jv_get(mid, k));
                assert(jv_get(mid, k) == jv_get(s@, k));
            }
        }
        out
    }
}

/// The tool registry: the catalog in registration order, one enablement
/// flag per catalog entry, and the lazy-mode switch.
pub struct ToolRegistry {
    pub tools: Vec<ToolDescriptor>,
    pub enabled: Vec<bool>,
    pub lazy_mode: bool,
}

impl ToolRegistry {
    /// The registry's structural invariant: one flag per catalog entry.
    pub open spec fn wf(&self) -> bool {
        self.enabled@.len() == self.tools@.len()
    }

    /// True when the catalog holds a tool of this name.
    pub open spec fn catalog_has(&self, name: Seq<char>) -> bool {
        exists|i: int|
            0 <= i < self.tools@.len() && (#[trigger] self.tools@[i]).name@ == name
    }

    /// The set of catalog names.
    pub open spec fn catalog_set(&self) -> Set<Seq<char>> {
        Set::new(|n: Seq<char>| self.catalog_has(n))
    }

    /// True when a tool of this name is currently enabled.
    pub open spec fn is_enabled(&self, name: Seq<char>) -> bool {
        exists|i: int|
            0 <= i < self.tools@.len() && (#[trigger] self.tools@[i]).name@ == name
                && self.enabled@[i]
    }

    /// The set of enabled names.
    pub open spec fn enabled_set(&self) -> Set<Seq<char>> {
        Set::new(|n: Seq<char>| self.is_enabled(n))
    }
}

/// The number of set flags in a flag list.
pub open spec fn count_true(s: Seq<bool>) -> nat
    decreases s.len(),
{
    if s.len() == 0 {
        0
    } else {
        count_true(s.drop_last()) + if s.last() {
            1nat
        } else {
            0nat
        }
    }
}

/// An exact copy of a descriptor.
pub fn clone_descriptor(d: &ToolDescriptor) -> (r: ToolDescriptor)
    ensures
        desc_eq(*d, r),
{
    ToolDescriptor {
        name: d.name.clone(),
        description: d.description.clone(),
        schema: d.schema.deep_copy(),
    }
}

/// True when `d` carries the content of some enabled catalog entry.
pub open spec fn listed_from(cat: Seq<ToolDescriptor>, en: Seq<bool>, d: ToolDescriptor) -> bool {
    exists|i: int| 0 <= i < cat.len() && en[i] && desc_eq(#[trigger] cat[i], d)
}

/// True when some element of `r` carries the content of `d`.
pub open spec fn listed_in(r: Seq<ToolDescriptor>, d: ToolDescriptor) -> bool {
    exists|k: int| 0 <= k < r.len() && desc_eq(d, #[trigger] r[k])
}

/// One catalog introspection row: the tool's name and description and
/// its current enablement flag.
pub open spec fn available_row(d: ToolDescriptor, en: bool) -> JsonV {
    JsonV::Obj(
        seq![
            ("name"@, JsonV::Str(d.name@)),
            ("description"@, JsonV::Str(d.description@)),
            ("enabled"@, JsonV::Bool(en)),
        ],
    )
}

/// The introspection rows in catalog order, before sorting.
pub open spec fn catalog_rows(cat: Seq<ToolDescriptor>, en: Seq<bool>) -> Seq<JsonV> {
    Seq::new(cat.len(), |i: int| available_row(cat[i], en[i]))
}

/// The name an introspection row reports.
pub open spec fn row_name(v: JsonV) -> Seq<char> {
    match jv_get(v, "name"@) {
        Some(JsonV::Str(s)) => s,
        _ => Seq::empty(),
    }
}

/// True when rows stand in ascending name order.
pub open spec fn rows_sorted(rows: Seq<JsonV>) -> bool {
    forall|k: int|
        0 <= k < rows.len() - 1 ==> crate::strutil::lex_leq(
            row_name(#[trigger] rows[k]),
            row_name(rows[k + 1]),
        )
}

/// The row views a list of (name, row) pairs carries.
pub open spec fn pair_rows(s: Seq<(String, JsonValue)>) -> Seq<JsonV> {
    Seq::new(s.len(), |i: int| s[i].1@)
}

/// Sorts introspection rows ascending by name: the result holds the
/// same rows (as a multiset) in sorted order. Each pair carries its
/// row's name beside it for the comparisons.
fn sort_rows_by_name(pairs: Vec<(String, JsonValue)>) -> (r: Vec<(String, JsonValue)>)
    requires
        forall|j: int| 0 <= j < pairs@.len() ==> (#[trigger] pairs@[j]).0@ == row_name(
            pairs@[j].1@,
        ),
    ensures
        r@.len() == pairs@.len(),
        pair_rows(r@).to_multiset() == pair_rows(pairs@).to_multiset(),
        rows_sorted(pair_rows(r@)),
{
    broadcast use vstd::seq_lib::group_to_multiset_ensures;

    let ghost orig = pair_rows(pairs@);
    let mut w = pairs;
    let mut out: Vec<(String, JsonValue)> = Vec::new();
    proof {
        assert(pair_rows(out@) =~= Seq::<JsonV>::empty());
        assert(pair_rows(out@).to_multiset().add(pair_rows(w@).to_multiset()) =~= orig.to_multiset());
    }
    while w.len() > 0
        invariant
            out@.len() + w@.len() == orig.len(),
            forall|j: int| 0 <= j < w@.len() ==> (#[trigger] w@[j]).0@ == row_name(w@[j].1@),
            forall|j: int| 0 <= j < out@.len() ==> (#[trigger] out@[j]).0@ == row_name(
                out@[j].1@,
            ),
            pair_rows(out@).to_multiset().add(pair_rows(w@).to_multiset()) == orig.to_multiset(),
            rows_sorted(pair_rows(out@)),
            forall|j: int| 0 <= j < w@.len() && out@.len() > 0 ==> crate::strutil::lex_leq(
                row_name(pair_rows(out@).last()),
                row_name(#[trigger] pair_rows(w@)[j]),
            ),
        decreases w@.len(),
    {
        let mut m: usize = 0;
        let mut j: usize = 1;
        proof {
            crate::strutil::lemma_lex_refl(w@[0].0@);
        }
        while j < w.len()
            invariant
                w@.len() > 0,
                m < j,
                j <= w@.len(),
                forall|k: int| 0 <= k < j ==> crate::strutil::lex_leq(
                    w@[m as int].0@,
                    (#[trigger] w@[k]).0@,
                ),
            decreases w@.len() - j,
        {
            if !crate::strutil::str_lex_leq(w[m].0.as_str(), w[j].0.as_str()) {
                proof {
                    crate::strutil::lemma_lex_total(w@[m as int].0@, w@[j as int].0@);
                    assert forall|k: int| 0 <= k < j implies crate::strutil::lex_leq(
                        w@[j as int].0@,
                        (#[trigger] w@[k]).0@,
                    ) by {
                        crate::strutil::lemma_lex_trans(
                            w@[j as int].0@,
                            w@[m as int].0@,
                            w@[k].0@,
                        );
                    }
                }
                m = j;
            }
            proof {
                crate::strutil::lemma_lex_refl(w@[m as int].0@);
            }
            j += 1;
        }
        let ghost pre_w = w@;
        let ghost pre_out = out@;
        let ghost xv = pair_rows(pre_w)[m as int];
        proof {
            assert(pair_rows(pre_w)[m as int] == pre_w[m as int].1@);
            assert(pair_rows(pre_w).contains(xv));
        }
        let x = w.remove(m);
        out.push(x);
        proof {
            assert(pair_rows(w@) =~= pair_rows(pre_w).remove(m as int));
            assert(pair_rows(out@) =~= pair_rows(pre_out).push(xv));
            pair_rows(pre_w).to_multiset_ensures();
            pair_rows(pre_out).to_multiset_ensures();
            assert(pair_rows(pre_w).to_multiset().count(xv) > 0);
            assert(pair_rows(out@).to_multiset().add(pair_rows(w@).to_multiset())
                =~= pair_rows(pre_out).to_multiset().add(pair_rows(pre_w).to_multiset()));
            assert(row_name(xv) == pre_w[m as int].0@);
            assert forall|k: int|
                0 <= k < pair_rows(out@).len() - 1 implies crate::strutil::lex_leq(
                row_name(#[trigger] pair_rows(out@)[k]),
                row_name(pair_rows(out@)[k + 1]),
            ) by {
                if k < pair_rows(pre_out).len() - 1 {
                    assert(rows_sorted(pair_rows(pre_out)));
                    assert(pair_rows(out@)[k] == pair_rows(pre_out)[k]);
                    assert(pair_rows(out@)[k + 1] == pair_rows(pre_out)[k + 1]);
                } else {
                    assert(pair_rows(out@)[k] == pair_rows(pre_out).last());
                    assert(pair_rows(out@)[k + 1] == xv);
                    assert(crate::strutil::lex_leq(
                        row_name(pair_rows(pre_out).last()),
                        row_name(pair_rows(pre_w)[m as int]),
                    ));
                }
            }
            assert forall|jj: int| 0 <= jj < w@.len() && out@.len() > 0 implies
                crate::strutil::lex_leq(
                row_name(pair_rows(out@).last()),
                row_name(#[trigger] pair_rows(w@)[jj]),
            ) by {
                let src_idx = if jj < m { jj } else { jj + 1 };
                assert(pair_rows(w@)[jj] == pair_rows(pre_w)[src_idx]);
                assert(row_name(pair_rows(pre_w)[src_idx]) == pre_w[src_idx].0@);
                assert(crate::strutil::lex_leq(pre_w[m as int].0@, pre_w[src_idx].0@));
                assert(pair_rows(out@).last() == xv);
            }
        }
    }
    proof {
        assert(pair_rows(w@) =~= Seq::<JsonV>::empty());
        assert(pair_rows(out@).to_multiset() =~= orig.to_multiset());
    }
    out
}

impl ToolRegistry {
    /// Catalog lookup by name, independent of enablement: it
    /// distinguishes "exists" from "callable".
    pub fn get_tool<'a>(&'a self, name: &str) -> (r: Option<&'a ToolDescriptor>)
        ensures
            match r {
                Some(d) => self.catalog_has(name@) && d.name@ == name@ && exists|i: int|
                    0 <= i < self.tools@.len() && self.tools@[i] == *d,
                None => !self.catalog_has(name@),
            },
    {
        let n = self.tools.len();
        let mut i: usize = 0;
        while i < n
            invariant
                n == self.tools@.len(),
                i <= n,
                forall|j: int| 0 <= j < i ==> (#[trigger] self.tools@[j]).name@ != name@,
            decreases n - i,
        {
            if str_eq(self.tools[i].name.as_str(), name) {
                return Some(&self.tools[i]);
            }
            i += 1;
        }
        None
    }

    /// True when a tool of this name is currently enabled.
    pub fn is_tool_enabled(&self, name: &str) -> (r: bool)
        requires
            self.wf(),
        ensures
            r == self.is_enabled(name@),
    {
        let n = self.tools.len();
        let mut i: usize = 0;
        while i < n
            invariant
                self.wf(),
                n == self.tools@.len(),
                i <= n,
                forall|j: int| 0 <= j < i ==> !((#[trigger] self.tools@[j]).name@ == name@
                    && self.enabled@[j]),
            decreases n - i,
        {
            if self.enabled[i] && str_eq(self.tools[i].name.as_str(), name) {
                return true;
            }
            i += 1;
        }
        false
    }

    /// Whether the registry runs in lazy mode.
    pub fn is_lazy_mode(&self) -> (r: bool)
        ensures
            r == self.lazy_mode,
    {
        self.lazy_mode
    }

    /// The descriptors currently enabled, in catalog order. No
    /// descriptor of a name outside the enabled set appears, and every
    /// enabled catalog entry does.
    pub fn list_tools(&self) -> (r: Vec<ToolDescriptor>)
        requires
            self.wf(),
        ensures
            r@.len() == count_true(self.enabled@),
            forall|k: int| 0 <= k < r@.len() ==> listed_from(
                self.tools@,
                self.enabled@,
                #[trigger] r@[k],
            ),
            forall|i: int| 0 <= i < self.tools@.len() && self.enabled@[i] ==> listed_in(
                r@,
                #[trigger] self.tools@[i],
            ),
            forall|k: int| 0 <= k < r@.len() ==> self.is_enabled((#[trigger] r@[k]).name@),
    {
        let n = self.tools.len();
        let mut out: Vec<ToolDescriptor> = Vec::new();
        let ghost mut picks: Seq<int> = Seq::empty();
        let mut i: usize = 0;
        proof {
            assert(self.enabled@.take(0) =~= Seq::<bool>::empty());
        }
        while i < n
            invariant
                self.wf(),
                n == self.tools@.len(),
                i <= n,
                out@.len() == count_true(self.enabled@.take(i as int)),
                picks.len() == out@.len(),
                forall|k: int| 0 <= k < out@.len() ==> 0 <= #[trigger] picks[k] < i
                    && self.enabled@[picks[k]] && desc_eq(self.tools@[picks[k]], out@[k]),
                forall|j: int| 0 <= j < i && self.enabled@[j] ==> exists|k: int|
                    0 <= k < out@.len() && picks[k] == j,
            decreases n - i,
        {
            proof {
                assert(self.enabled@.take(i + 1).drop_last() =~= self.enabled@.take(i as int));
                assert(self.enabled@.take(i + 1).last() == self.enabled@[i as int]);
            }
            let ghost pre = out@;
            let ghost pre_picks = picks;
            if self.enabled[i] {
                let d = clone_descriptor(&self.tools[i]);
                out.push(d);
                proof {
                    picks = picks.push(i as int);
                    assert(desc_eq(self.tools@[i as int], out@[out@.len() - 1]));
                    assert forall|j: int| 0 <= j < i + 1 && self.enabled@[j] implies exists|k: int|
                        0 <= k < out@.len() && picks[k] == j by {
                        if j < i {
                            let k = choose|k: int| 0 <= k < pre.len() && pre_picks[k] == j;
                            assert(picks[k] == j);
                        } else {
                            assert(picks[picks.len() - 1] == j);
                        }
                    }
                }
            }
            i += 1;
        }
        proof {
            assert(self.enabled@.take(n as int) =~= self.enabled@);
            assert forall|k: int| 0 <= k < out@.len() implies listed_from(
                self.tools@,
                self.enabled@,
                #[trigger] out@[k],
            ) by {
                let j = picks[k];
                assert(0 <= j < n && self.enabled@[j] && desc_eq(self.tools@[j], out@[k]));
            }
            assert forall|j: int| 0 <= j < self.tools@.len() && self.enabled@[j] implies listed_in(
                out@,
                #[trigger] self.tools@[j],
            ) by {
                let k = choose|k: int| 0 <= k < out@.len() && picks[k] == j;
                assert(desc_eq(self.tools@[j], out@[k]));
            }
            assert forall|k: int| 0 <= k < out@.len() implies self.is_enabled(
                (#[trigger] out@[k]).name@,
            ) by {
                let j = picks[k];
                assert(self.tools@[j].name@ == out@[k].name@ && self.enabled@[j]);
            }
        }
        out
    }

    /// The full catalog with its current flags, for introspection: one
    /// `{name, description, enabled}` object per catalog entry, sorted
    /// ascending by name.
    pub fn list_available_tools(&self) -> (r: Vec<JsonValue>)
        requires
            self.wf(),
        ensures
            r@.len() == self.tools@.len(),
            crate::json::json_view_seq(r@).to_multiset() == catalog_rows(
                self.tools@,
                self.enabled@,
            ).to_multiset(),
            rows_sorted(crate::json::json_view_seq(r@)),
    {
        let n = self.tools.len();
        let mut pairs: Vec<(String, JsonValue)> = Vec::new();
        let mut i: usize = 0;
        while i < n
            invariant
                self.wf(),
                n == self.tools@.len(),
                i <= n,
                pairs@.len() == i,
                forall|j: int| 0 <= j < i ==> (#[trigger] pairs@[j]).1@ == available_row(
                    self.tools@[j],
                    self.enabled@[j],
                ) && pairs@[j].0@ == self.tools@[j].name@,
            decreases n - i,
        {
            let mut entries: Vec<(String, JsonValue)> = Vec::new();
            entries.push((String::from_str("name"), JsonValue::Str(self.tools[i].name.clone())));
            entries.push((
                String::from_str("description"),
                JsonValue::Str(self.tools[i].description.clone()),
            ));
            entries.push((String::from_str("enabled"), JsonValue::Bool(self.enabled[i])));
            let ghost es = entries@;
            let row = JsonValue::Obj(entries);
            proof {
                lemma_json_view_entries(es);
                assert(json_view_entries(es) =~= available_row(
                    self.tools@[i as int],
                    self.enabled@[i as int],
                )->Obj_0);
            }
            pairs.push((self.tools[i].name.clone(), row));
            i += 1;
        }
        proof {
            assert forall|j: int| 0 <= j < pairs@.len() implies (#[trigger] pairs@[j]).0@
                == row_name(pairs@[j].1@) by {
                assert(row_name(available_row(self.tools@[j], self.enabled@[j]))
                    == self.tools@[j].name@);
            }
            assert(pair_rows(pairs@) =~= catalog_rows(self.tools@, self.enabled@));
        }
        let sorted = sort_rows_by_name(pairs);
        let ghost total = pair_rows(sorted@);
        let mut out: Vec<JsonValue> = Vec::new();
        let mut sorted = sorted;
        let ghost full_len = total.len();
        proof {
            crate::json::lemma_json_view_seq(out@);
            assert(crate::json::json_view_seq(out@) =~= total.take(0));
            assert(pair_rows(sorted@) =~= total.skip(0));
        }
        while sorted.len() > 0
            invariant
                out@.len() + sorted@.len() == full_len,
                total.len() == full_len,
                crate::json::json_view_seq(out@) == total.take(out@.len() as int),
                pair_rows(sorted@) == total.skip(out@.len() as int),
            decreases sorted@.len(),
        {
            let ghost pre_out = out@;
            let ghost pre_sorted = sorted@;
            let p = sorted.remove(0);
            proof {
                assert(p == pre_sorted[0]);
                assert(pair_rows(pre_sorted)[0] == total[pre_out.len() as int]);
                assert(total.skip(pre_out.len() as int).drop_first() =~= total.skip(
                    pre_out.len() as int + 1,
                ));
            }
            out.push(p.1);
            proof {
                crate::json::lemma_json_view_seq(pre_out);
                crate::json::lemma_json_view_seq(out@);
                assert(pair_rows(sorted@) =~= pair_rows(pre_sorted).remove(0));
                assert(crate::json::json_view_seq(out@) =~= total.take(out@.len() as int));
                assert(pair_rows(sorted@) =~= total.skip(out@.len() as int));
            }
        }
        proof {
            assert(crate::json::json_view_seq(out@) =~= total);
        }
        out
    }

    /// Enables the named tool. Returns false, changing nothing, when
    /// the catalog does not hold the name; otherwise the name joins the
    /// enabled set and every other name keeps its state.
    pub fn enable_tool(&mut self, name: &str) -> (r: bool)
        requires
            old(self).wf(),
        ensures
            final(self).wf(),
            r == old(self).catalog_has(name@),
            final(self).tools == old(self).tools,
            final(self).lazy_mode == old(self).lazy_mode,
            r ==> final(self).is_enabled(name@),
            forall|n: Seq<char>| n != name@ ==> final(self).is_enabled(n) == old(self).is_enabled(
                n,
            ),
            final(self).enabled@.len() == old(self).enabled@.len(),
            forall|j: int| 0 <= j < old(self).enabled@.len() ==> final(self).enabled@[j] == (
            if (#[trigger] old(self).tools@[j]).name@ == name@ {
                true
            } else {
                old(self).enabled@[j]
            }),
            !r ==> final(self).enabled@ == old(self).enabled@,
    {
        let n = self.tools.len();
        let mut i: usize = 0;
        let mut found = false;
        while i < n
            invariant
                old(self).wf(),
                self.wf(),
                n == self.tools@.len(),
                i <= n,
                self.tools == old(self).tools,
                self.lazy_mode == old(self).lazy_mode,
                found == exists|j: int|
                    0 <= j < i && (#[trigger] self.tools@[j]).name@ == name@,
                forall|j: int| i <= j < n ==> self.enabled@[j] == old(self).enabled@[j],
                forall|j: int| 0 <= j < i ==> self.enabled@[j] == if (
                #[trigger] self.tools@[j]).name@ == name@ {
                    true
                } else {
                    old(self).enabled@[j]
                },
            decreases n - i,
        {
            if str_eq(self.tools[i].name.as_str(), name) {
                self.enabled.remove(i);
                self.enabled.insert(i, true);
                found = true;
                assert(self.tools@[i as int].name@ == name@);
            }
            i += 1;
        }
        proof {
            if found {
                let j = choose|j: int| 0 <= j < n && (#[trigger] self.tools@[j]).name@ == name@;
                assert(self.enabled@[j]);
            }
            assert forall|nm: Seq<char>| nm != name@ implies self.is_enabled(nm) == old(
                self,
            ).is_enabled(nm) by {
                if self.is_enabled(nm) {
                    let j = choose|j: int|
                        0 <= j < self.tools@.len() && (#[trigger] self.tools@[j]).name@ == nm
                            && self.enabled@[j];
                    assert(old(self).enabled@[j]);
                    assert(old(self).is_enabled(nm));
                }
                if old(self).is_enabled(nm) {
                    let j = choose|j: int|
                        0 <= j < old(self).tools@.len() && (#[trigger] old(
                            self,
                        ).tools@[j]).name@ == nm && old(self).enabled@[j];
                    assert(self.enabled@[j]);
                    assert(self.is_enabled(nm));
                }
            }
            if !found {
                assert forall|j: int| 0 <= j < self.enabled@.len() implies self.enabled@[j] == old(
                    self,
                ).enabled@[j] by {
                    assert(self.tools@[j].name@ != name@);
                }
                assert(self.enabled@ =~= old(self).enabled@);
            }
        }
        found
    }

    /// Disables the named tool. Returns true exactly when the name was
    /// enabled; afterwards it is not, and every other name keeps its
    /// state.
    pub fn disable_tool(&mut self, name: &str) -> (r: bool)
        requires
            old(self).wf(),
        ensures
            final(self).wf(),
            r == old(self).is_enabled(name@),
            final(self).tools == old(self).tools,
            final(self).lazy_mode == old(self).lazy_mode,
            !final(self).is_enabled(name@),
            forall|n: Seq<char>| n != name@ ==> final(self).is_enabled(n) == old(self).is_enabled(
                n,
            ),
            final(self).enabled@.len() == old(self).enabled@.len(),
            forall|j: int| 0 <= j < old(self).enabled@.len() ==> final(self).enabled@[j] == (
            if (#[trigger] old(self).tools@[j]).name@ == name@ {
                false
            } else {
                old(self).enabled@[j]
            }),
            !r ==> final(self).enabled@ == old(self).enabled@,
    {
        let n = self.tools.len();
        let mut i: usize = 0;
        let mut found = false;
        while i < n
            invariant
                old(self).wf(),
                self.wf(),
                n == self.tools@.len(),
                i <= n,
                self.tools == old(self).tools,
                self.lazy_mode == old(self).lazy_mode,
                found == exists|j: int|
                    0 <= j < i && (#[trigger] self.tools@[j]).name@ == name@ && old(
                        self,
                    ).enabled@[j],
                forall|j: int| i <= j < n ==> self.enabled@[j] == old(self).enabled@[j],
                forall|j: int| 0 <= j < i ==> self.enabled@[j] == if (
                #[trigger] self.tools@[j]).name@ == name@ {
                    false
                } else {
                    old(self).enabled@[j]
                },
            decreases n - i,
        {
            if str_eq(self.tools[i].name.as_str(), name) {
                if self.enabled[i] {
                    found = true;
                    assert(self.tools@[i as int].name@ == name@ && old(self).enabled@[i as int]);
                }
                self.enabled.remove(i);
                self.enabled.insert(i, false);
            }
            i += 1;
        }
        proof {
            if self.is_enabled(name@) {
                let j = choose|j: int|
                    0 <= j < self.tools@.len() && (#[trigger] self.tools@[j]).name@ == name@
                        && self.enabled@[j];
                assert(false);
            }
            if old(self).is_enabled(name@) {
                let j = choose|j: int|
                    0 <= j < old(self).tools@.len() && (#[trigger] old(self).tools@[j]).name@
                        == name@ && old(self).enabled@[j];
                assert(found);
            }
            assert forall|nm: Seq<char>| nm != name@ implies self.is_enabled(nm) == old(
                self,
            ).is_enabled(nm) by {
                if self.is_enabled(nm) {
                    let j = choose|j: int|
                        0 <= j < self.tools@.len() && (#[trigger] self.tools@[j]).name@ == nm
                            && self.enabled@[j];
                    assert(old(self).enabled@[j]);
                }
                if old(self).is_enabled(nm) {
                    let j = choose|j: int|
                        0 <= j < old(self).tools@.len() && (#[trigger] old(
                            self,
                        ).tools@[j]).name@ == nm && old(self).enabled@[j];
                    assert(self.enabled@[j]);
                }
            }
            if !found {
                assert forall|j: int| 0 <= j < self.enabled@.len() implies self.enabled@[j] == old(
                    self,
                ).enabled@[j] by {
                    if self.tools@[j].name@ == name@ {
                        assert(!(self.tools@[j].name@ == name@ && old(self).enabled@[j]));
                    }
                }
                assert(self.enabled@ =~= old(self).enabled@);
            }
        }
        found
    }
}

fn built(name: String, description: String, schema: JsonValue) -> (r: ToolDescriptor)
    requires
        schema@ is Obj,
    ensures
        r.name@ == name@,
        r.description@ == description@,
{
    ToolDescriptor { name, description, schema: decorate_schema(schema) }
}

impl ToolRegistry {
    /// The catalog populated with every built-in tool, in a fixed
    /// order. In lazy mode exactly one tool starts enabled, the
    /// always-on queue monitor; otherwise every tool does.
    pub fn new(config: &Config) -> (r: ToolRegistry)
        ensures
            r.wf(),
            r.lazy_mode == config.lazy_mode,
            r.tools@.len() == 11,
            r.tools@[0].name@ == "manage_downloads"@,
            r.tools@[1].name@ == "monitor_queue"@,
            r.tools@[2].name@ == "inspect_download"@,
            r.tools@[3].name@ == "configure_aria2"@,
            r.tools@[4].name@ == "search_downloads"@,
            r.tools@[5].name@ == "bulk_manage_downloads"@,
            r.tools@[6].name@ == "check_health"@,
            r.tools@[7].name@ == "manage_all_instances"@,
            r.tools@[8].name@ == "manage_torrent"@,
            r.tools@[9].name@ == "organize_completed"@,
            r.tools@[10].name@ == "schedule_limits"@,
            !config.lazy_mode ==> forall|i: int| 0 <= i < 11 ==> r.enabled@[i],
            config.lazy_mode ==> forall|i: int| 0 <= i < 11 ==> (r.enabled@[i] <==> i == 1),
            config.lazy_mode ==> forall|n: Seq<char>| #[trigger] r.is_enabled(n) <==> n
                == "monitor_queue"@,
            !config.lazy_mode ==> forall|n: Seq<char>| #[trigger] r.is_enabled(n)
                <==> r.catalog_has(n),
    {
        let mut tools: Vec<ToolDescriptor> = Vec::new();
        let t0 = crate::tools::manage_downloads::ManageDownloadsTool;
        tools.push(built(t0.name(), t0.description(), t0.schema()));
        let t1 = crate::tools::monitor_queue::MonitorQueueTool;
        tools.push(built(t1.name(), t1.description(), t1.schema()));
        let t2 = crate::tools::inspect_download::InspectDownloadTool;
        tools.push(built(t2.name(), t2.description(), t2.schema()));
        let t3 = crate::tools::configure_aria2::ConfigureAria2Tool;
        tools.push(built(t3.name(), t3.description(), t3.schema()));
        let t4 = crate::tools::search_downloads::SearchDownloadsTool;
        tools.push(built(t4.name(), t4.description(), t4.schema()));
        let t5 = crate::tools::bulk_manage_downloads::BulkManageDownloadsTool;
        tools.push(built(t5.name(), t5.description(), t5.schema()));
        let t6 = crate::tools::check_health::CheckHealthTool;
        tools.push(built(t6.name(), t6.description(), t6.schema()));
        let t7 = crate::tools::manage_all_instances::ManageAllInstancesTool;
        tools.push(built(t7.name(), t7.description(), t7.schema()));
        let t8 = crate::tools::manage_torrent::ManageTorrentTool;
        tools.push(built(t8.name(), t8.description(), t8.schema()));
        let t9 = crate::tools::organize_completed::OrganizeCompletedTool;
        tools.push(built(t9.name(), t9.description(), t9.schema()));
        let t10 = crate::tools::schedule_limits::ScheduleLimitsTool;
        tools.push(built(t10.name(), t10.description(), t10.schema()));
        let mut enabled: Vec<bool> = Vec::new();
        let mut i: usize = 0;
        while i < 11
            invariant
                i <= 11,
                enabled@.len() == i,
                forall|j: int| 0 <= j < i ==> (#[trigger] enabled@[j] <==> (!config.lazy_mode || j
                    == 1)),
            decreases 11 - i,
        {
            enabled.push(!config.lazy_mode || i == 1);
            i += 1;
        }
        let r = ToolRegistry { tools, enabled, lazy_mode: config.lazy_mode };
        proof {
            if config.lazy_mode {
                assert forall|n: Seq<char>| #[trigger] r.is_enabled(n) implies n
                    == "monitor_queue"@ by {
                    let j = choose|j: int|
                        0 <= j < r.tools@.len() && (#[trigger] r.tools@[j]).name@ == n
                            && r.enabled@[j];
                    assert(j == 1);
                }
                assert forall|n: Seq<char>| n == "monitor_queue"@ implies #[trigger] r.is_enabled(
                    n,
                ) by {
                    assert(r.tools@[1].name@ == n && r.enabled@[1]);
                }
            } else {
                assert forall|n: Seq<char>| #[trigger] r.is_enabled(n) implies r.catalog_has(
                    n,
                ) by {
                    let j = choose|j: int|
                        0 <= j < r.tools@.len() && (#[trigger] r.tools@[j]).name@ == n
                            && r.enabled@[j];
                    assert(0 <= j < r.tools@.len() && r.tools@[j].name@ == n);
                }
                assert forall|n: Seq<char>| r.catalog_has(n) implies #[trigger] r.is_enabled(
                    n,
                ) by {
                    let j = choose|j: int|
                        0 <= j < r.tools@.len() && (#[trigger] r.tools@[j]).name@ == n;
                    assert(r.enabled@[j]);
                }
            }
        }
        r
    }

    /// Adds a tool under a fresh name: the descriptor joins the end of
    /// the catalog with its schema decorated, enabled at once unless
    /// the registry runs in lazy mode.
    pub fn register(&mut self, name: String, description: String, schema: JsonValue)
        requires
            old(self).wf(),
            schema@ is Obj,
            !old(self).catalog_has(name@),
        ensures
            final(self).wf(),
            final(self).lazy_mode == old(self).lazy_mode,
            final(self).tools@.len() == old(self).tools@.len() + 1,
            forall|i: int| 0 <= i < old(self).tools@.len() ==> final(self).tools@[i] == old(
                self,
            ).tools@[i] && final(self).enabled@[i] == old(self).enabled@[i],
            final(self).tools@.last().name@ == name@,
            final(self).tools@.last().description@ == description@,
            final(self).enabled@.last() == !old(self).lazy_mode,
    {
        let flag = !self.lazy_mode;
        self.tools.push(built(name, description, schema));
        self.enabled.push(flag);
    }
}

impl Default for ToolRegistry {
    /// The registry over the fallback configuration: every tool
    /// enabled, lazy mode off.
    fn default() -> (r: ToolRegistry)
        ensures
            r.wf(),
            !r.lazy_mode,
    {
        ToolRegistry::new(&Config::fallback())
    }
}

/// Whatever enable and disable calls have done, a name can only be
/// enabled if the catalog holds it: the enabled set is a subset of the
/// catalog's names.
pub proof fn lemma_enabled_subset_catalog(r: ToolRegistry)
    requires
        r.wf(),
    ensures
        r.enabled_set().subset_of(r.catalog_set()),
{
    assert forall|n: Seq<char>| r.enabled_set().contains(n) implies r.catalog_set().contains(
        n,
    ) by {
        let i = choose|i: int|
            0 <= i < r.tools@.len() && (#[trigger] r.tools@[i]).name@ == n && r.enabled@[i];
        assert(0 <= i < r.tools@.len() && r.tools@[i].name@ == n);
    }
}

} // verus!
