//! Organizing completed downloads: rules that match a file name by
//! extension or pattern and name the directory the file moves to.
use vstd::prelude::*;
use vstd::string::*;

use crate::json::{jv_get, JsonV, JsonValue};
use crate::tools::{kv, prop_string, prop_string_array, schema_object_no_required, schema_shape};

verus! {

pub struct OrganizeCompletedTool;

/// One organization rule: a file whose extension is listed (compared
/// without regard to ASCII case) or whose name the pattern matches goes
/// to `target_dir`.
#[derive(Debug)]
pub struct Rule {
    pub name: String,
    pub pattern: Option<String>,
    pub extensions: Option<Vec<String>>,
    pub target_dir: String,
}

/// The arguments an `organize_completed` call carries.
#[derive(Debug)]
pub struct OrganizeCompletedArgs {
    /// GID of the download to organize; with none, every completed
    /// download is organized.
    pub gid: Option<String>,
    /// Rules for organizing.
    pub rules: Option<Vec<Rule>>,
}

impl OrganizeCompletedTool {
    pub fn name(&self) -> (r: String)
        ensures
            r@ == "organize_completed"@,
    {
        String::from_str("organize_completed")
    }

    pub fn description(&self) -> (r: String)
        ensures
            r@ == "Organize completed downloads by moving them to directories based on rules"@,
    {
        String::from_str("Organize completed downloads by moving them to directories based on rules")
    }

    pub fn schema(&self) -> (r: JsonValue)
        ensures
            schema_shape(r@),
            crate::json::jv_get(r@, "properties"@) matches Some(JsonV::Obj(ps))
                && ps.len() == 2 && ps[0].0 == "gid"@ && ps[1].0 == "rules"@,
    {
        let mut rule_props: Vec<(String, JsonValue)> = Vec::new();
        rule_props.push(kv("name", prop_string("Rule name")));
        rule_props.push(kv("pattern", prop_string("Pattern the file name must match")));
        rule_props.push(kv("extensions", prop_string_array("File extensions the rule covers")));
        rule_props.push(kv("targetDir", prop_string("Directory matched files move to")));
        let mut item_entries: Vec<(String, JsonValue)> = Vec::new();
        item_entries.push(kv("type", JsonValue::of_str("object")));
        item_entries.push(kv("properties", JsonValue::Obj(rule_props)));
        let mut rules_entries: Vec<(String, JsonValue)> = Vec::new();
        rules_entries.push(kv("type", JsonValue::of_str("array")));
        rules_entries.push(kv("items", JsonValue::Obj(item_entries)));
        rules_entries.push(kv("description", JsonValue::of_str("Rules for organizing")));
        let mut props: Vec<(String, JsonValue)> = Vec::new();
        props.push(kv("gid", prop_string("GID of the download to organize")));
        props.push(kv("rules", JsonValue::Obj(rules_entries)));
        let ghost pv = props@;
        let r = schema_object_no_required(props);
        proof {
            crate::json::lemma_json_view_entries(pv);
        }
        r
    }
}

/// Whether a pattern compiles as a regular expression and matches a
/// text. That is a function of the two strings alone; its definition is
/// the regex language, far too wide to state here.
pub uninterp spec fn regex_match_of(pattern: Seq<char>, text: Seq<char>) -> bool;

/// Relies on regex::Regex::new and regex::Regex::is_match: whether the
/// pattern compiles and matches the text depends on the two strings
/// alone. A pattern that does not compile matches nothing.
#[verifier::external_body]
fn regex_matches(pattern: &str, text: &str) -> (r: bool)
    ensures
        r == regex_match_of(pattern@, text@),
{
    match regex::Regex::new(pattern) {
        Ok(re) => re.is_match(text),
        Err(_) => false,
    }
}

/// A character's code with ASCII upper case folded to lower case.
pub open spec fn ascii_lower_val(c: char) -> int {
    if 'A' <= c <= 'Z' {
        c as int + 32
    } else {
        c as int
    }
}

/// Equality of two words without regard to ASCII case.
pub open spec fn ascii_ieq(a: Seq<char>, b: Seq<char>) -> bool {
    a.len() == b.len() && forall|i: int| 0 <= i < a.len() ==> ascii_lower_val(#[trigger] a[i])
        == ascii_lower_val(b[i])
}

fn ascii_ieq_exec(a: &str, b: &str) -> (r: bool)
    ensures
        r == ascii_ieq(a@, b@),
{
    let n = a.unicode_len();
    if n != b.unicode_len() {
        return false;
    }
    let mut i: usize = 0;
    while i < n
        invariant
            n == a@.len(),
            n == b@.len(),
            i <= n,
            forall|j: int| 0 <= j < i ==> ascii_lower_val(#[trigger] a@[j]) == ascii_lower_val(
                b@[j],
            ),
        decreases n - i,
    {
        let ca = a.get_char(i);
        let cb = b.get_char(i);
        let va: u32 = if 'A' <= ca && ca <= 'Z' {
            ca as u32 + 32
        } else {
            ca as u32
        };
        let vb: u32 = if 'A' <= cb && cb <= 'Z' {
            cb as u32 + 32
        } else {
            cb as u32
        };
        if va != vb {
            assert(ascii_lower_val(a@[i as int]) != ascii_lower_val(b@[i as int]));
            return false;
        }
        i += 1;
    }
    true
}

/// The file name's extension: the part after the last dot, provided the
/// dot is neither the first character (a leading dot marks a hidden
/// file) nor absent.
pub open spec fn ext_of(name: Seq<char>) -> Option<Seq<char>> {
    if exists|k: int| 0 < k < name.len() && name[k] == '.' {
        let k = last_dot(name);
        Some(name.subrange(k + 1, name.len() as int))
    } else {
        None
    }
}

/// The position of the last dot past the first character.
pub open spec fn last_dot(name: Seq<char>) -> int {
    choose|k: int|
        0 < k < name.len() && name[k] == '.' && forall|j: int| k < j < name.len() ==> name[j]
            != '.'
}

proof fn lemma_last_dot(name: Seq<char>, k: int)
    requires
        0 < k < name.len(),
        name[k] == '.',
        forall|j: int| k < j < name.len() ==> name[j] != '.',
    ensures
        last_dot(name) == k,
{
    let k2 = last_dot(name);
    assert(0 < k2 < name.len() && name[k2] == '.' && forall|j: int| k2 < j < name.len()
        ==> name[j] != '.') by {
        assert(0 < k < name.len() && name[k] == '.' && forall|j: int| k < j < name.len()
            ==> name[j] != '.');
    }
    if k < k2 {
        assert(name[k2] != '.');
    }
    if k2 < k {
        assert(name[k] != '.');
    }
}

/// The file name's extension, as the rules read it.
fn extension_of(name: &str) -> (r: Option<String>)
    ensures
        match r {
            Some(e) => ext_of(name@) == Some(e@),
            None => ext_of(name@) is None,
        },
{
    let n = name.unicode_len();
    if n == 0 {
        return None;
    }
    let mut i: usize = n - 1;
    while i > 0
        invariant
            n == name@.len(),
            0 <= i < n,
            forall|j: int| i < j < n ==> name@[j] != '.',
        decreases i,
    {
        if name.get_char(i) == '.' {
            proof {
                lemma_last_dot(name@, i as int);
            }
            let mut out = String::new();
            let mut j: usize = i + 1;
            while j < n
                invariant
                    n == name@.len(),
                    i + 1 <= j <= n,
                    i < n,
                    out@ =~= name@.subrange(i + 1, j as int),
                decreases n - j,
            {
                let c = name.get_char(j);
                push_char(&mut out, c);
                proof {
                    assert(out@ =~= name@.subrange(i + 1, j + 1));
                }
                j += 1;
            }
            assert(out@ =~= name@.subrange(i + 1, n as int));
            return Some(out);
        }
        i -= 1;
    }
    assert(forall|j: int| 0 < j < n ==> name@[j] != '.');
    None
}

/// Relies on String::push: the character joins the end of the string.
#[verifier::external_body]
fn push_char(s: &mut String, c: char)
    ensures
        final(s)@ == old(s)@.push(c),
{
    s.push(c);
}

impl Rule {
    /// True when the rule covers a file name: the name's extension is
    /// one of the rule's extensions, compared without regard to ASCII
    /// case, or the rule's pattern matches the name.
    pub fn matches(&self, filename: &str) -> (r: bool)
        ensures
            r == ({
                ||| match (self.extensions, ext_of(filename@)) {
                    (Some(exts), Some(e)) => exists|i: int|
                        0 <= i < exts@.len() && ascii_ieq(#[trigger] exts@[i]@, e),
                    _ => false,
                }
                ||| match self.pattern {
                    Some(p) => regex_match_of(p@, filename@),
                    None => false,
                }
            }),
    {
        let ext_hit = match (&self.extensions, extension_of(filename)) {
            (Some(exts), Some(e)) => {
                let n = exts.len();
                let mut found = false;
                let mut i: usize = 0;
                while i < n
                    invariant
                        n == exts@.len(),
                        i <= n,
                        found == exists|j: int|
                            0 <= j < i && ascii_ieq(#[trigger] exts@[j]@, e@),
                    decreases n - i,
                {
                    if ascii_ieq_exec(exts[i].as_str(), e.as_str()) {
                        found = true;
                        assert(ascii_ieq(exts@[i as int]@, e@));
                    }
                    i += 1;
                }
                found
            },
            _ => false,
        };
        if ext_hit {
            return true;
        }
        match &self.pattern {
            Some(p) => regex_matches(p.as_str(), filename),
            None => false,
        }
    }
}

/// The `{"status": "no_rules", ...}` reply of a call without rules.
pub fn no_rules_response() -> (r: JsonValue)
    ensures
        r@ == JsonV::Obj(
            seq![
                ("status"@, JsonV::Str("no_rules"@)),
                ("message"@, JsonV::Str("No rules provided for organization"@)),
            ],
        ),
{
    let mut entries: Vec<(String, JsonValue)> = Vec::new();
    entries.push((String::from_str("status"), JsonValue::of_str("no_rules")));
    entries.push((
        String::from_str("message"),
        JsonValue::of_str("No rules provided for organization"),
    ));
    let ghost es = entries@;
    let r = JsonValue::Obj(entries);
    proof {
        crate::json::lemma_json_view_entries(es);
        assert(crate::json::json_view_entries(es) =~= seq![
            ("status"@, JsonV::Str("no_rules"@)),
            ("message"@, JsonV::Str("No rules provided for organization"@)),
        ]);
    }
    r
}

/// The `{"status": "success", "organizedCount": ...}` reply.
pub fn organized_response(count: u64) -> (r: JsonValue)
    requires
        count <= i64::MAX,
    ensures
        r@ == JsonV::Obj(
            seq![
                ("status"@, JsonV::Str("success"@)),
                ("organizedCount"@, JsonV::Int(count as int)),
            ],
        ),
{
    let mut entries: Vec<(String, JsonValue)> = Vec::new();
    entries.push((String::from_str("status"), JsonValue::of_str("success")));
    entries.push((String::from_str("organizedCount"), JsonValue::Int(count as i64)));
    let ghost es = entries@;
    let r = JsonValue::Obj(entries);
    proof {
        crate::json::lemma_json_view_entries(es);
        assert(crate::json::json_view_entries(es) =~= seq![
            ("status"@, JsonV::Str("success"@)),
            ("organizedCount"@, JsonV::Int(count as int)),
        ]);
    }
    r
}

/// The refusal for a task that is not complete: the message names the
/// task and the status it was found in.
pub fn not_complete_message(gid: &str, status: &str) -> (r: String)
    ensures
        r@ == "Download "@ + gid@ + " is not complete (status: "@ + status@ + ")"@,
{
    String::from_str("Download ").concat(gid).concat(" is not complete (status: ").concat(
        status,
    ).concat(")")
}

} // verus!
