//! The composition root's decisions: shaping the tool listing, applying
//! the meta-tool that enables and disables tools, resolving a tool call
//! to one target client, and the uniform success and error envelopes the
//! caller receives.
use vstd::prelude::*;
use vstd::string::*;

use crate::error::ToolError;
use crate::json::{json_view_entries, json_view_seq, jv_get, lemma_json_view_entries,
    lemma_json_view_seq, JsonV, JsonValue};
use crate::pool::{requested_instance, resolve_instance};
use crate::strutil::{dec_str, str_eq, u64_to_string};
use crate::tools::registry::{count_true, desc_eq, listed_from, listed_in, ToolDescriptor,
    ToolRegistry};
use crate::tools::{str_field, str_field_of};

verus! {

/// The uniform success envelope: one text content block.
pub open spec fn text_envelope(text: Seq<char>) -> JsonV {
    JsonV::Obj(
        seq![
            (
                "content"@,
                JsonV::Arr(
                    seq![
                        JsonV::Obj(
                            seq![("type"@, JsonV::Str("text"@)), ("text"@, JsonV::Str(text))],
                        ),
                    ],
                ),
            ),
        ],
    )
}

/// The error-shaped envelope: the same text block, marked as an error.
pub open spec fn error_envelope(text: Seq<char>) -> JsonV {
    JsonV::Obj(
        seq![
            ("isError"@, JsonV::Bool(true)),
            (
                "content"@,
                JsonV::Arr(
                    seq![
                        JsonV::Obj(
                            seq![("type"@, JsonV::Str("text"@)), ("text"@, JsonV::Str(text))],
                        ),
                    ],
                ),
            ),
        ],
    )
}

fn text_block(text: String) -> (r: JsonValue)
    ensures
        r@ == JsonV::Arr(
            seq![JsonV::Obj(seq![("type"@, JsonV::Str("text"@)), ("text"@, JsonV::Str(text@))])],
        ),
{
    let ghost t = text@;
    let mut cell: Vec<(String, JsonValue)> = Vec::new();
    cell.push((String::from_str("type"), JsonValue::of_str("text")));
    cell.push((String::from_str("text"), JsonValue::Str(text)));
    let ghost cs = cell@;
    let block = JsonValue::Obj(cell);
    let mut items: Vec<JsonValue> = Vec::new();
    items.push(block);
    let ghost its = items@;
    let r = JsonValue::Arr(items);
    proof {
        lemma_json_view_entries(cs);
        assert(json_view_entries(cs) =~= seq![
            ("type"@, JsonV::Str("text"@)),
            ("text"@, JsonV::Str(t)),
        ]);
        lemma_json_view_seq(its);
        assert(json_view_seq(its) =~= seq![
            JsonV::Obj(seq![("type"@, JsonV::Str("text"@)), ("text"@, JsonV::Str(t))]),
        ]);
    }
    r
}

/// Wraps a text in the uniform success envelope.
pub fn make_text_envelope(text: String) -> (r: JsonValue)
    ensures
        r@ == text_envelope(text@),
{
    let ghost t = text@;
    let blocks = text_block(text);
    let mut entries: Vec<(String, JsonValue)> = Vec::new();
    entries.push((String::from_str("content"), blocks));
    let ghost es = entries@;
    let r = JsonValue::Obj(entries);
    proof {
        lemma_json_view_entries(es);
        assert(json_view_entries(es) =~= text_envelope(t)->Obj_0);
    }
    r
}

/// Wraps a text in the error-shaped envelope.
pub fn make_error_envelope(text: String) -> (r: JsonValue)
    ensures
        r@ == error_envelope(text@),
{
    let ghost t = text@;
    let blocks = text_block(text);
    let mut entries: Vec<(String, JsonValue)> = Vec::new();
    entries.push((String::from_str("isError"), JsonValue::Bool(true)));
    entries.push((String::from_str("content"), blocks));
    let ghost es = entries@;
    let r = JsonValue::Obj(entries);
    proof {
        lemma_json_view_entries(es);
        assert(json_view_entries(es) =~= error_envelope(t)->Obj_0);
    }
    r
}

/// The listing row of one tool: name, description and input schema.
pub open spec fn tool_info_json(d: ToolDescriptor) -> JsonV {
    JsonV::Obj(
        seq![
            ("name"@, JsonV::Str(d.name@)),
            ("description"@, JsonV::Str(d.description@)),
            ("inputSchema"@, d.schema@),
        ],
    )
}

/// True when `v` is the listing row of some enabled catalog entry.
pub open spec fn info_from(cat: Seq<ToolDescriptor>, en: Seq<bool>, v: JsonV) -> bool {
    exists|i: int| 0 <= i < cat.len() && en[i] && v == tool_info_json(#[trigger] cat[i])
}

/// True when the first `upto` rows hold the listing row of `d`.
pub open spec fn info_listed(infos: Seq<JsonV>, upto: int, d: ToolDescriptor) -> bool {
    exists|k: int| 0 <= k < upto && (#[trigger] infos[k]) == tool_info_json(d)
}

/// When each of the first `cnt` rows renders one listed descriptor,
/// the rows cover the enabled catalog exactly: each row comes from an
/// enabled entry, and each enabled entry has a row.
proof fn lemma_infos_cover(
    cat: Seq<ToolDescriptor>,
    en: Seq<bool>,
    listed: Seq<ToolDescriptor>,
    infos: Seq<JsonV>,
    cnt: int,
)
    requires
        cnt == listed.len(),
        infos.len() >= listed.len(),
        forall|k: int| 0 <= k < listed.len() ==> listed_from(cat, en, #[trigger] listed[k]),
        forall|i: int| 0 <= i < cat.len() && en[i] ==> listed_in(listed, #[trigger] cat[i]),
        forall|k: int| 0 <= k < listed.len() ==> #[trigger] infos[k] == tool_info_json(
            listed[k],
        ),
    ensures
        forall|k: int| 0 <= k < cnt ==> info_from(cat, en, #[trigger] infos[k]),
        forall|i: int| 0 <= i < cat.len() && en[i] ==> info_listed(
            infos,
            cnt,
            #[trigger] cat[i],
        ),
{
    assert forall|k: int| 0 <= k < cnt implies info_from(cat, en, #[trigger] infos[k]) by {
        let d = listed[k];
        let j = choose|j: int| 0 <= j < cat.len() && en[j] && desc_eq(#[trigger] cat[j], d);
        assert(infos[k] == tool_info_json(d));
        assert(tool_info_json(d) == tool_info_json(cat[j]));
    }
    assert forall|i: int| 0 <= i < cat.len() && en[i] implies info_listed(
        infos,
        cnt,
        #[trigger] cat[i],
    ) by {
        let k = choose|k: int| 0 <= k < listed.len() && desc_eq(cat[i], #[trigger] listed[k]);
        assert(infos[k] == tool_info_json(listed[k]));
        assert(infos[k] == tool_info_json(cat[i]));
    }
}

fn tool_info_row(d: &ToolDescriptor) -> (r: JsonValue)
    ensures
        r@ == tool_info_json(*d),
{
    let mut entries: Vec<(String, JsonValue)> = Vec::new();
    entries.push((String::from_str("name"), JsonValue::Str(d.name.clone())));
    entries.push((String::from_str("description"), JsonValue::Str(d.description.clone())));
    entries.push((String::from_str("inputSchema"), d.schema.deep_copy()));
    let ghost es = entries@;
    let r = JsonValue::Obj(entries);
    proof {
        lemma_json_view_entries(es);
        assert(json_view_entries(es) =~= tool_info_json(*d)->Obj_0);
    }
    r
}

fn manage_tools_row() -> (r: JsonValue)
    ensures
        r@ is Obj,
        jv_get(r@, "name"@) == Some(JsonV::Str("manage_tools"@)),
{
    let actions = vec!["list", "enable", "disable"];
    let mut props: Vec<(String, JsonValue)> = Vec::new();
    props.push(crate::tools::kv("action", crate::tools::prop_enum(
        "The action to perform.",
        &actions,
    )));
    props.push(crate::tools::kv("tools", crate::tools::prop_string_array(
        "List of tool names to enable or disable.",
    )));
    let required = vec!["action"];
    let schema = crate::tools::schema_object(props, crate::tools::str_arr(&required));
    let mut entries: Vec<(String, JsonValue)> = Vec::new();
    entries.push((String::from_str("name"), JsonValue::of_str("manage_tools")));
    entries.push((
        String::from_str("description"),
        JsonValue::of_str("Manage available tools (enable/disable) to save tokens."),
    ));
    entries.push((String::from_str("inputSchema"), schema));
    let ghost es = entries@;
    let r = JsonValue::Obj(entries);
    proof {
        lemma_json_view_entries(es);
        crate::json::lemma_obj_get_at(json_view_entries(es), 0);
        assert(json_view_entries(es)[0].0 == "name"@);
    }
    r
}

/// Builds the listing rows: one per enabled tool, in listed order, and
/// the `manage_tools` row at the end in lazy mode.
#[verifier::spinoff_prover]
fn build_tool_infos(reg: &ToolRegistry, listed: &Vec<ToolDescriptor>) -> (infos: Vec<JsonValue>)
    requires
        reg.wf(),
        listed@.len() == count_true(reg.enabled@),
        forall|k: int| 0 <= k < listed@.len() ==> listed_from(
            reg.tools@,
            reg.enabled@,
            #[trigger] listed@[k],
        ),
        forall|i: int| 0 <= i < reg.tools@.len() && reg.enabled@[i] ==> listed_in(
            listed@,
            #[trigger] reg.tools@[i],
        ),
    ensures
        !reg.lazy_mode ==> infos@.len() == count_true(reg.enabled@),
        reg.lazy_mode ==> infos@.len() == count_true(reg.enabled@) + 1 && jv_get(
            json_view_seq(infos@).last(),
            "name"@,
        ) == Some(JsonV::Str("manage_tools"@)),
        forall|k: int| 0 <= k < count_true(reg.enabled@) ==> info_from(
            reg.tools@,
            reg.enabled@,
            #[trigger] json_view_seq(infos@)[k],
        ),
        forall|i: int| 0 <= i < reg.tools@.len() && reg.enabled@[i] ==> info_listed(
            json_view_seq(infos@),
            count_true(reg.enabled@) as int,
            #[trigger] reg.tools@[i],
        ),
{
    let n = listed.len();
    let mut infos: Vec<JsonValue> = Vec::new();
    let mut i: usize = 0;
    while i < n
        invariant
            n == listed@.len(),
            i <= n,
            infos@.len() == i,
            forall|k: int| 0 <= k < i ==> (#[trigger] infos@[k])@ == tool_info_json(listed@[k]),
        decreases n - i,
    {
        infos.push(tool_info_row(&listed[i]));
        i += 1;
    }
    if reg.is_lazy_mode() {
        infos.push(manage_tools_row());
    }
    proof {
        lemma_json_view_seq(infos@);
        assert(forall|k: int| 0 <= k < n ==> #[trigger] json_view_seq(infos@)[k]
            == tool_info_json(listed@[k]));
        lemma_infos_cover(
            reg.tools@,
            reg.enabled@,
            listed@,
            json_view_seq(infos@),
            count_true(reg.enabled@) as int,
        );
    }
    infos
}

/// Builds the `tools/list` reply: one row per enabled tool, and, in
/// lazy mode, one extra row for the `manage_tools` meta-tool at the
/// end. Each row comes from an enabled tool, and every enabled tool
/// has its row among the first rows.
pub fn tools_list_payload(reg: &ToolRegistry) -> (r: JsonValue)
    requires
        reg.wf(),
    ensures
        jv_get(r@, "tools"@) matches Some(JsonV::Arr(infos)) && {
            &&& forall|k: int| 0 <= k < count_true(reg.enabled@) ==> info_from(
                reg.tools@,
                reg.enabled@,
                #[trigger] infos[k],
            )
            &&& forall|i: int| 0 <= i < reg.tools@.len() && reg.enabled@[i] ==> info_listed(
                infos,
                count_true(reg.enabled@) as int,
                #[trigger] reg.tools@[i],
            )
            &&& (!reg.lazy_mode ==> infos.len() == count_true(reg.enabled@))
            &&& (reg.lazy_mode ==> infos.len() == count_true(reg.enabled@) + 1 && jv_get(
                infos.last(),
                "name"@,
            ) == Some(JsonV::Str("manage_tools"@)))
        },
{
    let listed = reg.list_tools();
    let infos = build_tool_infos(reg, &listed);
    let ghost infos_view = json_view_seq(infos@);
    proof {
        lemma_json_view_seq(infos@);
    }
    let mut entries: Vec<(String, JsonValue)> = Vec::new();
    entries.push((String::from_str("tools"), JsonValue::Arr(infos)));
    let ghost es = entries@;
    let r = JsonValue::Obj(entries);
    proof {
        lemma_json_view_entries(es);
        assert(jv_get(r@, "tools"@) == Some(JsonV::Arr(infos_view)));
    }
    r
}

/// What one registry-managing call did: the full catalog rows for a
/// listing, or a finished text message for enabling and disabling.
#[derive(Debug)]
pub enum ManageToolsOutcome {
    List(Vec<JsonValue>),
    Message(JsonValue),
}

/// How many of the named items an enable pass accepts: those that are
/// strings naming a catalog entry. A name in the catalog counts every
/// time it occurs.
pub open spec fn count_enableable(cat: Seq<ToolDescriptor>, items: Seq<JsonV>) -> nat
    decreases items.len(),
{
    if items.len() == 0 {
        0
    } else {
        count_enableable(cat, items.drop_last()) + {
            if items.last() matches JsonV::Str(n) && has_name(cat, n) {
                1nat
            } else {
                0nat
            }
        }
    }
}

/// True when the catalog holds an entry of this name.
pub open spec fn has_name(cat: Seq<ToolDescriptor>, name: Seq<char>) -> bool {
    exists|i: int| 0 <= i < cat.len() && (#[trigger] cat[i]).name@ == name
}

/// True when the flags mark some entry of this name as enabled.
pub open spec fn en_has(cat: Seq<ToolDescriptor>, en: Seq<bool>, name: Seq<char>) -> bool {
    exists|i: int| 0 <= i < cat.len() && (#[trigger] cat[i]).name@ == name && en[i]
}

/// The flags after disabling one name: every entry of that name is
/// cleared.
pub open spec fn clear_name(cat: Seq<ToolDescriptor>, en: Seq<bool>, name: Seq<char>) -> Seq<
    bool,
> {
    Seq::new(en.len(), |i: int| if cat[i].name@ == name {
        false
    } else {
        en[i]
    })
}

/// How many of the named items a disable pass accepts: those that are
/// strings naming a tool still enabled when its turn comes, so a name
/// counts at most once however often it occurs.
pub open spec fn count_disableable(
    cat: Seq<ToolDescriptor>,
    en: Seq<bool>,
    items: Seq<JsonV>,
) -> nat
    decreases items.len(),
{
    if items.len() == 0 {
        0
    } else {
        match items[0] {
            JsonV::Str(n) => (if en_has(cat, en, n) {
                1nat
            } else {
                0nat
            }) + count_disableable(cat, clear_name(cat, en, n), items.drop_first()),
            _ => count_disableable(cat, en, items.drop_first()),
        }
    }
}

/// Applies one `manage_tools` call to the registry. `list` reports the
/// full catalog with flags; `enable` and `disable` walk the given name
/// list and flip each cataloged name, reporting how many calls took.
/// Only names appearing in the list change state.
pub fn manage_tools_apply(reg: &mut ToolRegistry, args: &JsonValue) -> (r: Result<
    ManageToolsOutcome,
    ToolError,
>)
    requires
        old(reg).wf(),
    ensures
        final(reg).wf(),
        final(reg).tools == old(reg).tools,
        final(reg).lazy_mode == old(reg).lazy_mode,
        match str_field(args@, "action"@) {
            None => r matches Err(e) && e is MissingArgument && final(reg).enabled@ == old(reg).enabled@,
            Some(a) => {
                if a == "list"@ {
                    &&& final(reg).enabled@ == old(reg).enabled@
                    &&& r matches Ok(ManageToolsOutcome::List(rows)) && rows@.len() == old(reg).tools@.len() && json_view_seq(rows@).to_multiset()
                        == crate::tools::registry::catalog_rows(
                        old(reg).tools@,
                        old(reg).enabled@,
                    ).to_multiset() && crate::tools::registry::rows_sorted(json_view_seq(rows@))
                } else if a == "enable"@ {
                    match jv_get(args@, "tools"@) {
                        Some(JsonV::Arr(items)) => {
                            &&& forall|n: Seq<char>| old(reg).is_enabled(n) ==> final(reg).is_enabled(n)
                            &&& forall|n: Seq<char>| #[trigger] final(reg).is_enabled(n) ==> old(reg).is_enabled(n) || exists|j: int|
                                0 <= j < items.len() && items[j] == JsonV::Str(n)
                            &&& forall|n: Seq<char>| (exists|j: int|
                                0 <= j < items.len() && items[j] == JsonV::Str(n)) && has_name(
                                old(reg).tools@,
                                n,
                            ) ==> #[trigger] final(reg).is_enabled(n)
                            &&& r matches Ok(ManageToolsOutcome::Message(v)) && v@
                                == text_envelope(
                                "Enabled "@ + dec_str(count_enableable(old(reg).tools@, items))
                                    + " tools."@,
                            )
                        },
                        _ => r matches Err(e) && e is MissingArgument && final(reg).enabled@
                            == old(reg).enabled@,
                    }
                } else if a == "disable"@ {
                    match jv_get(args@, "tools"@) {
                        Some(JsonV::Arr(items)) => {
                            &&& forall|n: Seq<char>| #[trigger] final(reg).is_enabled(n) ==> old(reg).is_enabled(n)
                            &&& forall|n: Seq<char>| #[trigger] final(reg).is_enabled(n)
                                ==> !(exists|j: int|
                                0 <= j < items.len() && items[j] == JsonV::Str(n))
                            &&& forall|n: Seq<char>| old(reg).is_enabled(n) && !(exists|j: int|
                                0 <= j < items.len() && items[j] == JsonV::Str(n)) ==> #[trigger]
                                final(reg).is_enabled(n)
                            &&& r matches Ok(ManageToolsOutcome::Message(v)) && v@
                                == text_envelope(
                                "Disabled "@ + dec_str(
                                    count_disableable(old(reg).tools@, old(reg).enabled@, items),
                                ) + " tools."@,
                            )
                        },
                        _ => r matches Err(e) && e is MissingArgument && final(reg).enabled@
                            == old(reg).enabled@,
                    }
                } else {
                    &&& final(reg).enabled@ == old(reg).enabled@
                    &&& r matches Err(e) && (e matches ToolError::InvalidAction(x) && x@ == a)
                }
            },
        },
{
    let action = match str_field_of(args, "action") {
        Some(a) => a,
        None => {
            return Err(
                ToolError::MissingArgument(String::from_str("Missing 'action' in manage_tools")),
            );
        },
    };
    if str_eq(action, "list") {
        Ok(ManageToolsOutcome::List(reg.list_available_tools()))
    } else if str_eq(action, "enable") {
        let items = match args.get("tools") {
            Some(v) => match v {
                JsonValue::Arr(items) => items,
                _ => {
                    return Err(
                        ToolError::MissingArgument(
                            String::from_str("Missing 'tools' in manage_tools enable"),
                        ),
                    );
                },
            },
            None => {
                return Err(
                    ToolError::MissingArgument(
                        String::from_str("Missing 'tools' in manage_tools enable"),
                    ),
                );
            },
        };
        let ghost items_view = json_view_seq(items@);
        proof {
            lemma_json_view_seq(items@);
        }
        let n = items.len();
        let mut count: u64 = 0;
        let mut i: usize = 0;
        while i < n
            invariant
                old(reg).wf(),
                reg.wf(),
                n == items@.len(),
                items_view.len() == n,
                forall|j: int| 0 <= j < n ==> items_view[j] == crate::json::json_view(items@[j]),
                i <= n,
                count <= i,
                reg.tools == old(reg).tools,
                reg.lazy_mode == old(reg).lazy_mode,
                count as nat == count_enableable(old(reg).tools@, items_view.take(i as int)),
                forall|nm: Seq<char>| old(reg).is_enabled(nm) ==> reg.is_enabled(nm),
                forall|nm: Seq<char>| #[trigger] reg.is_enabled(nm) ==> old(reg).is_enabled(nm)
                    || exists|j: int| 0 <= j < i && items_view[j] == JsonV::Str(nm),
                forall|nm: Seq<char>| (exists|j: int|
                    0 <= j < i && items_view[j] == JsonV::Str(nm)) && has_name(
                    old(reg).tools@,
                    nm,
                ) ==> #[trigger] reg.is_enabled(nm),
            decreases n - i,
        {
            proof {
                assert(items_view.take(i + 1).drop_last() =~= items_view.take(i as int));
                assert(items_view.take(i + 1).last() == items_view[i as int]);
            }
            let ghost pre = *reg;
            match &items[i] {
                JsonValue::Str(name) => {
                    if reg.enable_tool(name.as_str()) {
                        count = count + 1;
                        proof {
                            let j = choose|j: int|
                                0 <= j < pre.tools@.len() && (#[trigger] pre.tools@[j]).name@
                                    == name@;
                            assert(0 <= j < old(reg).tools@.len() && old(reg).tools@[j].name@
                                == name@);
                            assert(has_name(old(reg).tools@, name@));
                        }
                    } else {
                        proof {
                            if has_name(old(reg).tools@, name@) {
                                let j = choose|j: int|
                                    0 <= j < old(reg).tools@.len() && (#[trigger] old(reg).tools@[j]).name@ == name@;
                                assert(pre.catalog_has(name@));
                                assert(false);
                            }
                        }
                    }
                    proof {
                        assert forall|nm: Seq<char>| #[trigger] reg.is_enabled(nm) implies old(reg).is_enabled(nm) || exists|j: int|
                            0 <= j < i + 1 && items_view[j] == JsonV::Str(nm) by {
                            if nm == name@ {
                                assert(items_view[i as int] == JsonV::Str(nm));
                            } else {
                                assert(reg.is_enabled(nm) == pre.is_enabled(nm));
                            }
                        }
                        assert forall|nm: Seq<char>| (exists|j: int|
                            0 <= j < i + 1 && items_view[j] == JsonV::Str(nm)) && has_name(
                            old(reg).tools@,
                            nm,
                        ) implies #[trigger] reg.is_enabled(nm) by {
                            if nm == name@ {
                                let j = choose|j: int|
                                    0 <= j < old(reg).tools@.len() && (#[trigger] old(
                                        reg,
                                    ).tools@[j]).name@ == nm;
                                assert(pre.catalog_has(nm));
                                assert(reg.is_enabled(nm));
                            } else {
                                assert(exists|j: int|
                                    0 <= j < i && items_view[j] == JsonV::Str(nm));
                                assert(pre.is_enabled(nm));
                                assert(reg.is_enabled(nm) == pre.is_enabled(nm));
                            }
                        }
                    }
                },
                _ => {},
            }
            i += 1;
        }
        proof {
            assert(items_view.take(n as int) =~= items_view);
        }
        let msg = String::from_str("Enabled ").concat(u64_to_string(count).as_str()).concat(
            " tools.",
        );
        Ok(ManageToolsOutcome::Message(make_text_envelope(msg)))
    } else if str_eq(action, "disable") {
        let items = match args.get("tools") {
            Some(v) => match v {
                JsonValue::Arr(items) => items,
                _ => {
                    return Err(
                        ToolError::MissingArgument(
                            String::from_str("Missing 'tools' in manage_tools disable"),
                        ),
                    );
                },
            },
            None => {
                return Err(
                    ToolError::MissingArgument(
                        String::from_str("Missing 'tools' in manage_tools disable"),
                    ),
                );
            },
        };
        let ghost items_view = json_view_seq(items@);
        proof {
            lemma_json_view_seq(items@);
            assert(items_view.skip(0) =~= items_view);
        }
        let n = items.len();
        let mut count: u64 = 0;
        let mut i: usize = 0;
        while i < n
            invariant
                old(reg).wf(),
                reg.wf(),
                n == items@.len(),
                items_view.len() == n,
                forall|j: int| 0 <= j < n ==> items_view[j] == crate::json::json_view(items@[j]),
                i <= n,
                count <= i,
                reg.tools == old(reg).tools,
                reg.lazy_mode == old(reg).lazy_mode,
                count as nat + count_disableable(reg.tools@, reg.enabled@, items_view.skip(i as int))
                    == count_disableable(old(reg).tools@, old(reg).enabled@, items_view),
                forall|nm: Seq<char>| #[trigger] reg.is_enabled(nm) ==> old(reg).is_enabled(nm),
                forall|nm: Seq<char>| #[trigger] reg.is_enabled(nm) ==> !(exists|j: int|
                    0 <= j < i && items_view[j] == JsonV::Str(nm)),
                forall|nm: Seq<char>| old(reg).is_enabled(nm) && !(exists|j: int|
                    0 <= j < i && items_view[j] == JsonV::Str(nm)) ==> #[trigger] reg.is_enabled(
                    nm,
                ),
            decreases n - i,
        {
            proof {
                assert(items_view.skip(i as int)[0] == items_view[i as int]);
                assert(items_view.skip(i as int).drop_first() =~= items_view.skip(i + 1));
            }
            let ghost pre = *reg;
            match &items[i] {
                JsonValue::Str(name) => {
                    if reg.disable_tool(name.as_str()) {
                        count = count + 1;
                        proof {
                            let j = choose|j: int|
                                0 <= j < pre.tools@.len() && (#[trigger] pre.tools@[j]).name@
                                    == name@ && pre.enabled@[j];
                            assert(en_has(pre.tools@, pre.enabled@, name@));
                        }
                    } else {
                        proof {
                            if en_has(pre.tools@, pre.enabled@, name@) {
                                let j = choose|j: int|
                                    0 <= j < pre.tools@.len() && (#[trigger] pre.tools@[j]).name@
                                        == name@ && pre.enabled@[j];
                                assert(pre.is_enabled(name@));
                                assert(false);
                            }
                        }
                    }
                    proof {
                        assert(items_view[i as int] == JsonV::Str(name@));
                        assert(reg.enabled@ =~= clear_name(pre.tools@, pre.enabled@, name@));
                        assert forall|nm: Seq<char>| #[trigger] reg.is_enabled(nm) implies !(
                        exists|j: int| 0 <= j < i + 1 && items_view[j] == JsonV::Str(nm)) by {
                            assert(nm != name@);
                            if exists|j: int| 0 <= j < i && items_view[j] == JsonV::Str(nm) {
                                assert(pre.is_enabled(nm) == reg.is_enabled(nm));
                            }
                        }
                    }
                },
                _ => {
                    proof {
                        assert forall|nm: Seq<char>| #[trigger] reg.is_enabled(nm) implies !(
                        exists|j: int| 0 <= j < i + 1 && items_view[j] == JsonV::Str(nm)) by {
                            assert(!(items_view[i as int] is Str));
                        }
                    }
                },
            }
            i += 1;
        }
        proof {
            assert(items_view.skip(n as int) =~= Seq::<JsonV>::empty());
        }
        let msg = String::from_str("Disabled ").concat(u64_to_string(count).as_str()).concat(
            " tools.",
        );
        Ok(ManageToolsOutcome::Message(make_text_envelope(msg)))
    } else {
        Err(ToolError::InvalidAction(action.to_owned()))
    }
}

/// What a resolved `tools/call` comes to: the lazy-mode meta-tool with
/// its arguments, or one named tool to invoke against one client.
#[derive(Debug)]
pub enum CallPlan {
    ManageTools(JsonValue),
    Invoke { name: String, args: JsonValue, client: usize },
}

/// Resolves a `tools/call` request: the call's parameters must name a
/// tool; in lazy mode `manage_tools` is handled by the registry itself;
/// any other name must be cataloged and enabled — a disabled tool is
/// reported not found, exactly like an unknown one — and the call is
/// routed to the instance its arguments select, index 0 by default.
pub fn tools_call_plan(reg: &ToolRegistry, params: Option<&JsonValue>, n_clients: usize) -> (r:
    Result<CallPlan, ToolError>)
    requires
        reg.wf(),
    ensures
        match params {
            None => r matches Err(e) && e is MissingArgument,
            Some(p) => match str_field(p@, "name"@) {
                None => r matches Err(e) && e is MissingArgument,
                Some(name) => {
                    let args = match jv_get(p@, "arguments"@) {
                        Some(a) => a,
                        None => JsonV::Obj(Seq::empty()),
                    };
                    if name == "manage_tools"@ && reg.lazy_mode {
                        r matches Ok(CallPlan::ManageTools(a)) && a@ == args
                    } else if !(reg.catalog_has(name) && reg.is_enabled(name)) {
                        r matches Err(e) && (e matches ToolError::ToolNotFound(n) && n@ == name)
                    } else if requested_instance(args) < n_clients {
                        r matches Ok(CallPlan::Invoke { name: n, args: a, client }) && n@ == name
                            && a@ == args && client == requested_instance(args)
                    } else {
                        r matches Err(e) && e is InvalidInstanceIndex
                    }
                },
            },
        },
{
    let p = match params {
        Some(p) => p,
        None => {
            return Err(
                ToolError::MissingArgument(
                    String::from_str("Missing parameters for tools/call"),
                ),
            );
        },
    };
    let name = match str_field_of(p, "name") {
        Some(s) => s,
        None => {
            return Err(
                ToolError::MissingArgument(String::from_str("Missing 'name' in tools/call")),
            );
        },
    };
    let args = match p.get("arguments") {
        Some(a) => a.deep_copy(),
        None => JsonValue::Obj(Vec::new()),
    };
    if str_eq(name, "manage_tools") && reg.is_lazy_mode() {
        return Ok(CallPlan::ManageTools(args));
    }
    if !reg.is_tool_enabled(name) {
        return Err(ToolError::ToolNotFound(name.to_owned()));
    }
    proof {
        let j = choose|j: int|
            0 <= j < reg.tools@.len() && (#[trigger] reg.tools@[j]).name@ == name@
                && reg.enabled@[j];
        assert(reg.catalog_has(name@));
    }
    match resolve_instance(&args, n_clients) {
        Ok(client) => Ok(CallPlan::Invoke { name: name.to_owned(), args, client }),
        Err(e) => Err(e),
    }
}

} // verus!
