//! The read-only resources the serving side exposes: the global
//! statistics, the active-download listing, and the tail of the
//! application log. The first two are one remote call each; the log
//! resource's work is taking the last lines of the file's text.
use vstd::prelude::*;
use vstd::string::*;

use crate::json::{json_view_entries, json_view_seq, jv_get, lemma_json_view_entries,
    lemma_json_view_seq, JsonV, JsonValue};
use crate::rpc::RpcRequest;
use crate::strutil::u64_to_string;

verus! {

/// The listing of currently active downloads.
pub struct ActiveDownloadsResource;

impl ActiveDownloadsResource {
    pub fn uri(&self) -> (r: String)
        ensures
            r@ == "aria2://downloads/active"@,
    {
        String::from_str("aria2://downloads/active")
    }

    pub fn name(&self) -> (r: String)
        ensures
            r@ == "Active Downloads"@,
    {
        String::from_str("Active Downloads")
    }

    pub fn description(&self) -> (r: String)
        ensures
            r@ == "List of currently active downloads."@,
    {
        String::from_str("List of currently active downloads.")
    }

    pub fn mime_type(&self) -> (r: String)
        ensures
            r@ == "application/json"@,
    {
        String::from_str("application/json")
    }

    /// The remote operation one read issues.
    pub fn plan(&self) -> (r: RpcRequest)
        ensures
            r.method@ == "aria2.tellActive"@,
            r.params@.len() == 0,
    {
        RpcRequest { method: String::from_str("aria2.tellActive"), params: Vec::new() }
    }
}

/// The global statistics: speeds and queue counts.
pub struct GlobalStatusResource;

impl GlobalStatusResource {
    pub fn uri(&self) -> (r: String)
        ensures
            r@ == "aria2://status/global"@,
    {
        String::from_str("aria2://status/global")
    }

    pub fn name(&self) -> (r: String)
        ensures
            r@ == "Global Status"@,
    {
        String::from_str("Global Status")
    }

    pub fn description(&self) -> (r: String)
        ensures
            r@ == "Global statistics including download/upload speed and number of active/waiting/stopped downloads."@,
    {
        String::from_str(
            "Global statistics including download/upload speed and number of active/waiting/stopped downloads.",
        )
    }

    pub fn mime_type(&self) -> (r: String)
        ensures
            r@ == "application/json"@,
    {
        String::from_str("application/json")
    }

    /// The remote operation one read issues.
    pub fn plan(&self) -> (r: RpcRequest)
        ensures
            r.method@ == "aria2.getGlobalStat"@,
            r.params@.len() == 0,
    {
        RpcRequest { method: String::from_str("aria2.getGlobalStat"), params: Vec::new() }
    }
}

/// The last lines of the application log file.
pub struct RecentLogsResource {
    pub log_path: String,
    pub lines: usize,
}

impl RecentLogsResource {
    /// A log resource over the given file, reporting that many lines.
    pub fn new(log_path: String, lines: usize) -> (r: RecentLogsResource)
        ensures
            r.log_path@ == log_path@,
            r.lines == lines,
    {
        RecentLogsResource { log_path, lines }
    }

    pub fn uri(&self) -> (r: String)
        ensures
            r@ == "aria2://logs/recent"@,
    {
        String::from_str("aria2://logs/recent")
    }

    pub fn name(&self) -> (r: String)
        ensures
            r@ == "Recent Logs"@,
    {
        String::from_str("Recent Logs")
    }

    pub fn description(&self) -> (r: String)
        ensures
            r@ == "Last "@ + crate::strutil::dec_str(self.lines as nat) + " lines of the application log file at "@
                + self.log_path@ + "."@,
    {
        String::from_str("Last ").concat(u64_to_string(self.lines as u64).as_str()).concat(
            " lines of the application log file at ",
        ).concat(self.log_path.as_str()).concat(".")
    }

    pub fn mime_type(&self) -> (r: String)
        ensures
            r@ == "text/plain"@,
    {
        String::from_str("text/plain")
    }
}


/// One row of the resource listing.
pub open spec fn resource_row(
    uri: Seq<char>,
    name: Seq<char>,
    description: Seq<char>,
    mime: Seq<char>,
) -> JsonV {
    JsonV::Obj(
        seq![
            ("uri"@, JsonV::Str(uri)),
            ("name"@, JsonV::Str(name)),
            ("description"@, JsonV::Str(description)),
            ("mimeType"@, JsonV::Str(mime)),
        ],
    )
}

fn make_resource_row(uri: String, name: String, description: String, mime: String) -> (r:
    JsonValue)
    ensures
        r@ == resource_row(uri@, name@, description@, mime@),
{
    let ghost u = uri@;
    let ghost n = name@;
    let ghost d = description@;
    let ghost m = mime@;
    let mut entries: Vec<(String, JsonValue)> = Vec::new();
    entries.push((String::from_str("uri"), JsonValue::Str(uri)));
    entries.push((String::from_str("name"), JsonValue::Str(name)));
    entries.push((String::from_str("description"), JsonValue::Str(description)));
    entries.push((String::from_str("mimeType"), JsonValue::Str(mime)));
    let ghost es = entries@;
    let r = JsonValue::Obj(entries);
    proof {
        lemma_json_view_entries(es);
        assert(json_view_entries(es) =~= resource_row(u, n, d, m)->Obj_0);
    }
    r
}

/// The resource listing: one row per built-in resource, in ascending
/// order of their URIs.
pub fn resources_list_rows(logs: &RecentLogsResource) -> (r: Vec<JsonValue>)
    ensures
        r@.len() == 3,
        r@[0]@ == resource_row(
            "aria2://downloads/active"@,
            "Active Downloads"@,
            "List of currently active downloads."@,
            "application/json"@,
        ),
        r@[1]@ == resource_row(
            "aria2://logs/recent"@,
            "Recent Logs"@,
            "Last "@ + crate::strutil::dec_str(logs.lines as nat)
                + " lines of the application log file at "@ + logs.log_path@ + "."@,
            "text/plain"@,
        ),
        r@[2]@ == resource_row(
            "aria2://status/global"@,
            "Global Status"@,
            "Global statistics including download/upload speed and number of active/waiting/stopped downloads."@,
            "application/json"@,
        ),
{
    let active = ActiveDownloadsResource;
    let global = GlobalStatusResource;
    let mut out: Vec<JsonValue> = Vec::new();
    out.push(make_resource_row(
        active.uri(),
        active.name(),
        active.description(),
        active.mime_type(),
    ));
    out.push(make_resource_row(logs.uri(), logs.name(), logs.description(), logs.mime_type()));
    out.push(make_resource_row(
        global.uri(),
        global.name(),
        global.description(),
        global.mime_type(),
    ));
    out
}

/// The reply to one resource read: a single contents block carrying the
/// resource's URI, its media type, and the text that was read.
pub fn resource_contents(uri: &str, mime: &str, text: String) -> (r: JsonValue)
    ensures
        r@ == JsonV::Obj(
            seq![
                (
                    "contents"@,
                    JsonV::Arr(
                        seq![
                            JsonV::Obj(
                                seq![
                                    ("uri"@, JsonV::Str(uri@)),
                                    ("mimeType"@, JsonV::Str(mime@)),
                                    ("text"@, JsonV::Str(text@)),
                                ],
                            ),
                        ],
                    ),
                ),
            ],
        ),
{
    let ghost t = text@;
    let mut cell: Vec<(String, JsonValue)> = Vec::new();
    cell.push((String::from_str("uri"), JsonValue::of_str(uri)));
    cell.push((String::from_str("mimeType"), JsonValue::of_str(mime)));
    cell.push((String::from_str("text"), JsonValue::Str(text)));
    let ghost cs = cell@;
    let block = JsonValue::Obj(cell);
    proof {
        lemma_json_view_entries(cs);
        assert(json_view_entries(cs) =~= seq![
            ("uri"@, JsonV::Str(uri@)),
            ("mimeType"@, JsonV::Str(mime@)),
            ("text"@, JsonV::Str(t)),
        ]);
    }
    let mut items: Vec<JsonValue> = Vec::new();
    items.push(block);
    let ghost its = items@;
    let arr = JsonValue::Arr(items);
    proof {
        lemma_json_view_seq(its);
        assert(json_view_seq(its) =~= seq![
            JsonV::Obj(
                seq![
                    ("uri"@, JsonV::Str(uri@)),
                    ("mimeType"@, JsonV::Str(mime@)),
                    ("text"@, JsonV::Str(t)),
                ],
            ),
        ]);
    }
    let mut entries: Vec<(String, JsonValue)> = Vec::new();
    entries.push((String::from_str("contents"), arr));
    let ghost es = entries@;
    let r = JsonValue::Obj(entries);
    proof {
        lemma_json_view_entries(es);
        assert(json_view_entries(es) =~= seq![
            (
                "contents"@,
                JsonV::Arr(
                    seq![
                        JsonV::Obj(
                            seq![
                                ("uri"@, JsonV::Str(uri@)),
                                ("mimeType"@, JsonV::Str(mime@)),
                                ("text"@, JsonV::Str(t)),
                            ],
                        ),
                    ],
                ),
            ),
        ]);
    }
    r
}

/// Where the tail of `s[..end]` holding at most `n` lines starts,
/// scanning backwards from `i`.
pub open spec fn cut_point(s: Seq<char>, n: nat, i: int) -> int
    decreases i,
{
    if i <= 0 {
        0
    } else if s[i - 1] == '\n' {
        if n <= 1 {
            i
        } else {
            cut_point(s, (n - 1) as nat, i - 1)
        }
    } else {
        cut_point(s, n, i - 1)
    }
}

/// The last `n` lines of a text: one trailing line break is dropped,
/// and what follows the `n`th-from-last remaining line break is kept.
/// Zero lines are the empty text.
pub open spec fn tail_view(s: Seq<char>, n: nat) -> Seq<char> {
    if n == 0 {
        Seq::empty()
    } else {
        let end = if s.len() > 0 && s.last() == '\n' {
            s.len() - 1
        } else {
            s.len() as int
        };
        s.subrange(cut_point(s, n, end), end)
    }
}

/// Takes the last `lines` lines of a log's text.
pub fn tail_lines(text: &str, lines: usize) -> (r: String)
    ensures
        r@ == tail_view(text@, lines as nat),
{
    if lines == 0 {
        return String::new();
    }
    let len = text.unicode_len();
    let end: usize = if len > 0 && text.get_char(len - 1) == '\n' {
        len - 1
    } else {
        len
    };
    let mut i: usize = end;
    let mut remaining: usize = lines;
    while i > 0 && !(remaining <= 1 && text.get_char(i - 1) == '\n')
        invariant
            len == text@.len(),
            end <= len,
            i <= end,
            remaining <= lines,
            cut_point(text@, lines as nat, end as int) == cut_point(
                text@,
                remaining as nat,
                i as int,
            ),
        decreases i,
    {
        if text.get_char(i - 1) == '\n' {
            remaining = remaining - 1;
        }
        i -= 1;
    }
    let cut: usize = if i > 0 {
        i
    } else {
        0
    };
    proof {
        if i > 0 {
            assert(cut_point(text@, remaining as nat, i as int) == i);
        }
    }
    let out = substring_copy(text, cut, end);
    out
}

fn substring_copy(text: &str, from: usize, to: usize) -> (r: String)
    requires
        from <= to <= text@.len(),
    ensures
        r@ == text@.subrange(from as int, to as int),
{
    let slice = text.substring_char(from, to);
    slice.to_owned()
}

} // verus!
