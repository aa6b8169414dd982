//! Search across the queue: gathering tasks by status and filtering them
//! by a substring of their file paths, URIs or torrent name.
use vstd::prelude::*;
use vstd::string::*;

use crate::error::ToolError;
use crate::json::{json_view_seq, jv_get, lemma_json_view_seq, JsonV, JsonValue};
use crate::rpc::RpcRequest;
use crate::strutil::{lower_of, lowercase, seq_contains, str_contains, str_eq};
use crate::tools::{kv, prop_enum, prop_string, prop_string_array, schema_object_no_required,
    schema_shape};

verus! {

pub struct SearchDownloadsTool;

/// The arguments a `search_downloads` call carries.
#[derive(Debug)]
pub struct SearchDownloadsArgs {
    /// Substring to search for in filenames or URIs.
    pub query: Option<String>,
    /// Filter by status: active, waiting, paused, error, complete, removed.
    pub status: Option<String>,
    /// Keys to return for each match.
    pub keys: Option<Vec<String>>,
}

impl SearchDownloadsTool {
    pub fn name(&self) -> (r: String)
        ensures
            r@ == "search_downloads"@,
    {
        String::from_str("search_downloads")
    }

    pub fn description(&self) -> (r: String)
        ensures
            r@ == "Search and filter downloads by filename, URI, or status"@,
    {
        String::from_str("Search and filter downloads by filename, URI, or status")
    }

    pub fn schema(&self) -> (r: JsonValue)
        ensures
            schema_shape(r@),
            crate::json::jv_get(r@, "properties"@) matches Some(JsonV::Obj(ps))
                && ps.len() == 3 && ps[0].0 == "query"@ && ps[1].0 == "status"@ && ps[2].0 == "keys"@,
    {
        let statuses = vec!["active", "waiting", "paused", "error", "complete", "removed"];
        let mut props: Vec<(String, JsonValue)> = Vec::new();
        props.push(kv(
            "query",
            prop_string("Substring to search for in filenames or URIs"),
        ));
        props.push(kv("status", prop_enum("Filter by status", &statuses)));
        props.push(kv("keys", prop_string_array("Optional keys to return for each task")));
        let ghost pv = props@;
        let r = schema_object_no_required(props);
        proof {
            crate::json::lemma_json_view_entries(pv);
        }
        r
    }

    /// Parses a call's arguments; every field is optional.
    pub fn parse(&self, args: &JsonValue) -> (r: SearchDownloadsArgs)
        ensures
            opt_str(r.query) == crate::tools::str_field(args@, "query"@),
            opt_str(r.status) == crate::tools::str_field(args@, "status"@),
            match jv_get(args@, "keys"@) {
                Some(v) => {
                    if v matches JsonV::Arr(items) && crate::tools::string_items(items) is Some {
                        r.keys matches Some(ks) && Some(crate::tools::strings_view(ks@))
                            == crate::tools::string_items(v->Arr_0)
                    } else {
                        r.keys is None
                    }
                },
                None => r.keys is None,
            },
    {
        let query = match crate::tools::str_field_of(args, "query") {
            Some(s) => Some(s.to_owned()),
            None => None,
        };
        let status = match crate::tools::str_field_of(args, "status") {
            Some(s) => Some(s.to_owned()),
            None => None,
        };
        let keys = match args.get("keys") {
            Some(v) => crate::tools::collect_strings(v),
            None => None,
        };
        SearchDownloadsArgs { query, status, keys }
    }

    /// The listings a search gathers before filtering: one for the
    /// status family asked for, or all three when none (or an unknown
    /// one) is given. Waiting and stopped listings take the first 1000
    /// tasks.
    pub fn plan_requests(&self, args: &SearchDownloadsArgs) -> (r: Vec<RpcRequest>)
        ensures
            ({
                let ks = crate::tools::monitor_queue::keys_params(args.keys);
                let page = seq![JsonV::Int(0), JsonV::Int(1000)];
                match opt_str(args.status) {
                    Some(st) => {
                        if st == "active"@ {
                            r@.len() == 1 && r@[0].method@ == "aria2.tellActive"@
                                && json_view_seq(r@[0].params@) == ks
                        } else if st == "waiting"@ || st == "paused"@ {
                            r@.len() == 1 && r@[0].method@ == "aria2.tellWaiting"@
                                && json_view_seq(r@[0].params@) == page + ks
                        } else if st == "error"@ || st == "complete"@ || st == "removed"@ {
                            r@.len() == 1 && r@[0].method@ == "aria2.tellStopped"@
                                && json_view_seq(r@[0].params@) == page + ks
                        } else {
                            r@.len() == 3 && r@[0].method@ == "aria2.tellActive"@
                                && r@[1].method@ == "aria2.tellWaiting"@ && r@[2].method@
                                == "aria2.tellStopped"@ && json_view_seq(r@[0].params@) == ks
                                && json_view_seq(r@[1].params@) == page + ks && json_view_seq(
                                r@[2].params@,
                            ) == page + ks
                        }
                    },
                    None => r@.len() == 3 && r@[0].method@ == "aria2.tellActive"@ && r@[1].method@
                        == "aria2.tellWaiting"@ && r@[2].method@ == "aria2.tellStopped"@
                        && json_view_seq(r@[0].params@) == ks && json_view_seq(r@[1].params@)
                        == page + ks && json_view_seq(r@[2].params@) == page + ks,
                }
            }),
    {
        let mut out: Vec<RpcRequest> = Vec::new();
        let family: u8 = match &args.status {
            Some(st) => {
                if str_eq(st.as_str(), "active") {
                    0
                } else if str_eq(st.as_str(), "waiting") || str_eq(st.as_str(), "paused") {
                    1
                } else if str_eq(st.as_str(), "error") || str_eq(st.as_str(), "complete")
                    || str_eq(st.as_str(), "removed") {
                    2
                } else {
                    3
                }
            },
            None => 3,
        };
        if family == 0 || family == 3 {
            out.push(listing_request("aria2.tellActive", false, &args.keys));
        }
        if family == 1 || family == 3 {
            out.push(listing_request("aria2.tellWaiting", true, &args.keys));
        }
        if family == 2 || family == 3 {
            out.push(listing_request("aria2.tellStopped", true, &args.keys));
        }
        out
    }

    /// Keeps the downloads the search matches: by status when a status
    /// filter is given (`paused` meaning a paused waiting task), and by
    /// the query substring against file paths, URIs and the torrent
    /// name, compared in lower case.
    pub fn filter_downloads(&self, downloads: &Vec<JsonValue>, args: &SearchDownloadsArgs) -> (r:
        Vec<JsonValue>)
        ensures
            json_view_seq(r@) == filter_views(
                json_view_seq(downloads@),
                opt_str(args.status),
                lowered_query(args.query),
            ),
    {
        let ql: Option<String> = match &args.query {
            Some(q) => Some(lowercase(q.as_str())),
            None => None,
        };
        let ghost dviews = json_view_seq(downloads@);
        let ghost filt = opt_str(args.status);
        let ghost qspec = lowered_query(args.query);
        proof {
            lemma_json_view_seq(downloads@);
            assert(dviews.take(0) =~= Seq::<JsonV>::empty());
        }
        let n = downloads.len();
        let mut out: Vec<JsonValue> = Vec::new();
        let mut i: usize = 0;
        while i < n
            invariant
                n == downloads@.len(),
                i <= n,
                dviews == json_view_seq(downloads@),
                dviews.len() == n,
                forall|j: int| 0 <= j < n ==> dviews[j] == crate::json::json_view(downloads@[j]),
                filt == opt_str(args.status),
                qspec == lowered_query(args.query),
                opt_str(ql) == qspec,
                json_view_seq(out@) == filter_views(dviews.take(i as int), filt, qspec),
            decreases n - i,
        {
            proof {
                assert(dviews.take(i + 1).drop_last() =~= dviews.take(i as int));
                assert(dviews.take(i + 1).last() == dviews[i as int]);
            }
            let ghost pre = out@;
            if keep_exec(&downloads[i], &args.status, &ql) {
                out.push(downloads[i].deep_copy());
                proof {
                    lemma_json_view_seq(pre);
                    lemma_json_view_seq(out@);
                    assert(json_view_seq(out@) =~= json_view_seq(pre).push(dviews[i as int]));
                    assert(json_view_seq(out@) =~= filter_views(
                        dviews.take(i + 1),
                        filt,
                        qspec,
                    ));
                }
            }
            i += 1;
        }
        proof {
            assert(dviews.take(n as int) =~= dviews);
        }
        out
    }
}

fn listing_request(method: &str, paged: bool, keys: &Option<Vec<String>>) -> (r: RpcRequest)
    ensures
        r.method@ == method@,
        json_view_seq(r.params@) == if paged {
            seq![JsonV::Int(0), JsonV::Int(1000)]
        } else {
            Seq::<JsonV>::empty()
        } + crate::tools::monitor_queue::keys_params(*keys),
{
    let keys_vec = crate::tools::monitor_queue::keys_param_vec(keys);
    let mut params: Vec<JsonValue> = Vec::new();
    if paged {
        params.push(JsonValue::Int(0));
        params.push(JsonValue::Int(1000));
    }
    if let Some(kl) = keys_vec {
        params.push(kl);
    }
    let ghost ps = params@;
    let r = RpcRequest { method: String::from_str(method), params };
    proof {
        lemma_json_view_seq(ps);
        if paged {
            assert(json_view_seq(ps) =~= seq![JsonV::Int(0), JsonV::Int(1000)]
                + crate::tools::monitor_queue::keys_params(*keys));
        } else {
            assert(json_view_seq(ps) =~= Seq::<JsonV>::empty()
                + crate::tools::monitor_queue::keys_params(*keys));
        }
    }
    r
}

/// The view of an optional owned string.
pub open spec fn opt_str(o: Option<String>) -> Option<Seq<char>> {
    match o {
        Some(s) => Some(s@),
        None => None,
    }
}

/// The lowered form of the query, when one was given.
pub open spec fn lowered_query(q: Option<String>) -> Option<Seq<char>> {
    match q {
        Some(s) => Some(lower_of(s@)),
        None => None,
    }
}

/// A task's status word; a task without one reads as the empty word.
pub open spec fn status_of(item: JsonV) -> Seq<char> {
    match jv_get(item, "status"@) {
        Some(JsonV::Str(s)) => s,
        _ => Seq::empty(),
    }
}

/// A task's paused flag, read leniently: the string `"true"` or a true
/// boolean.
pub open spec fn paused_flag(item: JsonV) -> bool {
    match jv_get(item, "paused"@) {
        Some(JsonV::Str(s)) => s == "true"@,
        Some(JsonV::Bool(b)) => b,
        _ => false,
    }
}

/// Whether the status filter keeps a task: `paused` keeps the paused
/// waiting tasks, any other word the tasks bearing it.
pub open spec fn status_keeps(item: JsonV, filt: Option<Seq<char>>) -> bool {
    match filt {
        None => true,
        Some(f) => if f == "paused"@ {
            status_of(item) == "waiting"@ && paused_flag(item)
        } else {
            status_of(item) == f
        },
    }
}

/// Whether one URI entry carries the query, compared in lower case.
pub open spec fn uri_matches(u: JsonV, q: Seq<char>) -> bool {
    match jv_get(u, "uri"@) {
        Some(JsonV::Str(s)) => seq_contains(lower_of(s), q),
        _ => false,
    }
}

/// Whether a file entry's path carries the query.
pub open spec fn path_hit(f: JsonV, q: Seq<char>) -> bool {
    match jv_get(f, "path"@) {
        Some(JsonV::Str(p)) => seq_contains(lower_of(p), q),
        _ => false,
    }
}

/// Whether one of a file entry's URIs carries the query.
pub open spec fn uris_hit(f: JsonV, q: Seq<char>) -> bool {
    match jv_get(f, "uris"@) {
        Some(JsonV::Arr(us)) => exists|i: int| 0 <= i < us.len() && #[trigger] uri_matches(
            us[i],
            q,
        ),
        _ => false,
    }
}

/// Whether one file entry carries the query, in its path or one of its
/// URIs.
pub open spec fn file_matches(f: JsonV, q: Seq<char>) -> bool {
    path_hit(f, q) || uris_hit(f, q)
}

/// Whether any of a task's files carries the query.
pub open spec fn files_match(item: JsonV, q: Seq<char>) -> bool {
    match jv_get(item, "files"@) {
        Some(JsonV::Arr(fs)) => exists|i: int| 0 <= i < fs.len() && #[trigger] file_matches(
            fs[i],
            q,
        ),
        _ => false,
    }
}

/// Whether a task's torrent name carries the query.
pub open spec fn bt_matches(item: JsonV, q: Seq<char>) -> bool {
    match jv_get(item, "bittorrent"@) {
        Some(bt) => match jv_get(bt, "info"@) {
            Some(info) => match jv_get(info, "name"@) {
                Some(JsonV::Str(n)) => seq_contains(lower_of(n), q),
                _ => false,
            },
            _ => false,
        },
        _ => false,
    }
}

/// Whether the search keeps a task: its status filter must keep it,
/// and, when a query is given, some file path, URI or the torrent name
/// must carry the query.
pub open spec fn keep(item: JsonV, filt: Option<Seq<char>>, q: Option<Seq<char>>) -> bool {
    &&& status_keeps(item, filt)
    &&& match q {
        Some(needle) => files_match(item, needle) || bt_matches(item, needle),
        None => true,
    }
}

/// The tasks the search keeps, in their incoming order.
pub open spec fn filter_views(
    items: Seq<JsonV>,
    filt: Option<Seq<char>>,
    q: Option<Seq<char>>,
) -> Seq<JsonV>
    decreases items.len(),
{
    if items.len() == 0 {
        Seq::empty()
    } else {
        filter_views(items.drop_last(), filt, q) + if keep(items.last(), filt, q) {
            seq![items.last()]
        } else {
            Seq::<JsonV>::empty()
        }
    }
}

pub(crate) fn status_of_exec(item: &JsonValue) -> (r: String)
    ensures
        r@ == status_of(item@),
{
    match item.get("status") {
        Some(v) => match v.as_str() {
            Some(s) => s.to_owned(),
            None => String::new(),
        },
        None => String::new(),
    }
}

fn status_keeps_exec(item: &JsonValue, filt: &Option<String>) -> (r: bool)
    ensures
        r == status_keeps(item@, opt_str(*filt)),
{
    let f = match filt {
        Some(f) => f,
        None => {
            return true;
        },
    };
    let st = status_of_exec(item);
    if str_eq(f.as_str(), "paused") {
        if !str_eq(st.as_str(), "waiting") {
            return false;
        }
        match item.get("paused") {
            Some(v) => match v {
                JsonValue::Str(s) => str_eq(s.as_str(), "true"),
                JsonValue::Bool(b) => *b,
                _ => false,
            },
            None => false,
        }
    } else {
        str_eq(st.as_str(), f.as_str())
    }
}

fn uri_matches_exec(u: &JsonValue, q: &str) -> (r: bool)
    ensures
        r == uri_matches(u@, q@),
{
    match u.get("uri") {
        Some(v) => match v.as_str() {
            Some(s) => {
                let lowered = lowercase(s);
                str_contains(lowered.as_str(), q)
            },
            None => false,
        },
        None => false,
    }
}

#[verifier::loop_isolation(false)]
fn file_matches_exec(f: &JsonValue, q: &str) -> (r: bool)
    ensures
        r == file_matches(f@, q@),
{
    let path_found = match f.get("path") {
        Some(v) => match v.as_str() {
            Some(p) => {
                let lowered = lowercase(p);
                str_contains(lowered.as_str(), q)
            },
            None => false,
        },
        None => false,
    };
    if path_found {
        assert(path_hit(f@, q@));
        return true;
    }
    match f.get("uris") {
        Some(v) => match v {
            JsonValue::Arr(us) => {
                proof {
                    lemma_json_view_seq(us@);
                }
                let n = us.len();
                let mut i: usize = 0;
                while i < n
                    invariant
                        n == us@.len(),
                        i <= n,
                        json_view_seq(us@).len() == n,
                        forall|j: int| 0 <= j < n ==> json_view_seq(us@)[j]
                            == crate::json::json_view(us@[j]),
                        forall|j: int| 0 <= j < i ==> !uri_matches(
                            #[trigger] json_view_seq(us@)[j],
                            q@,
                        ),
                    decreases n - i,
                {
                    if uri_matches_exec(&us[i], q) {
                        assert(uris_hit(f@, q@)) by {
                            let ws = jv_get(f@, "uris"@)->Some_0->Arr_0;
                            assert(ws == json_view_seq(us@));
                            assert(0 <= (i as int) && (i as int) < ws.len() && uri_matches(
                                ws[i as int],
                                q@,
                            ));
                        }
                        return true;
                    }
                    i += 1;
                }
                false
            },
            _ => false,
        },
        None => false,
    }
}

fn bt_matches_exec(item: &JsonValue, q: &str) -> (r: bool)
    ensures
        r == bt_matches(item@, q@),
{
    match item.get("bittorrent") {
        Some(bt) => match bt.get("info") {
            Some(info) => match info.get("name") {
                Some(v) => match v.as_str() {
                    Some(n) => {
                        let lowered = lowercase(n);
                        str_contains(lowered.as_str(), q)
                    },
                    None => false,
                },
                None => false,
            },
            None => false,
        },
        None => false,
    }
}

fn keep_exec(item: &JsonValue, filt: &Option<String>, ql: &Option<String>) -> (r: bool)
    ensures
        r == keep(item@, opt_str(*filt), opt_str(*ql)),
{
    if !status_keeps_exec(item, filt) {
        return false;
    }
    match ql {
        Some(q) => {
            if file_part_matches(item, q.as_str()) {
                true
            } else {
                bt_matches_exec(item, q.as_str())
            }
        },
        None => true,
    }
}

#[verifier::loop_isolation(false)]
fn file_part_matches(item: &JsonValue, q: &str) -> (r: bool)
    ensures
        r == files_match(item@, q@),
{
    match item.get("files") {
        Some(v) => match v {
            JsonValue::Arr(fs) => {
                proof {
                    lemma_json_view_seq(fs@);
                }
                let n = fs.len();
                let mut i: usize = 0;
                while i < n
                    invariant
                        n == fs@.len(),
                        i <= n,
                        json_view_seq(fs@).len() == n,
                        forall|j: int| 0 <= j < n ==> json_view_seq(fs@)[j]
                            == crate::json::json_view(fs@[j]),
                        forall|j: int| 0 <= j < i ==> !file_matches(
                            #[trigger] json_view_seq(fs@)[j],
                            q@,
                        ),
                    decreases n - i,
                {
                    if file_matches_exec(&fs[i], q) {
                        assert(files_match(item@, q@)) by {
                            let ws = jv_get(item@, "files"@)->Some_0->Arr_0;
                            assert(ws == json_view_seq(fs@));
                            assert(0 <= (i as int) && (i as int) < ws.len() && file_matches(
                                ws[i as int],
                                q@,
                            ));
                        }
                        return true;
                    }
                    i += 1;
                }
                false
            },
            _ => false,
        },
        None => false,
    }
}

} // verus!
