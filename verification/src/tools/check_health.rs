//! Health analysis of the queue and the local disk: stalled downloads,
//! failed downloads, and low disk space, summarized in one report.
use vstd::prelude::*;
use vstd::string::*;

use crate::json::{json_view_seq, jv_get, lemma_json_view_entries, lemma_json_view_seq, JsonV,
    JsonValue};
use crate::strutil::{all_digits, dec_str, dec_val, parse_u64, u64_to_string};
use crate::tools::{schema_object_no_required, schema_shape, str_field};
use crate::tools::search_downloads::status_of;

verus! {

/// One gibibyte; less free space than this counts as low.
pub const LOW_DISK_BYTES: u64 = 1073741824;

/// A numeric field read leniently, as the daemon reports numbers: a
/// digit string, or a non-negative integer; anything else reads as 0.
pub open spec fn num_field(item: JsonV, key: Seq<char>) -> nat {
    match jv_get(item, key) {
        Some(JsonV::Str(s)) => if s.len() > 0 && all_digits(s) && dec_val(s) <= u64::MAX {
            dec_val(s)
        } else {
            0
        },
        Some(JsonV::Int(n)) => if n >= 0 {
            n as nat
        } else {
            0
        },
        _ => 0,
    }
}

fn num_field_of(item: &JsonValue, key: &str) -> (r: u64)
    ensures
        r as nat == num_field(item@, key@),
{
    match item.get(key) {
        Some(v) => match v {
            JsonValue::Str(s) => match parse_u64(s.as_str()) {
                Some(n) => n,
                None => 0,
            },
            JsonValue::Int(n) => {
                if *n >= 0 {
                    *n as u64
                } else {
                    0
                }
            },
            _ => 0,
        },
        None => 0,
    }
}

/// A task's identifier, `unknown` when it carries none.
pub open spec fn gid_of(item: JsonV) -> Seq<char> {
    match str_field(item, "gid"@) {
        Some(g) => g,
        None => "unknown"@,
    }
}

fn gid_of_exec(item: &JsonValue) -> (r: String)
    ensures
        r@ == gid_of(item@),
{
    match crate::tools::str_field_of(item, "gid") {
        Some(g) => g.to_owned(),
        None => String::from_str("unknown"),
    }
}

/// True when an active task has neither peers nor speed.
pub open spec fn is_stalled(item: JsonV) -> bool {
    num_field(item, "connections"@) == 0 && num_field(item, "downloadSpeed"@) == 0
}

/// The issue row a stalled task adds.
pub open spec fn stalled_issue(item: JsonV) -> JsonV {
    JsonV::Obj(
        seq![
            ("type"@, JsonV::Str("stalled_download"@)),
            ("gid"@, JsonV::Str(gid_of(item))),
            (
                "message"@,
                JsonV::Str("Download "@ + gid_of(item) + " has 0 peers and 0 speed."@),
            ),
        ],
    )
}

/// The recommendation a stalled task adds.
pub open spec fn stalled_rec(item: JsonV) -> JsonV {
    JsonV::Str(
        "Consider adding more trackers to download "@ + gid_of(item)
            + " or check your network connection."@,
    )
}

/// True when a stopped task ended in an error.
pub open spec fn is_errored(item: JsonV) -> bool {
    status_of(item) == "error"@
}

/// A stopped task's error code, `unknown` when it carries none.
pub open spec fn err_code(item: JsonV) -> Seq<char> {
    match str_field(item, "errorCode"@) {
        Some(c) => c,
        None => "unknown"@,
    }
}

/// A stopped task's error message, with a fixed wording when absent.
pub open spec fn err_msg(item: JsonV) -> Seq<char> {
    match str_field(item, "errorMessage"@) {
        Some(m) => m,
        None => "No error message provided."@,
    }
}

/// The issue row a failed task adds.
pub open spec fn error_issue(item: JsonV) -> JsonV {
    JsonV::Obj(
        seq![
            ("type"@, JsonV::Str("download_error"@)),
            ("gid"@, JsonV::Str(gid_of(item))),
            (
                "message"@,
                JsonV::Str(
                    "Download "@ + gid_of(item) + " failed with error code "@ + err_code(item)
                        + ": "@ + err_msg(item),
                ),
            ),
        ],
    )
}

/// The recommendation a failed task adds.
pub open spec fn error_rec(item: JsonV) -> JsonV {
    JsonV::Str(
        "Check the error details for download "@ + gid_of(item) + " and retry if appropriate."@,
    )
}

/// The elements of an array value, and nothing for any other value.
pub open spec fn arr_of(v: JsonV) -> Seq<JsonV> {
    match v {
        JsonV::Arr(items) => items,
        _ => Seq::empty(),
    }
}

/// The issue rows the stalled tasks of a listing add, in order.
pub open spec fn stalled_issues(items: Seq<JsonV>) -> Seq<JsonV>
    decreases items.len(),
{
    if items.len() == 0 {
        Seq::empty()
    } else {
        stalled_issues(items.drop_last()) + if is_stalled(items.last()) {
            seq![stalled_issue(items.last())]
        } else {
            Seq::<JsonV>::empty()
        }
    }
}

/// The recommendations the stalled tasks of a listing add, in order.
pub open spec fn stalled_recs(items: Seq<JsonV>) -> Seq<JsonV>
    decreases items.len(),
{
    if items.len() == 0 {
        Seq::empty()
    } else {
        stalled_recs(items.drop_last()) + if is_stalled(items.last()) {
            seq![stalled_rec(items.last())]
        } else {
            Seq::<JsonV>::empty()
        }
    }
}

/// The issue rows the failed tasks of a listing add, in order.
pub open spec fn error_issues(items: Seq<JsonV>) -> Seq<JsonV>
    decreases items.len(),
{
    if items.len() == 0 {
        Seq::empty()
    } else {
        error_issues(items.drop_last()) + if is_errored(items.last()) {
            seq![error_issue(items.last())]
        } else {
            Seq::<JsonV>::empty()
        }
    }
}

/// The recommendations the failed tasks of a listing add, in order.
pub open spec fn error_recs(items: Seq<JsonV>) -> Seq<JsonV>
    decreases items.len(),
{
    if items.len() == 0 {
        Seq::empty()
    } else {
        error_recs(items.drop_last()) + if is_errored(items.last()) {
            seq![error_rec(items.last())]
        } else {
            Seq::<JsonV>::empty()
        }
    }
}

/// True when the measured free space counts as low.
pub open spec fn disk_low(disk: Option<u64>) -> bool {
    disk matches Some(a) && a < LOW_DISK_BYTES
}

/// The issue row low disk space adds: the message names the download
/// directory and the bytes still free.
pub open spec fn disk_issue(dir: Seq<char>, avail: nat) -> JsonV {
    JsonV::Obj(
        seq![
            ("type"@, JsonV::Str("low_disk_space"@)),
            (
                "message"@,
                JsonV::Str(
                    "Available disk space in "@ + dir + " is low: "@ + dec_str(avail)
                        + " bytes"@,
                ),
            ),
        ],
    )
}

/// Every issue one analysis finds: stalled tasks, failed tasks, then
/// low disk space.
pub open spec fn all_issues(
    active: JsonV,
    stopped: JsonV,
    disk: Option<u64>,
    dir: Seq<char>,
) -> Seq<JsonV> {
    stalled_issues(arr_of(active)) + error_issues(arr_of(stopped)) + if disk_low(disk) {
        seq![disk_issue(dir, disk->0 as nat)]
    } else {
        Seq::<JsonV>::empty()
    }
}

/// A statistics field as the summary reports it: a digit string kept,
/// a non-negative integer rendered in decimal, anything else null.
pub open spec fn summary_field(stats: JsonV, key: Seq<char>) -> JsonV {
    match jv_get(stats, key) {
        Some(JsonV::Str(s)) => JsonV::Str(s),
        Some(JsonV::Int(n)) => if n >= 0 {
            JsonV::Str(dec_str(n as nat))
        } else {
            JsonV::Null
        },
        _ => JsonV::Null,
    }
}

fn summary_field_of(stats: &JsonValue, key: &str) -> (r: JsonValue)
    ensures
        r@ == summary_field(stats@, key@),
{
    match stats.get(key) {
        Some(v) => match v {
            JsonValue::Str(s) => JsonValue::Str(s.clone()),
            JsonValue::Int(n) => {
                if *n >= 0 {
                    JsonValue::Str(u64_to_string(*n as u64))
                } else {
                    JsonValue::Null
                }
            },
            _ => JsonValue::Null,
        },
        None => JsonValue::Null,
    }
}

/// The report's summary: the five global counters and the free bytes.
pub open spec fn summary_json(stats: JsonV, disk: Option<u64>) -> JsonV {
    JsonV::Obj(
        seq![
            ("num_active"@, summary_field(stats, "numActive"@)),
            ("num_waiting"@, summary_field(stats, "numWaiting"@)),
            ("num_stopped"@, summary_field(stats, "numStopped"@)),
            ("download_speed"@, summary_field(stats, "downloadSpeed"@)),
            ("upload_speed"@, summary_field(stats, "uploadSpeed"@)),
            (
                "disk_available_bytes"@,
                JsonV::Str(
                    dec_str(
                        match disk {
                            Some(a) => a as nat,
                            None => 0,
                        },
                    ),
                ),
            ),
        ],
    )
}

/// The whole report: summary, issues, recommendations, and a status
/// that is `healthy` exactly when no issue was found.
pub open spec fn report_json(
    stats: JsonV,
    active: JsonV,
    stopped: JsonV,
    disk: Option<u64>,
    dir: Seq<char>,
) -> JsonV {
    let issues = all_issues(active, stopped, disk, dir);
    let recs = stalled_recs(arr_of(active)) + error_recs(arr_of(stopped)) + if disk_low(disk) {
        seq![JsonV::Str("Clean up completed downloads or increase disk space."@)]
    } else {
        Seq::<JsonV>::empty()
    };
    JsonV::Obj(
        seq![
            ("summary"@, summary_json(stats, disk)),
            ("issues"@, JsonV::Arr(issues)),
            ("recommendations"@, JsonV::Arr(recs)),
            (
                "status"@,
                JsonV::Str(
                    if issues.len() == 0 {
                        "healthy"@
                    } else {
                        "unhealthy"@
                    },
                ),
            ),
        ],
    )
}

pub struct CheckHealthTool;

impl CheckHealthTool {
    pub fn name(&self) -> (r: String)
        ensures
            r@ == "check_health"@,
    {
        String::from_str("check_health")
    }

    pub fn description(&self) -> (r: String)
        ensures
            r@ == "Check the health of the aria2 download queue and local system"@,
    {
        String::from_str("Check the health of the aria2 download queue and local system")
    }

    pub fn schema(&self) -> (r: JsonValue)
        ensures
            schema_shape(r@),
            crate::json::jv_get(r@, "properties"@) matches Some(JsonV::Obj(ps))
                && ps.len() == 0,
    {
        let props: Vec<(String, JsonValue)> = Vec::new();
        let ghost pv = props@;
        let r = schema_object_no_required(props);
        proof {
            crate::json::lemma_json_view_entries(pv);
        }
        r
    }

    /// Builds the health report from the gathered listings: one issue
    /// and one recommendation per stalled active task and per failed
    /// stopped task, one more pair when the free disk space under the
    /// download directory is low, the global counters summarized, and
    /// a status that is `healthy` exactly when no issue was found.
    pub fn analyze_health(
        &self,
        stats: &JsonValue,
        active: &JsonValue,
        stopped: &JsonValue,
        disk_available: Option<u64>,
        download_dir: &str,
    ) -> (r: JsonValue)
        ensures
            r@ == report_json(stats@, active@, stopped@, disk_available, download_dir@),
    {
        let mut issues: Vec<JsonValue> = Vec::new();
        let mut recs: Vec<JsonValue> = Vec::new();
        let ghost aviews = arr_of(active@);
        match active {
            JsonValue::Arr(items) => {
                proof {
                    lemma_json_view_seq(items@);
                    assert(aviews == json_view_seq(items@));
                    assert(aviews.take(0) =~= Seq::<JsonV>::empty());
                }
                let n = items.len();
                let mut i: usize = 0;
                while i < n
                    invariant
                        n == items@.len(),
                        i <= n,
                        aviews == json_view_seq(items@),
                        aviews.len() == n,
                        forall|j: int| 0 <= j < n ==> aviews[j] == crate::json::json_view(
                            items@[j],
                        ),
                        json_view_seq(issues@) == stalled_issues(aviews.take(i as int)),
                        json_view_seq(recs@) == stalled_recs(aviews.take(i as int)),
                    decreases n - i,
                {
                    proof {
                        assert(aviews.take(i + 1).drop_last() =~= aviews.take(i as int));
                        assert(aviews.take(i + 1).last() == aviews[i as int]);
                    }
                    let ghost pre_i = issues@;
                    let ghost pre_r = recs@;
                    let conns = num_field_of(&items[i], "connections");
                    let speed = num_field_of(&items[i], "downloadSpeed");
                    if conns == 0 && speed == 0 {
                        assert(is_stalled(aviews[i as int]));
                        issues.push(build_stalled_issue(&items[i]));
                        recs.push(build_stalled_rec(&items[i]));
                        proof {
                            lemma_json_view_seq(pre_i);
                            lemma_json_view_seq(issues@);
                            assert(json_view_seq(issues@) =~= json_view_seq(pre_i).push(
                                stalled_issue(aviews[i as int]),
                            ));
                            lemma_json_view_seq(pre_r);
                            lemma_json_view_seq(recs@);
                            assert(json_view_seq(recs@) =~= json_view_seq(pre_r).push(
                                stalled_rec(aviews[i as int]),
                            ));
                            assert(json_view_seq(issues@) =~= stalled_issues(aviews.take(i + 1)));
                            assert(json_view_seq(recs@) =~= stalled_recs(aviews.take(i + 1)));
                        }
                    } else {
                        assert(!is_stalled(aviews[i as int]));
                    }
                    i += 1;
                }
                proof {
                    assert(aviews.take(n as int) =~= aviews);
                }
            },
            _ => {
                proof {
                    assert(aviews =~= Seq::<JsonV>::empty());
                    assert(json_view_seq(issues@) =~= stalled_issues(aviews));
                    assert(json_view_seq(recs@) =~= stalled_recs(aviews));
                }
            },
        }
        proof {
            assert(json_view_seq(issues@) == stalled_issues(arr_of(active@)));
            assert(json_view_seq(recs@) == stalled_recs(arr_of(active@)));
        }
        let ghost sviews = arr_of(stopped@);
        let ghost base_i = issues@;
        let ghost base_r = recs@;
        match stopped {
            JsonValue::Arr(items) => {
                proof {
                    lemma_json_view_seq(items@);
                    assert(sviews == json_view_seq(items@));
                    assert(sviews.take(0) =~= Seq::<JsonV>::empty());
                    assert(json_view_seq(issues@) =~= json_view_seq(base_i) + error_issues(
                        sviews.take(0),
                    ));
                    assert(json_view_seq(recs@) =~= json_view_seq(base_r) + error_recs(
                        sviews.take(0),
                    ));
                }
                let n = items.len();
                let mut i: usize = 0;
                while i < n
                    invariant
                        n == items@.len(),
                        i <= n,
                        sviews == json_view_seq(items@),
                        sviews.len() == n,
                        forall|j: int| 0 <= j < n ==> sviews[j] == crate::json::json_view(
                            items@[j],
                        ),
                        json_view_seq(issues@) == json_view_seq(base_i) + error_issues(
                            sviews.take(i as int),
                        ),
                        json_view_seq(recs@) == json_view_seq(base_r) + error_recs(
                            sviews.take(i as int),
                        ),
                    decreases n - i,
                {
                    proof {
                        assert(sviews.take(i + 1).drop_last() =~= sviews.take(i as int));
                        assert(sviews.take(i + 1).last() == sviews[i as int]);
                    }
                    let ghost pre_i = issues@;
                    let ghost pre_r = recs@;
                    let st = crate::tools::search_downloads::status_of_exec(&items[i]);
                    if crate::strutil::str_eq(st.as_str(), "error") {
                        assert(is_errored(sviews[i as int]));
                        issues.push(build_error_issue(&items[i]));
                        recs.push(build_error_rec(&items[i]));
                        proof {
                            lemma_json_view_seq(pre_i);
                            lemma_json_view_seq(issues@);
                            assert(json_view_seq(issues@) =~= json_view_seq(pre_i).push(
                                error_issue(sviews[i as int]),
                            ));
                            lemma_json_view_seq(pre_r);
                            lemma_json_view_seq(recs@);
                            assert(json_view_seq(recs@) =~= json_view_seq(pre_r).push(
                                error_rec(sviews[i as int]),
                            ));
                            assert(json_view_seq(issues@) =~= json_view_seq(base_i)
                                + error_issues(sviews.take(i + 1)));
                            assert(json_view_seq(recs@) =~= json_view_seq(base_r) + error_recs(
                                sviews.take(i + 1),
                            ));
                        }
                    } else {
                        assert(!is_errored(sviews[i as int]));
                    }
                    i += 1;
                }
                proof {
                    assert(sviews.take(n as int) =~= sviews);
                }
            },
            _ => {
                proof {
                    assert(sviews =~= Seq::<JsonV>::empty());
                    assert(error_issues(sviews) =~= Seq::<JsonV>::empty());
                    assert(error_recs(sviews) =~= Seq::<JsonV>::empty());
                    assert(json_view_seq(issues@) =~= json_view_seq(base_i) + error_issues(
                        sviews,
                    ));
                    assert(json_view_seq(recs@) =~= json_view_seq(base_r) + error_recs(sviews));
                }
            },
        }
        let low = match disk_available {
            Some(a) => a < LOW_DISK_BYTES,
            None => false,
        };
        let ghost pre_disk_i = issues@;
        let ghost pre_disk_r = recs@;
        if low {
            let avail = match disk_available {
                Some(a) => a,
                None => 0,
            };
            issues.push(build_disk_issue(download_dir, avail));
            recs.push(JsonValue::of_str("Clean up completed downloads or increase disk space."));
            proof {
                lemma_json_view_seq(pre_disk_i);
                lemma_json_view_seq(issues@);
                lemma_json_view_seq(pre_disk_r);
                lemma_json_view_seq(recs@);
                assert(json_view_seq(issues@) =~= json_view_seq(pre_disk_i).push(
                    disk_issue(download_dir@, disk_available->0 as nat),
                ));
                assert(json_view_seq(recs@) =~= json_view_seq(pre_disk_r).push(
                    JsonV::Str("Clean up completed downloads or increase disk space."@),
                ));
            }
        }
        proof {
            if disk_low(disk_available) {
                assert(json_view_seq(issues@) =~= all_issues(
                    active@,
                    stopped@,
                    disk_available,
                    download_dir@,
                ));
                assert(json_view_seq(recs@) =~= stalled_recs(arr_of(active@)) + error_recs(
                    arr_of(stopped@),
                ) + seq![JsonV::Str("Clean up completed downloads or increase disk space."@)]);
            } else {
                assert(json_view_seq(issues@) + Seq::<JsonV>::empty() =~= json_view_seq(
                    issues@,
                ));
                assert(json_view_seq(issues@) =~= all_issues(
                    active@,
                    stopped@,
                    disk_available,
                    download_dir@,
                ));
                assert(json_view_seq(recs@) =~= stalled_recs(arr_of(active@)) + error_recs(
                    arr_of(stopped@),
                ) + Seq::<JsonV>::empty());
            }
        }
        let healthy = issues.len() == 0;
        proof {
            lemma_json_view_seq(issues@);
        }
        let status = if healthy {
            JsonValue::of_str("healthy")
        } else {
            JsonValue::of_str("unhealthy")
        };
        let mut summary_entries: Vec<(String, JsonValue)> = Vec::new();
        summary_entries.push((String::from_str("num_active"), summary_field_of(stats, "numActive")));
        summary_entries.push((
            String::from_str("num_waiting"),
            summary_field_of(stats, "numWaiting"),
        ));
        summary_entries.push((
            String::from_str("num_stopped"),
            summary_field_of(stats, "numStopped"),
        ));
        summary_entries.push((
            String::from_str("download_speed"),
            summary_field_of(stats, "downloadSpeed"),
        ));
        summary_entries.push((
            String::from_str("upload_speed"),
            summary_field_of(stats, "uploadSpeed"),
        ));
        let avail_bytes = match disk_available {
            Some(a) => a,
            None => 0,
        };
        summary_entries.push((
            String::from_str("disk_available_bytes"),
            JsonValue::Str(u64_to_string(avail_bytes)),
        ));
        let ghost ses = summary_entries@;
        let summary = JsonValue::Obj(summary_entries);
        proof {
            lemma_json_view_entries(ses);
            assert(crate::json::json_view_entries(ses) =~= summary_json(
                stats@,
                disk_available,
            )->Obj_0);
        }
        let mut entries: Vec<(String, JsonValue)> = Vec::new();
        entries.push((String::from_str("summary"), summary));
        entries.push((String::from_str("issues"), JsonValue::Arr(issues)));
        entries.push((String::from_str("recommendations"), JsonValue::Arr(recs)));
        entries.push((String::from_str("status"), status));
        let ghost es = entries@;
        let r = JsonValue::Obj(entries);
        proof {
            lemma_json_view_entries(es);
            assert(crate::json::json_view_entries(es) =~= report_json(
                stats@,
                active@,
                stopped@,
                disk_available,
                download_dir@,
            )->Obj_0);
        }
        r
    }
}

fn build_stalled_issue(item: &JsonValue) -> (r: JsonValue)
    ensures
        r@ == stalled_issue(item@),
{
    let gid = gid_of_exec(item);
    let msg = String::from_str("Download ").concat(gid.as_str()).concat(
        " has 0 peers and 0 speed.",
    );
    let mut entries: Vec<(String, JsonValue)> = Vec::new();
    entries.push((String::from_str("type"), JsonValue::of_str("stalled_download")));
    entries.push((String::from_str("gid"), JsonValue::Str(gid)));
    entries.push((String::from_str("message"), JsonValue::Str(msg)));
    let ghost es = entries@;
    let r = JsonValue::Obj(entries);
    proof {
        lemma_json_view_entries(es);
        assert(crate::json::json_view_entries(es) =~= stalled_issue(item@)->Obj_0);
    }
    r
}

fn build_stalled_rec(item: &JsonValue) -> (r: JsonValue)
    ensures
        r@ == stalled_rec(item@),
{
    let gid = gid_of_exec(item);
    let msg = String::from_str("Consider adding more trackers to download ").concat(
        gid.as_str(),
    ).concat(" or check your network connection.");
    JsonValue::Str(msg)
}

fn build_error_issue(item: &JsonValue) -> (r: JsonValue)
    ensures
        r@ == error_issue(item@),
{
    let gid = gid_of_exec(item);
    let code = match crate::tools::str_field_of(item, "errorCode") {
        Some(c) => c.to_owned(),
        None => String::from_str("unknown"),
    };
    let emsg = match crate::tools::str_field_of(item, "errorMessage") {
        Some(m) => m.to_owned(),
        None => String::from_str("No error message provided."),
    };
    let msg = String::from_str("Download ").concat(gid.as_str()).concat(
        " failed with error code ",
    ).concat(code.as_str()).concat(": ").concat(emsg.as_str());
    let mut entries: Vec<(String, JsonValue)> = Vec::new();
    entries.push((String::from_str("type"), JsonValue::of_str("download_error")));
    entries.push((String::from_str("gid"), JsonValue::Str(gid)));
    entries.push((String::from_str("message"), JsonValue::Str(msg)));
    let ghost es = entries@;
    let r = JsonValue::Obj(entries);
    proof {
        lemma_json_view_entries(es);
        assert(crate::json::json_view_entries(es) =~= error_issue(item@)->Obj_0);
    }
    r
}

fn build_error_rec(item: &JsonValue) -> (r: JsonValue)
    ensures
        r@ == error_rec(item@),
{
    let gid = gid_of_exec(item);
    let msg = String::from_str("Check the error details for download ").concat(gid.as_str())
        .concat(" and retry if appropriate.");
    JsonValue::Str(msg)
}

fn build_disk_issue(dir: &str, avail: u64) -> (r: JsonValue)
    ensures
        r@ == disk_issue(dir@, avail as nat),
{
    let msg = String::from_str("Available disk space in ").concat(dir).concat(" is low: ")
        .concat(u64_to_string(avail).as_str()).concat(" bytes");
    let mut entries: Vec<(String, JsonValue)> = Vec::new();
    entries.push((String::from_str("type"), JsonValue::of_str("low_disk_space")));
    entries.push((String::from_str("message"), JsonValue::Str(msg)));
    let ghost es = entries@;
    let r = JsonValue::Obj(entries);
    proof {
        lemma_json_view_entries(es);
        assert(crate::json::json_view_entries(es) =~= disk_issue(dir@, avail as nat)->Obj_0);
    }
    r
}

} // verus!
