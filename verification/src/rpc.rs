//! The remote-call model: building the request envelope for a named
//! operation, applying an instance's shared secret, and normalizing the
//! reply into a result or one of the three error kinds. The network
//! exchange itself happens outside; everything around it is stated here.
use vstd::prelude::*;
use vstd::string::*;

use crate::error::RpcError;
use crate::json::{json_view_seq, jv_get, lemma_json_view_seq, JsonV, JsonValue};

verus! {

/// One remote operation, ready to send: the method name and the caller's
/// positional arguments, without the secret.
#[derive(Debug)]
pub struct RpcRequest {
    pub method: String,
    pub params: Vec<JsonValue>,
}

/// Prepends the token argument when the instance defines a shared
/// secret; user arguments keep their order behind it.
pub fn apply_secret(secret: &Option<String>, params: Vec<JsonValue>) -> (r: Vec<JsonValue>)
    ensures
        match secret {
            Some(s) => json_view_seq(r@) == seq![JsonV::Str("token:"@ + s@)] + json_view_seq(
                params@,
            ),
            None => json_view_seq(r@) == json_view_seq(params@),
        },
{
    match secret {
        Some(s) => {
            let ghost pre = params@;
            let token = String::from_str("token:").concat(s.as_str());
            let tok_val = JsonValue::Str(token);
            let ghost tok_view = tok_val@;
            let mut out = params;
            out.insert(0, tok_val);
            proof {
                lemma_json_view_seq(out@);
                lemma_json_view_seq(pre);
                assert(tok_view == JsonV::Str("token:"@ + s@));
                assert(forall|i: int| 0 <= i < pre.len() ==> out@[i + 1] == pre[i]);
                assert(json_view_seq(out@) =~= seq![JsonV::Str("token:"@ + s@)] + json_view_seq(
                    pre,
                ));
            }
            out
        },
        None => params,
    }
}

/// The JSON-RPC 2.0 request envelope for `method` with `params`, under
/// the fixed request id this process uses.
pub fn build_request(method: &str, params: Vec<JsonValue>) -> (r: JsonValue)
    ensures
        r@ == JsonV::Obj(
            seq![
                ("jsonrpc"@, JsonV::Str("2.0"@)),
                ("id"@, JsonV::Str("aria2-mcp"@)),
                ("method"@, JsonV::Str(method@)),
                ("params"@, JsonV::Arr(json_view_seq(params@))),
            ],
        ),
{
    let ghost params_view = json_view_seq(params@);
    let mut entries: Vec<(String, JsonValue)> = Vec::new();
    entries.push((String::from_str("jsonrpc"), JsonValue::of_str("2.0")));
    entries.push((String::from_str("id"), JsonValue::of_str("aria2-mcp")));
    entries.push((String::from_str("method"), JsonValue::of_str(method)));
    entries.push((String::from_str("params"), JsonValue::Arr(params)));
    let ghost es = entries@;
    let r = JsonValue::Obj(entries);
    proof {
        crate::json::lemma_json_view_entries(es);
        assert(crate::json::json_view_entries(es) =~= seq![
            ("jsonrpc"@, JsonV::Str("2.0"@)),
            ("id"@, JsonV::Str("aria2-mcp"@)),
            ("method"@, JsonV::Str(method@)),
            ("params"@, JsonV::Arr(params_view)),
        ]);
    }
    r
}

/// The global rate-limit change for a pair of raw rate strings: the
/// options object carries them unmodified.
pub fn rate_limit_request(max_download: &str, max_upload: &str) -> (r: RpcRequest)
    ensures
        r.method@ == "aria2.changeGlobalOption"@,
        json_view_seq(r.params@) == seq![
            JsonV::Obj(
                seq![
                    ("max-overall-download-limit"@, JsonV::Str(max_download@)),
                    ("max-overall-upload-limit"@, JsonV::Str(max_upload@)),
                ],
            ),
        ],
{
    let mut entries: Vec<(String, JsonValue)> = Vec::new();
    entries.push((
        String::from_str("max-overall-download-limit"),
        JsonValue::of_str(max_download),
    ));
    entries.push((
        String::from_str("max-overall-upload-limit"),
        JsonValue::of_str(max_upload),
    ));
    let ghost es = entries@;
    let opts = JsonValue::Obj(entries);
    let mut params: Vec<JsonValue> = Vec::new();
    params.push(opts);
    let ghost ps = params@;
    let r = RpcRequest { method: String::from_str("aria2.changeGlobalOption"), params };
    proof {
        crate::json::lemma_json_view_entries(es);
        assert(crate::json::json_view_entries(es) =~= seq![
            ("max-overall-download-limit"@, JsonV::Str(max_download@)),
            ("max-overall-upload-limit"@, JsonV::Str(max_upload@)),
        ]);
        lemma_json_view_seq(ps);
        assert(json_view_seq(ps) =~= seq![
            JsonV::Obj(
                seq![
                    ("max-overall-download-limit"@, JsonV::Str(max_download@)),
                    ("max-overall-upload-limit"@, JsonV::Str(max_upload@)),
                ],
            ),
        ]);
    }
    r
}

/// The message a backend error object carries, when it carries one.
pub open spec fn remote_error_msg(e: JsonV) -> Seq<char> {
    match jv_get(e, "message"@) {
        Some(JsonV::Str(s)) => s,
        _ => Seq::empty(),
    }
}

/// Normalizes a reply: a reply carrying an `error` object is a
/// `Remote` error surfacing that object's message verbatim; otherwise
/// the `result` field is the outcome, and a reply without one has the
/// wrong shape.
pub fn normalize_reply(reply: &JsonValue) -> (r: Result<JsonValue, RpcError>)
    ensures
        match jv_get(reply@, "error"@) {
            Some(e) => r matches Err(RpcError::Remote(m)) && m@ == remote_error_msg(e),
            None => match jv_get(reply@, "result"@) {
                Some(v) => r matches Ok(res) && res@ == v,
                None => r matches Err(e) && e is Protocol,
            },
        },
{
    match reply.get("error") {
        Some(err) => {
            let msg = match err.get("message") {
                Some(m) => match m.as_str() {
                    Some(s) => s.to_owned(),
                    None => String::new(),
                },
                None => String::new(),
            };
            Err(RpcError::Remote(msg))
        },
        None => match reply.get("result") {
            Some(res) => Ok(res.deep_copy()),
            None => Err(RpcError::Protocol(String::from_str("reply carries no result"))),
        },
    }
}

/// The backend-assigned identifier from an add-task result: the result
/// must be a string.
pub fn extract_gid(result: &JsonValue) -> (r: Result<String, RpcError>)
    ensures
        match r {
            Ok(gid) => result@ == JsonV::Str(gid@),
            Err(e) => !(result@ is Str) && e is Protocol,
        },
{
    match result.as_str() {
        Some(s) => Ok(s.to_owned()),
        None => Err(RpcError::Protocol(String::from_str("Failed to get GID from response"))),
    }
}

/// The queue position from a reposition result: the result must be an
/// integer.
pub fn extract_position(result: &JsonValue) -> (r: Result<i64, RpcError>)
    ensures
        match r {
            Ok(pos) => result@ == JsonV::Int(pos as int),
            Err(e) => !(result@ is Int) && e is Protocol,
        },
{
    match result {
        JsonValue::Int(n) => Ok(*n),
        _ => Err(
            RpcError::Protocol(String::from_str("Failed to get new position from response")),
        ),
    }
}

/// The daemon version from a version result: the result must be an
/// object whose `version` field is a string.
pub fn extract_version(result: &JsonValue) -> (r: Result<String, RpcError>)
    ensures
        match r {
            Ok(v) => jv_get(result@, "version"@) == Some(JsonV::Str(v@)),
            Err(e) => !(jv_get(result@, "version"@) matches Some(x) && x is Str) && e is Protocol,
        },
{
    match result.get("version") {
        Some(v) => match v.as_str() {
            Some(s) => Ok(s.to_owned()),
            None => Err(
                RpcError::Protocol(String::from_str("Failed to get version from response")),
            ),
        },
        None => Err(RpcError::Protocol(String::from_str("Failed to get version from response"))),
    }
}

} // verus!
