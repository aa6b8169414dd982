//! Instance routing: resolving which backend of the fixed, ordered pool a
//! call targets, from the optional `instance` index in its arguments.
use vstd::prelude::*;

use crate::error::ToolError;
use crate::json::{jv_get, JsonV, JsonValue};

verus! {

/// The index a call's arguments ask for: the value of a non-negative
/// integer `instance` field, and the first client (index 0) otherwise.
pub open spec fn requested_instance(args: JsonV) -> int {
    match jv_get(args, "instance"@) {
        Some(JsonV::Int(n)) => if n >= 0 {
            n
        } else {
            0
        },
        _ => 0,
    }
}

/// True when the arguments carry an explicit, non-negative `instance`
/// index; such a call goes to that one instance instead of the tool's
/// own multi-instance behaviour.
pub open spec fn has_explicit_instance(args: JsonV) -> bool {
    match jv_get(args, "instance"@) {
        Some(JsonV::Int(n)) => n >= 0,
        _ => false,
    }
}

/// Resolves the target client index for a call against a pool of
/// `n_clients` clients: the requested index when it is in range, and
/// `InvalidInstanceIndex` otherwise. An absent or non-integer `instance`
/// field selects index 0, which is then out of range only for an empty
/// pool.
pub fn resolve_instance(args: &JsonValue, n_clients: usize) -> (r: Result<usize, ToolError>)
    ensures
        match r {
            Ok(i) => i == requested_instance(args@) && i < n_clients,
            Err(e) => e matches ToolError::InvalidInstanceIndex(i) && i == requested_instance(
                args@,
            ) && requested_instance(args@) >= n_clients,
        },
{
    let idx: u64 = match args.get("instance") {
        Some(v) => match v.as_u64() {
            Some(n) => n,
            None => 0,
        },
        None => 0,
    };
    if idx < n_clients as u64 {
        Ok(idx as usize)
    } else {
        Err(ToolError::InvalidInstanceIndex(idx))
    }
}

/// Where a call goes: one resolved instance, or the tool's own
/// multi-instance behaviour.
#[derive(Debug)]
pub enum Target {
    Instance(usize),
    Fanout,
}

/// Routes a call: an explicit `instance` index sends it to that one
/// client (or fails when out of range); without one the tool's declared
/// multi-instance behaviour decides.
pub fn route_call(args: &JsonValue, n_clients: usize) -> (r: Result<Target, ToolError>)
    ensures
        match r {
            Ok(Target::Instance(i)) => has_explicit_instance(args@) && i == requested_instance(
                args@,
            ) && i < n_clients,
            Ok(Target::Fanout) => !has_explicit_instance(args@),
            Err(e) => has_explicit_instance(args@) && (e matches ToolError::InvalidInstanceIndex(
                i,
            ) && i == requested_instance(args@) && requested_instance(args@) >= n_clients),
        },
{
    let explicit: Option<u64> = match args.get("instance") {
        Some(v) => v.as_u64(),
        None => None,
    };
    match explicit {
        Some(idx) => {
            if idx < n_clients as u64 {
                Ok(Target::Instance(idx as usize))
            } else {
                Err(ToolError::InvalidInstanceIndex(idx))
            }
        },
        None => Ok(Target::Fanout),
    }
}

} // verus!
