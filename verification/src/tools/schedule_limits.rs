//! Bandwidth profile and schedule management: the tool that edits the
//! per-instance profile table and schedule list, and activates a named
//! profile by pushing its rate limits.
use vstd::prelude::*;
use vstd::string::*;

use crate::config::{BandwidthProfile, BandwidthSchedule, ProfileEntry};
use crate::error::ToolError;
use crate::json::{json_view_entries, json_view_seq, jv_get, lemma_json_view_entries,
    lemma_json_view_seq, JsonV, JsonValue};
use crate::scheduler::{drop_profile, lookup_profile, remove_profile_entries};
use crate::strutil::str_eq;
use crate::tools::{kv, prop_enum, prop_string, schema_object, schema_shape, str_arr,
    str_field, str_field_of, int_field, int_field_of};

verus! {

pub struct ScheduleLimitsTool;

impl ScheduleLimitsTool {
    pub fn name(&self) -> (r: String)
        ensures
            r@ == "schedule_limits"@,
    {
        String::from_str("schedule_limits")
    }

    pub fn description(&self) -> (r: String)
        ensures
            r@ == "Manage bandwidth speed profiles and schedules"@,
    {
        String::from_str("Manage bandwidth speed profiles and schedules")
    }

    pub fn schema(&self) -> (r: JsonValue)
        ensures
            schema_shape(r@),
            crate::json::jv_get(r@, "properties"@) matches Some(JsonV::Obj(ps))
                && ps.len() == 5 && ps[0].0 == "action"@ && ps[1].0 == "profile_name"@ && ps[2].0 == "max_download"@ && ps[3].0 == "max_upload"@ && ps[4].0 == "schedule"@,
    {
        let actions = vec!["list_profiles", "set_profile", "add_profile", "remove_profile",
            "list_schedules", "add_schedule", "remove_schedule"];
        let days = vec!["daily", "mon", "tue", "wed", "thu", "fri", "sat", "sun"];
        let mut sched_props: Vec<(String, JsonValue)> = Vec::new();
        sched_props.push(kv("day", prop_enum("Day of the week", &days)));
        sched_props.push(kv("start_time", prop_string("Start time in HH:MM format")));
        sched_props.push(kv("end_time", prop_string("End time in HH:MM format")));
        let sched_required = vec!["day", "start_time", "end_time"];
        let mut sched_entries: Vec<(String, JsonValue)> = Vec::new();
        sched_entries.push(kv("type", JsonValue::of_str("object")));
        sched_entries.push(kv("properties", JsonValue::Obj(sched_props)));
        sched_entries.push(kv("required", str_arr(&sched_required)));
        let mut props: Vec<(String, JsonValue)> = Vec::new();
        props.push(kv("action", prop_enum("The action to perform", &actions)));
        props.push(kv("profile_name", prop_string("The name of the speed profile")));
        props.push(kv(
            "max_download",
            prop_string("Max overall download limit (e.g., '1M', '500K', '0' for unlimited)"),
        ));
        props.push(kv("max_upload", prop_string("Max overall upload limit")));
        props.push(kv("schedule", JsonValue::Obj(sched_entries)));
        let required = vec!["action"];
        let ghost pv = props@;
        let r = schema_object(props, str_arr(&required));
        proof {
            crate::json::lemma_json_view_entries(pv);
        }
        r
    }
}

/// The rendering of one profile: its two raw rate strings.
pub open spec fn profile_json(p: BandwidthProfile) -> JsonV {
    JsonV::Obj(
        seq![
            ("max_download"@, JsonV::Str(p.max_download@)),
            ("max_upload"@, JsonV::Str(p.max_upload@)),
        ],
    )
}

/// The rendering of the profile table: one entry per profile, in table
/// order.
pub open spec fn profiles_json(ps: Seq<ProfileEntry>) -> JsonV {
    JsonV::Obj(Seq::new(ps.len(), |i: int| (ps[i].name@, profile_json(ps[i].profile))))
}

/// The rendering of one schedule entry.
pub open spec fn sched_json(s: BandwidthSchedule) -> JsonV {
    JsonV::Obj(
        seq![
            ("day"@, JsonV::Str(s.day@)),
            ("start_time"@, JsonV::Str(s.start_time@)),
            ("end_time"@, JsonV::Str(s.end_time@)),
            ("profile_name"@, JsonV::Str(s.profile_name@)),
        ],
    )
}

/// The rendering of the schedule list, in declaration order.
pub open spec fn schedules_json(ss: Seq<BandwidthSchedule>) -> JsonV {
    JsonV::Arr(Seq::new(ss.len(), |i: int| sched_json(ss[i])))
}

/// A `{"status": "success", "message": ...}` payload.
pub open spec fn success_json(msg: Seq<char>) -> JsonV {
    JsonV::Obj(seq![("status"@, JsonV::Str("success"@)), ("message"@, JsonV::Str(msg))])
}

fn success_payload(msg: String) -> (r: JsonValue)
    ensures
        r@ == success_json(msg@),
{
    let ghost m = msg@;
    let mut entries: Vec<(String, JsonValue)> = Vec::new();
    entries.push(kv("status", JsonValue::of_str("success")));
    entries.push((String::from_str("message"), JsonValue::Str(msg)));
    let ghost es = entries@;
    let r = JsonValue::Obj(entries);
    proof {
        lemma_json_view_entries(es);
        assert(json_view_entries(es) =~= success_json(m)->Obj_0);
    }
    r
}

fn profiles_payload(profiles: &Vec<ProfileEntry>) -> (r: JsonValue)
    ensures
        r@ == JsonV::Obj(seq![("profiles"@, profiles_json(profiles@))]),
{
    let n = profiles.len();
    let mut rows: Vec<(String, JsonValue)> = Vec::new();
    let mut i: usize = 0;
    while i < n
        invariant
            n == profiles@.len(),
            i <= n,
            rows@.len() == i,
            forall|j: int| 0 <= j < i ==> (#[trigger] rows@[j]).0@ == profiles@[j].name@
                && rows@[j].1@ == profile_json(profiles@[j].profile),
        decreases n - i,
    {
        let mut cells: Vec<(String, JsonValue)> = Vec::new();
        cells.push((
            String::from_str("max_download"),
            JsonValue::Str(profiles[i].profile.max_download.clone()),
        ));
        cells.push((
            String::from_str("max_upload"),
            JsonValue::Str(profiles[i].profile.max_upload.clone()),
        ));
        let ghost cs = cells@;
        let row = JsonValue::Obj(cells);
        proof {
            lemma_json_view_entries(cs);
            assert(json_view_entries(cs) =~= profile_json(profiles@[i as int].profile)->Obj_0);
        }
        rows.push((profiles[i].name.clone(), row));
        i += 1;
    }
    let ghost rs = rows@;
    let inner = JsonValue::Obj(rows);
    let mut entries: Vec<(String, JsonValue)> = Vec::new();
    entries.push((String::from_str("profiles"), inner));
    let ghost es = entries@;
    let r = JsonValue::Obj(entries);
    proof {
        lemma_json_view_entries(rs);
        assert(json_view_entries(rs) =~= profiles_json(profiles@)->Obj_0);
        lemma_json_view_entries(es);
        assert(json_view_entries(es) =~= seq![("profiles"@, profiles_json(profiles@))]);
    }
    r
}

fn schedules_payload(schedules: &Vec<BandwidthSchedule>) -> (r: JsonValue)
    ensures
        r@ == JsonV::Obj(seq![("schedules"@, schedules_json(schedules@))]),
{
    let n = schedules.len();
    let mut rows: Vec<JsonValue> = Vec::new();
    let mut i: usize = 0;
    while i < n
        invariant
            n == schedules@.len(),
            i <= n,
            rows@.len() == i,
            forall|j: int| 0 <= j < i ==> (#[trigger] rows@[j])@ == sched_json(schedules@[j]),
        decreases n - i,
    {
        let mut cells: Vec<(String, JsonValue)> = Vec::new();
        cells.push((String::from_str("day"), JsonValue::Str(schedules[i].day.clone())));
        cells.push((
            String::from_str("start_time"),
            JsonValue::Str(schedules[i].start_time.clone()),
        ));
        cells.push((
            String::from_str("end_time"),
            JsonValue::Str(schedules[i].end_time.clone()),
        ));
        cells.push((
            String::from_str("profile_name"),
            JsonValue::Str(schedules[i].profile_name.clone()),
        ));
        let ghost cs = cells@;
        let row = JsonValue::Obj(cells);
        proof {
            lemma_json_view_entries(cs);
            assert(json_view_entries(cs) =~= sched_json(schedules@[i as int])->Obj_0);
        }
        rows.push(row);
        i += 1;
    }
    let ghost rs = rows@;
    let inner = JsonValue::Arr(rows);
    let mut entries: Vec<(String, JsonValue)> = Vec::new();
    entries.push((String::from_str("schedules"), inner));
    let ghost es = entries@;
    let r = JsonValue::Obj(entries);
    proof {
        lemma_json_view_seq(rs);
        assert(json_view_seq(rs) =~= schedules_json(schedules@)->Arr_0);
        lemma_json_view_entries(es);
        assert(json_view_entries(es) =~= seq![("schedules"@, schedules_json(schedules@))]);
    }
    r
}

/// The acknowledgement a successful activation reports.
pub fn activated_response(profile_name: &str) -> (r: JsonValue)
    ensures
        r@ == success_json("Profile '"@ + profile_name@ + "' activated"@),
{
    let msg = String::from_str("Profile '").concat(profile_name).concat("' activated");
    success_payload(msg)
}

/// What one `schedule_limits` call comes to: a finished payload, or a
/// rate-limit activation that still has to be pushed to the instance.
#[derive(Debug)]
pub enum SlOutcome {
    /// The action is complete; this payload answers the caller.
    Done(JsonValue),
    /// Push one rate-limit change carrying these raw rate strings, then
    /// report the profile as activated.
    Activate { profile_name: String, max_download: String, max_upload: String },
}

impl ScheduleLimitsTool {
    /// Applies one call to the per-instance profile table and schedule
    /// list. Listing and editing actions finish here; `set_profile`
    /// resolves the named profile and hands back the rate limits to
    /// push. Every error case is exact: a missing `action` or missing
    /// required field, an unknown action, a schedule index past the
    /// list, a profile name the table does not hold.
    #[verifier::rlimit(60)]
    #[verifier::spinoff_prover]
    pub fn apply(
        &self,
        profiles: &mut Vec<ProfileEntry>,
        schedules: &mut Vec<BandwidthSchedule>,
        args: &JsonValue,
    ) -> (r: Result<SlOutcome, ToolError>)
        ensures
            match str_field(args@, "action"@) {
                None => r matches Err(e) && e is MissingArgument && final(profiles)@ == old(profiles)@ && final(schedules)@ == old(schedules)@,
                Some(a) => {
                    if a == "list_profiles"@ {
                        &&& final(profiles)@ == old(profiles)@
                        &&& final(schedules)@ == old(schedules)@
                        &&& r matches Ok(SlOutcome::Done(v)) && v@ == JsonV::Obj(
                            seq![("profiles"@, profiles_json(old(profiles)@))],
                        )
                    } else if a == "list_schedules"@ {
                        &&& final(profiles)@ == old(profiles)@
                        &&& final(schedules)@ == old(schedules)@
                        &&& r matches Ok(SlOutcome::Done(v)) && v@ == JsonV::Obj(
                            seq![("schedules"@, schedules_json(old(schedules)@))],
                        )
                    } else if a == "add_profile"@ {
                        match (
                            str_field(args@, "profile_name"@),
                            str_field(args@, "max_download"@),
                            str_field(args@, "max_upload"@),
                        ) {
                            (Some(pn), Some(dl), Some(ul)) => {
                                &&& final(schedules)@ == old(schedules)@
                                &&& final(profiles)@.len() == drop_profile(
                                    old(profiles)@,
                                    pn,
                                ).len() + 1
                                &&& final(profiles)@ == drop_profile(old(profiles)@, pn).push(
                                    final(profiles)@.last(),
                                )
                                &&& final(profiles)@.last().name@ == pn
                                &&& final(profiles)@.last().profile.max_download@ == dl
                                &&& final(profiles)@.last().profile.max_upload@ == ul
                                &&& r matches Ok(SlOutcome::Done(v)) && v@ == success_json(
                                    "Profile '"@ + pn + "' added"@,
                                )
                            },
                            _ => r matches Err(e) && e is MissingArgument && final(profiles)@
                                == old(profiles)@ && final(schedules)@ == old(schedules)@,
                        }
                    } else if a == "remove_profile"@ {
                        match str_field(args@, "profile_name"@) {
                            Some(pn) => {
                                &&& final(schedules)@ == old(schedules)@
                                &&& final(profiles)@ == drop_profile(old(profiles)@, pn)
                                &&& r matches Ok(SlOutcome::Done(v)) && v@ == success_json(
                                    "Profile '"@ + pn + "' removed"@,
                                )
                            },
                            None => r matches Err(e) && e is MissingArgument && final(profiles)@
                                == old(profiles)@ && final(schedules)@ == old(schedules)@,
                        }
                    } else if a == "add_schedule"@ {
                        match (str_field(args@, "profile_name"@), jv_get(args@, "schedule"@)) {
                            (Some(pn), Some(sv)) => {
                                match (
                                    str_field(sv, "day"@),
                                    str_field(sv, "start_time"@),
                                    str_field(sv, "end_time"@),
                                ) {
                                    (Some(day), Some(st), Some(et)) => {
                                        if lookup_profile(old(profiles)@, pn) is Some {
                                            &&& final(profiles)@ == old(profiles)@
                                            &&& final(schedules)@.len() == old(schedules)@.len()
                                                + 1
                                            &&& final(schedules)@ == old(schedules)@.push(
                                                final(schedules)@.last(),
                                            )
                                            &&& final(schedules)@.last().day@ == day
                                            &&& final(schedules)@.last().start_time@ == st
                                            &&& final(schedules)@.last().end_time@ == et
                                            &&& final(schedules)@.last().profile_name@ == pn
                                            &&& r matches Ok(SlOutcome::Done(v)) && v@
                                                == success_json("Schedule added"@)
                                        } else {
                                            &&& final(profiles)@ == old(profiles)@
                                            &&& final(schedules)@ == old(schedules)@
                                            &&& r matches Err(e) && (e matches
                                                ToolError::UnknownProfile(n) && n@ == pn)
                                        }
                                    },
                                    _ => r matches Err(e) && e is MissingArgument && final(profiles)@ == old(profiles)@ && final(schedules)@ == old(schedules)@,
                                }
                            },
                            _ => r matches Err(e) && e is MissingArgument && final(profiles)@
                                == old(profiles)@ && final(schedules)@ == old(schedules)@,
                        }
                    } else if a == "remove_schedule"@ {
                        match int_field(args@, "index"@) {
                            Some(idx) => {
                                if 0 <= idx < old(schedules)@.len() {
                                    &&& final(profiles)@ == old(profiles)@
                                    &&& final(schedules)@ == old(schedules)@.remove(idx)
                                    &&& r matches Ok(SlOutcome::Done(v)) && v@ == success_json(
                                        "Schedule removed"@,
                                    )
                                } else {
                                    &&& final(profiles)@ == old(profiles)@
                                    &&& final(schedules)@ == old(schedules)@
                                    &&& r matches Err(e) && e is ScheduleIndexOutOfBounds
                                }
                            },
                            None => r matches Err(e) && e is MissingArgument && final(profiles)@
                                == old(profiles)@ && final(schedules)@ == old(schedules)@,
                        }
                    } else if a == "set_profile"@ {
                        match str_field(args@, "profile_name"@) {
                            Some(pn) => {
                                &&& final(profiles)@ == old(profiles)@
                                &&& final(schedules)@ == old(schedules)@
                                &&& match lookup_profile(old(profiles)@, pn) {
                                    Some(p) => r matches Ok(SlOutcome::Activate {
                                        profile_name,
                                        max_download,
                                        max_upload,
                                    }) && profile_name@ == pn && max_download@ == p.max_download@
                                        && max_upload@ == p.max_upload@,
                                    None => r matches Err(e) && (e matches
                                        ToolError::UnknownProfile(n) && n@ == pn),
                                }
                            },
                            None => r matches Err(e) && e is MissingArgument && final(profiles)@
                                == old(profiles)@ && final(schedules)@ == old(schedules)@,
                        }
                    } else {
                        &&& final(profiles)@ == old(profiles)@
                        &&& final(schedules)@ == old(schedules)@
                        &&& r matches Err(e) && (e matches ToolError::InvalidAction(x) && x@ == a)
                    }
                },
            },
    {
        let action = match str_field_of(args, "action") {
            Some(a) => a,
            None => {
                return Err(
                    ToolError::MissingArgument(
                        String::from_str("Missing or invalid 'action' argument"),
                    ),
                );
            },
        };
        if str_eq(action, "list_profiles") {
            Ok(SlOutcome::Done(profiles_payload(profiles)))
        } else if str_eq(action, "list_schedules") {
            Ok(SlOutcome::Done(schedules_payload(schedules)))
        } else if str_eq(action, "add_profile") {
            let name = match str_field_of(args, "profile_name") {
                Some(s) => s,
                None => {
                    return Err(
                        ToolError::MissingArgument(String::from_str("Missing 'profile_name'")),
                    );
                },
            };
            let max_download = match str_field_of(args, "max_download") {
                Some(s) => s,
                None => {
                    return Err(
                        ToolError::MissingArgument(String::from_str("Missing 'max_download'")),
                    );
                },
            };
            let max_upload = match str_field_of(args, "max_upload") {
                Some(s) => s,
                None => {
                    return Err(
                        ToolError::MissingArgument(String::from_str("Missing 'max_upload'")),
                    );
                },
            };
            let entry = ProfileEntry {
                name: name.to_owned(),
                profile: BandwidthProfile {
                    max_download: max_download.to_owned(),
                    max_upload: max_upload.to_owned(),
                },
            };
            remove_profile_entries(profiles, name);
            profiles.push(entry);
            let msg = String::from_str("Profile '").concat(name).concat("' added");
            Ok(SlOutcome::Done(success_payload(msg)))
        } else if str_eq(action, "remove_profile") {
            let name = match str_field_of(args, "profile_name") {
                Some(s) => s,
                None => {
                    return Err(
                        ToolError::MissingArgument(String::from_str("Missing 'profile_name'")),
                    );
                },
            };
            remove_profile_entries(profiles, name);
            let msg = String::from_str("Profile '").concat(name).concat("' removed");
            Ok(SlOutcome::Done(success_payload(msg)))
        } else if str_eq(action, "add_schedule") {
            let name = match str_field_of(args, "profile_name") {
                Some(s) => s,
                None => {
                    return Err(
                        ToolError::MissingArgument(String::from_str("Missing 'profile_name'")),
                    );
                },
            };
            let sched_val = match args.get("schedule") {
                Some(v) => v,
                None => {
                    return Err(ToolError::MissingArgument(String::from_str("Missing 'schedule'")));
                },
            };
            let day = match str_field_of(sched_val, "day") {
                Some(s) => s,
                None => {
                    return Err(
                        ToolError::MissingArgument(String::from_str("Missing 'day' in schedule")),
                    );
                },
            };
            let start_time = match str_field_of(sched_val, "start_time") {
                Some(s) => s,
                None => {
                    return Err(
                        ToolError::MissingArgument(
                            String::from_str("Missing 'start_time' in schedule"),
                        ),
                    );
                },
            };
            let end_time = match str_field_of(sched_val, "end_time") {
                Some(s) => s,
                None => {
                    return Err(
                        ToolError::MissingArgument(
                            String::from_str("Missing 'end_time' in schedule"),
                        ),
                    );
                },
            };
            if crate::scheduler::find_profile(profiles, name).is_none() {
                return Err(ToolError::UnknownProfile(name.to_owned()));
            }
            let entry = BandwidthSchedule {
                day: day.to_owned(),
                start_time: start_time.to_owned(),
                end_time: end_time.to_owned(),
                profile_name: name.to_owned(),
            };
            schedules.push(entry);
            Ok(SlOutcome::Done(success_payload(String::from_str("Schedule added"))))
        } else if str_eq(action, "remove_schedule") {
            let idx = match int_field_of(args, "index") {
                Some(n) => n,
                None => {
                    return Err(
                        ToolError::MissingArgument(
                            String::from_str("Missing or invalid 'index'"),
                        ),
                    );
                },
            };
            if idx < 0 || idx as u64 >= schedules.len() as u64 {
                return Err(ToolError::ScheduleIndexOutOfBounds);
            }
            schedules.remove(idx as usize);
            Ok(SlOutcome::Done(success_payload(String::from_str("Schedule removed"))))
        } else if str_eq(action, "set_profile") {
            let name = match str_field_of(args, "profile_name") {
                Some(s) => s,
                None => {
                    return Err(
                        ToolError::MissingArgument(String::from_str("Missing 'profile_name'")),
                    );
                },
            };
            match crate::scheduler::find_profile(profiles, name) {
                Some(p) => Ok(
                    SlOutcome::Activate {
                        profile_name: name.to_owned(),
                        max_download: p.max_download.clone(),
                        max_upload: p.max_upload.clone(),
                    },
                ),
                None => Err(ToolError::UnknownProfile(name.to_owned())),
            }
        } else {
            Err(ToolError::InvalidAction(action.to_owned()))
        }
    }
}

} // verus!
