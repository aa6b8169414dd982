//! Bandwidth scheduling: resolving the active day/time window and the
//! per-tick decision that pushes a rate-limit change only on a profile
//! transition. Wall-clock times travel as `"HH:MM"` strings and are
//! modelled as minutes since midnight.
use vstd::prelude::*;
use vstd::string::*;

use crate::config::{BandwidthProfile, BandwidthSchedule, ProfileEntry};
use crate::strutil::{digit_val, is_digit, str_eq};

verus! {

/// True when `s` has the shape `HH:MM` with a valid hour and minute.
pub open spec fn valid_hhmm(s: Seq<char>) -> bool {
    &&& s.len() == 5
    &&& is_digit(s[0])
    &&& is_digit(s[1])
    &&& s[2] == ':'
    &&& is_digit(s[3])
    &&& is_digit(s[4])
    &&& digit_val(s[0]) * 10 + digit_val(s[1]) < 24
    &&& digit_val(s[3]) * 10 + digit_val(s[4]) < 60
}

/// The minute of the day that a valid `HH:MM` string denotes.
pub open spec fn hhmm_minutes(s: Seq<char>) -> nat {
    (digit_val(s[0]) * 10 + digit_val(s[1])) * 60 + digit_val(s[3]) * 10 + digit_val(s[4])
}

/// Window containment on minutes of the day. A window whose end lies
/// strictly below its start wraps past midnight; an end equal to the
/// start is an empty window. The start is inclusive and the end
/// exclusive either way.
pub open spec fn time_in_window(now: nat, start: nat, end: nat) -> bool {
    if start <= end {
        start <= now < end
    } else {
        now >= start || now < end
    }
}

/// True when schedule entry `e` covers the moment (`day`, `now`): its day
/// selector is `daily` or the current weekday, all three times are
/// well-formed, and the minute falls in the entry's window.
pub open spec fn entry_active(e: BandwidthSchedule, day: Seq<char>, now: Seq<char>) -> bool {
    &&& (e.day@ == "daily"@ || e.day@ == day)
    &&& valid_hhmm(now)
    &&& valid_hhmm(e.start_time@)
    &&& valid_hhmm(e.end_time@)
    &&& time_in_window(
        hhmm_minutes(now),
        hhmm_minutes(e.start_time@),
        hhmm_minutes(e.end_time@),
    )
}

/// The profile of the first entry that covers (`day`, `now`); entries are
/// walked in declaration order and the first match wins.
pub open spec fn first_active(
    schedules: Seq<BandwidthSchedule>,
    day: Seq<char>,
    now: Seq<char>,
) -> Option<Seq<char>>
    decreases schedules.len(),
{
    if schedules.len() == 0 {
        None
    } else if entry_active(schedules[0], day, now) {
        Some(schedules[0].profile_name@)
    } else {
        first_active(schedules.drop_first(), day, now)
    }
}

/// Parses an `HH:MM` string to its minute of the day; `None` exactly when
/// the string is not a well-formed time.
pub fn parse_hhmm(s: &str) -> (r: Option<u16>)
    ensures
        match r {
            Some(m) => valid_hhmm(s@) && m as nat == hhmm_minutes(s@),
            None => !valid_hhmm(s@),
        },
{
    if s.unicode_len() != 5 {
        return None;
    }
    let c0 = s.get_char(0);
    let c1 = s.get_char(1);
    let c2 = s.get_char(2);
    let c3 = s.get_char(3);
    let c4 = s.get_char(4);
    if c2 != ':' {
        return None;
    }
    if c0 < '0' || c0 > '9' || c1 < '0' || c1 > '9' || c3 < '0' || c3 > '9' || c4 < '0' || c4 > '9'
    {
        return None;
    }
    let hh: u16 = (c0 as u16 - '0' as u16) * 10 + (c1 as u16 - '0' as u16);
    let mm: u16 = (c3 as u16 - '0' as u16) * 10 + (c4 as u16 - '0' as u16);
    if hh >= 24 || mm >= 60 {
        return None;
    }
    Some(hh * 60 + mm)
}

fn in_window(now: u16, start: u16, end: u16) -> (r: bool)
    ensures
        r == time_in_window(now as nat, start as nat, end as nat),
{
    if start <= end {
        start <= now && now < end
    } else {
        now >= start || now < end
    }
}

fn entry_active_exec(e: &BandwidthSchedule, day: &str, now_min: u16, now: &str) -> (r: bool)
    requires
        valid_hhmm(now@),
        now_min as nat == hhmm_minutes(now@),
    ensures
        r == entry_active(*e, day@, now@),
{
    let day_ok = str_eq(e.day.as_str(), "daily") || str_eq(e.day.as_str(), day);
    if !day_ok {
        return false;
    }
    let start = match parse_hhmm(e.start_time.as_str()) {
        Some(m) => m,
        None => {
            return false;
        },
    };
    let end = match parse_hhmm(e.end_time.as_str()) {
        Some(m) => m,
        None => {
            return false;
        },
    };
    in_window(now_min, start, end)
}

/// Resolves the active schedule entry for the moment (`current_day`,
/// `current_time`) and returns its profile name: the first entry in
/// declaration order whose window covers the moment, `None` when no
/// entry does (also when `current_time` is not a well-formed `HH:MM`).
pub fn get_active_profile(
    current_day: &str,
    current_time: &str,
    schedules: &Vec<BandwidthSchedule>,
) -> (r: Option<String>)
    ensures
        match r {
            Some(p) => first_active(schedules@, current_day@, current_time@) == Some(p@),
            None => first_active(schedules@, current_day@, current_time@) is None,
        },
{
    let now_min = match parse_hhmm(current_time) {
        Some(m) => m,
        None => {
            proof {
                lemma_no_valid_now(schedules@, current_day@, current_time@);
            }
            return None;
        },
    };
    let n = schedules.len();
    let mut i: usize = 0;
    proof {
        assert(schedules@.skip(0) =~= schedules@);
    }
    while i < n
        invariant
            n == schedules@.len(),
            i <= n,
            valid_hhmm(current_time@),
            now_min as nat == hhmm_minutes(current_time@),
            first_active(schedules@, current_day@, current_time@) == first_active(
                schedules@.skip(i as int),
                current_day@,
                current_time@,
            ),
        decreases n - i,
    {
        assert(schedules@.skip(i as int)[0] == schedules@[i as int]);
        if entry_active_exec(&schedules[i], current_day, now_min, current_time) {
            return Some(schedules[i].profile_name.clone());
        }
        proof {
            assert(schedules@.skip(i as int).drop_first() =~= schedules@.skip(i + 1));
        }
        i += 1;
    }
    proof {
        assert(schedules@.skip(n as int) =~= Seq::<BandwidthSchedule>::empty());
    }
    None
}

proof fn lemma_no_valid_now(schedules: Seq<BandwidthSchedule>, day: Seq<char>, now: Seq<char>)
    requires
        !valid_hhmm(now),
    ensures
        first_active(schedules, day, now) is None,
    decreases schedules.len(),
{
    if schedules.len() > 0 {
        lemma_no_valid_now(schedules.drop_first(), day, now);
    }
}

/// When no entry covers the moment, resolution returns `None`.
pub proof fn lemma_no_match_resolves_none(
    schedules: Seq<BandwidthSchedule>,
    day: Seq<char>,
    now: Seq<char>,
)
    requires
        forall|i: int| 0 <= i < schedules.len() ==> !entry_active(#[trigger] schedules[i], day, now),
    ensures
        first_active(schedules, day, now) is None,
    decreases schedules.len(),
{
    if schedules.len() > 0 {
        assert(schedules.drop_first() =~= schedules.skip(1));
        assert(forall|i: int| 0 <= i < schedules.drop_first().len() ==> schedules.drop_first()[i]
            == schedules[i + 1]);
        lemma_no_match_resolves_none(schedules.drop_first(), day, now);
    }
}

/// When exactly one entry covers the moment, resolution returns that
/// entry's profile name.
pub proof fn lemma_unique_match_resolves(
    schedules: Seq<BandwidthSchedule>,
    day: Seq<char>,
    now: Seq<char>,
    k: int,
)
    requires
        0 <= k < schedules.len(),
        entry_active(schedules[k], day, now),
        forall|i: int| 0 <= i < schedules.len() && i != k ==> !entry_active(
            #[trigger] schedules[i],
            day,
            now,
        ),
    ensures
        first_active(schedules, day, now) == Some(schedules[k].profile_name@),
    decreases schedules.len(),
{
    if k == 0 {
    } else {
        assert(forall|i: int| 0 <= i < schedules.drop_first().len() ==> schedules.drop_first()[i]
            == schedules[i + 1]);
        lemma_unique_match_resolves(schedules.drop_first(), day, now, k - 1);
    }
}

/// The profile stored under `name`, when the table holds one; the first
/// entry with that name wins.
pub open spec fn lookup_profile(
    profiles: Seq<ProfileEntry>,
    name: Seq<char>,
) -> Option<BandwidthProfile>
    decreases profiles.len(),
{
    if profiles.len() == 0 {
        None
    } else if profiles[0].name@ == name {
        Some(profiles[0].profile)
    } else {
        lookup_profile(profiles.drop_first(), name)
    }
}

/// Finds the profile stored under `name`.
pub fn find_profile<'a>(profiles: &'a Vec<ProfileEntry>, name: &str) -> (r: Option<
    &'a BandwidthProfile,
>)
    ensures
        match r {
            Some(p) => lookup_profile(profiles@, name@) == Some(*p),
            None => lookup_profile(profiles@, name@) is None,
        },
{
    let n = profiles.len();
    let mut i: usize = 0;
    proof {
        assert(profiles@.skip(0) =~= profiles@);
    }
    while i < n
        invariant
            n == profiles@.len(),
            i <= n,
            lookup_profile(profiles@, name@) == lookup_profile(profiles@.skip(i as int), name@),
        decreases n - i,
    {
        assert(profiles@.skip(i as int)[0] == profiles@[i as int]);
        if str_eq(profiles[i].name.as_str(), name) {
            return Some(&profiles[i].profile);
        }
        proof {
            assert(profiles@.skip(i as int).drop_first() =~= profiles@.skip(i + 1));
        }
        i += 1;
    }
    proof {
        assert(profiles@.skip(n as int) =~= Seq::<ProfileEntry>::empty());
    }
    None
}

/// The profile table without any entry of the given name, order kept.
pub open spec fn drop_profile(ps: Seq<ProfileEntry>, name: Seq<char>) -> Seq<ProfileEntry>
    decreases ps.len(),
{
    if ps.len() == 0 {
        Seq::empty()
    } else if ps[0].name@ == name {
        drop_profile(ps.drop_first(), name)
    } else {
        seq![ps[0]] + drop_profile(ps.drop_first(), name)
    }
}

/// Dropping one name leaves every other name's profile as it was.
pub proof fn lemma_drop_profile_lookup(ps: Seq<ProfileEntry>, name: Seq<char>, k: Seq<char>)
    requires
        k != name,
    ensures
        lookup_profile(drop_profile(ps, name), k) == lookup_profile(ps, k),
    decreases ps.len(),
{
    if ps.len() == 0 {
    } else if ps[0].name@ == name {
        lemma_drop_profile_lookup(ps.drop_first(), name, k);
    } else {
        lemma_drop_profile_lookup(ps.drop_first(), name, k);
        assert(drop_profile(ps, name) == seq![ps[0]] + drop_profile(ps.drop_first(), name));
        assert(drop_profile(ps, name).len() > 0);
        assert(drop_profile(ps, name)[0] == ps[0]);
        assert(drop_profile(ps, name).drop_first() =~= drop_profile(ps.drop_first(), name));
    }
}

/// After dropping a name, it is gone.
pub proof fn lemma_drop_profile_none(ps: Seq<ProfileEntry>, name: Seq<char>)
    ensures
        lookup_profile(drop_profile(ps, name), name) is None,
    decreases ps.len(),
{
    if ps.len() == 0 {
    } else if ps[0].name@ == name {
        lemma_drop_profile_none(ps.drop_first(), name);
    } else {
        lemma_drop_profile_none(ps.drop_first(), name);
        assert(drop_profile(ps, name) == seq![ps[0]] + drop_profile(ps.drop_first(), name));
        assert(drop_profile(ps, name).len() > 0);
        assert(drop_profile(ps, name)[0] == ps[0]);
        assert(drop_profile(ps, name).drop_first() =~= drop_profile(ps.drop_first(), name));
    }
}

/// What an appended entry does to lookups: names found before stay as
/// they were, and the new entry answers for its own name otherwise.
pub proof fn lemma_lookup_push(ps: Seq<ProfileEntry>, e: ProfileEntry, k: Seq<char>)
    ensures
        lookup_profile(ps.push(e), k) == if lookup_profile(ps, k) is Some {
            lookup_profile(ps, k)
        } else if e.name@ == k {
            Some(e.profile)
        } else {
            None
        },
    decreases ps.len(),
{
    if ps.len() == 0 {
        assert(ps.push(e)[0] == e);
        assert(ps.push(e).drop_first() =~= Seq::<ProfileEntry>::empty());
        assert(lookup_profile(Seq::<ProfileEntry>::empty(), k) is None);
    } else {
        lemma_lookup_push(ps.drop_first(), e, k);
        assert(ps.push(e)[0] == ps[0]);
        assert(ps.push(e).drop_first() =~= ps.drop_first().push(e));
    }
}

/// Dropping a name from a longer table drops it from the front part and
/// keeps or drops the appended entry by its own name.
pub proof fn lemma_drop_profile_push(s: Seq<ProfileEntry>, e: ProfileEntry, name: Seq<char>)
    ensures
        drop_profile(s.push(e), name) == drop_profile(s, name) + if e.name@ == name {
            Seq::<ProfileEntry>::empty()
        } else {
            seq![e]
        },
    decreases s.len(),
{
    if s.len() == 0 {
        assert(s.push(e)[0] == e);
        assert(s.push(e).drop_first() =~= Seq::<ProfileEntry>::empty());
        assert(drop_profile(Seq::<ProfileEntry>::empty(), name) =~= Seq::<ProfileEntry>::empty());
        if e.name@ == name {
            assert(drop_profile(s.push(e), name) =~= drop_profile(s, name)
                + Seq::<ProfileEntry>::empty());
        } else {
            assert(drop_profile(s.push(e), name) =~= drop_profile(s, name) + seq![e]);
        }
    } else {
        lemma_drop_profile_push(s.drop_first(), e, name);
        assert(s.push(e)[0] == s[0]);
        assert(s.push(e).drop_first() =~= s.drop_first().push(e));
        if s[0].name@ == name {
        } else {
            assert(seq![s[0]] + (drop_profile(s.drop_first(), name) + if e.name@ == name {
                Seq::<ProfileEntry>::empty()
            } else {
                seq![e]
            }) =~= (seq![s[0]] + drop_profile(s.drop_first(), name)) + if e.name@ == name {
                Seq::<ProfileEntry>::empty()
            } else {
                seq![e]
            });
        }
    }
}

/// Removes every entry of the given name from the profile table, in
/// place, keeping the order of the rest.
pub fn remove_profile_entries(profiles: &mut Vec<ProfileEntry>, name: &str)
    ensures
        final(profiles)@ == drop_profile(old(profiles)@, name@),
{
    let ghost full = old(profiles)@;
    let mut i: usize = 0;
    let ghost mut j: int = 0;
    proof {
        assert(full.take(0) =~= Seq::<ProfileEntry>::empty());
        assert(drop_profile(full.take(0), name@) + full.skip(0) =~= full);
    }
    while i < profiles.len()
        invariant
            0 <= j <= full.len(),
            profiles@ == drop_profile(full.take(j), name@) + full.skip(j),
            i == drop_profile(full.take(j), name@).len(),
            i <= profiles@.len(),
        decreases full.len() - j,
    {
        proof {
            assert(full.skip(j)[0] == full[j]);
            assert(profiles@[i as int] == full[j]);
            assert(full.take(j + 1) =~= full.take(j).push(full[j]));
            lemma_drop_profile_push(full.take(j), full[j], name@);
        }
        if str_eq(profiles[i].name.as_str(), name) {
            profiles.remove(i);
            proof {
                assert(profiles@ =~= drop_profile(full.take(j + 1), name@) + full.skip(j + 1));
                j = j + 1;
            }
        } else {
            proof {
                assert(profiles@ =~= drop_profile(full.take(j + 1), name@) + full.skip(j + 1));
                j = j + 1;
            }
            i += 1;
        }
    }
    proof {
        assert(j == full.len()) by {
            if j < full.len() {
                assert(full.skip(j).len() > 0);
            }
        }
        assert(full.take(j) =~= full);
        assert(profiles@ =~= drop_profile(full, name@));
    }
}

/// The per-instance scheduler marker: the profile last pushed to the
/// instance, if any.
#[derive(Debug)]
pub struct SchedulerState {
    pub last_profile: Option<String>,
}

/// The name a marker holds, as a character sequence.
pub open spec fn marker_view(o: Option<String>) -> Option<Seq<char>> {
    match o {
        Some(s) => Some(s@),
        None => None,
    }
}

/// What one scheduler tick decides to do.
#[derive(Debug)]
pub enum TickDecision {
    /// Push one rate-limit change carrying the named profile's raw rate
    /// strings, unmodified.
    Activate { profile_name: String, max_download: String, max_upload: String },
    /// No entry covers the moment but a profile was active: forget the
    /// marker. Rate limits at the instance stay as last applied; nothing
    /// is pushed to restore a default.
    Clear,
    /// Nothing to do.
    Idle,
}

impl SchedulerState {
    /// A fresh marker: nothing activated yet.
    pub fn new() -> (r: SchedulerState)
        ensures
            r.last_profile is None,
    {
        SchedulerState { last_profile: None }
    }

    /// Decides one tick: resolve the active entry for (`day`, `now`) and
    /// compare it with the marker. A change is issued only when an entry
    /// matches, its profile differs from the marker, and the profile
    /// table holds that name; the decision then carries the profile's
    /// raw rate strings. With no match, the decision clears the marker
    /// if one is set.
    pub fn tick_decision(
        &self,
        profiles: &Vec<ProfileEntry>,
        schedules: &Vec<BandwidthSchedule>,
        day: &str,
        now: &str,
    ) -> (r: TickDecision)
        ensures
            match first_active(schedules@, day@, now@) {
                Some(active) => {
                    if marker_view(self.last_profile) == Some(active) {
                        r is Idle
                    } else {
                        match lookup_profile(profiles@, active) {
                            Some(p) => r matches TickDecision::Activate {
                                profile_name,
                                max_download,
                                max_upload,
                            } && profile_name@ == active && max_download@ == p.max_download@
                                && max_upload@ == p.max_upload@,
                            None => r is Idle,
                        }
                    }
                },
                None => if self.last_profile is Some {
                    r is Clear
                } else {
                    r is Idle
                },
            },
    {
        let active = get_active_profile(day, now, schedules);
        match active {
            Some(name) => {
                let same = match &self.last_profile {
                    Some(last) => str_eq(last.as_str(), name.as_str()),
                    None => false,
                };
                if same {
                    TickDecision::Idle
                } else {
                    match find_profile(profiles, name.as_str()) {
                        Some(p) => TickDecision::Activate {
                            max_download: p.max_download.clone(),
                            max_upload: p.max_upload.clone(),
                            profile_name: name,
                        },
                        None => TickDecision::Idle,
                    }
                }
            },
            None => {
                if self.last_profile.is_some() {
                    TickDecision::Clear
                } else {
                    TickDecision::Idle
                }
            },
        }
    }

    /// Commits the outcome of a tick: an activation that was pushed
    /// successfully records its profile; a failed push keeps the old
    /// marker, so the next tick retries; a clearing tick forgets it.
    pub fn commit(&mut self, decision: &TickDecision, pushed: bool)
        ensures
            match decision {
                TickDecision::Activate { profile_name, .. } => if pushed {
                    marker_view(final(self).last_profile) == Some(profile_name@)
                } else {
                    final(self).last_profile == old(self).last_profile
                },
                TickDecision::Clear => final(self).last_profile is None,
                TickDecision::Idle => final(self).last_profile == old(self).last_profile,
            },
    {
        match decision {
            TickDecision::Activate { profile_name, .. } => {
                if pushed {
                    self.last_profile = Some(profile_name.clone());
                }
            },
            TickDecision::Clear => {
                self.last_profile = None;
            },
            TickDecision::Idle => {},
        }
    }
}

} // verus!
