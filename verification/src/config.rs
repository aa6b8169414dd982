//! Static configuration: instances, transport, and the per-instance
//! bandwidth profiles and schedules that tool calls and the scheduler share.
use vstd::prelude::*;
use vstd::string::*;

verus! {

/// One configured backend endpoint.
#[derive(Debug, Clone)]
pub struct Aria2Instance {
    pub name: String,
    pub rpc_url: String,
    pub rpc_secret: Option<String>,
}

/// A named pair of download/upload rate limits, kept as the raw strings
/// that the daemon accepts (for example "10M" or "0" for unlimited).
#[derive(Debug, Clone)]
pub struct BandwidthProfile {
    pub max_download: String,
    pub max_upload: String,
}

/// A day-and-time window bound to a profile name. `day` is `"daily"` or a
/// weekday token `"mon"`..`"sun"`; the times are `"HH:MM"`. The window may
/// span midnight: an end below the start wraps to the next day.
#[derive(Debug, Clone)]
pub struct BandwidthSchedule {
    pub day: String,
    pub start_time: String,
    pub end_time: String,
    pub profile_name: String,
}

/// A profile under its name; the profile table keeps names unique.
#[derive(Debug, Clone)]
pub struct ProfileEntry {
    pub name: String,
    pub profile: BandwidthProfile,
}

/// How the serving side talks to the caller.
#[derive(Debug, Clone, Copy, PartialEq, Eq, Structural)]
pub enum TransportType {
    Stdio,
    Sse,
}

/// The process configuration. The legacy single-instance fields `rpc_url`
/// and `rpc_secret` stand beside the `instances` list; `normalize` folds
/// them into the list when it is empty.
#[derive(Debug, Clone)]
pub struct Config {
    pub rpc_url: String,
    pub rpc_secret: Option<String>,
    pub transport: TransportType,
    pub http_port: u16,
    pub http_auth_token: Option<String>,
    pub log_level: String,
    pub lazy_mode: bool,
    pub no_verify_ssl: bool,
    pub bandwidth_profiles: Vec<ProfileEntry>,
    pub bandwidth_schedules: Vec<BandwidthSchedule>,
    pub instances: Vec<Aria2Instance>,
}

/// Copies an optional string.
pub fn clone_opt_string(o: &Option<String>) -> (r: Option<String>)
    ensures
        r is Some <==> o is Some,
        r matches Some(s) ==> o matches Some(t) && s@ == t@,
{
    match o {
        Some(s) => Some(s.clone()),
        None => None,
    }
}

impl Config {
    /// The configuration used before any file, environment or argument
    /// override: one local instance named "default", stdio transport.
    pub fn fallback() -> (r: Config)
        ensures
            r.rpc_url@ == "http://localhost:6800/jsonrpc"@,
            r.rpc_secret is None,
            r.transport == TransportType::Stdio,
            r.http_port == 3000,
            r.http_auth_token is None,
            r.log_level@ == "info"@,
            r.lazy_mode == false,
            r.no_verify_ssl == true,
            r.bandwidth_profiles@.len() == 0,
            r.bandwidth_schedules@.len() == 0,
            r.instances@.len() == 1,
            r.instances@[0].name@ == "default"@,
            r.instances@[0].rpc_url@ == "http://localhost:6800/jsonrpc"@,
            r.instances@[0].rpc_secret is None,
    {
        let rpc_url = String::from_str("http://localhost:6800/jsonrpc");
        let mut instances: Vec<Aria2Instance> = Vec::new();
        instances.push(Aria2Instance {
            name: String::from_str("default"),
            rpc_url: rpc_url.clone(),
            rpc_secret: None,
        });
        Config {
            rpc_url,
            rpc_secret: None,
            transport: TransportType::Stdio,
            http_port: 3000,
            http_auth_token: None,
            log_level: String::from_str("info"),
            lazy_mode: false,
            no_verify_ssl: true,
            bandwidth_profiles: Vec::new(),
            bandwidth_schedules: Vec::new(),
            instances,
        }
    }

    /// A configuration for one instance at `rpc_url`, everything else as
    /// in `fallback`.
    pub fn new(rpc_url: String, rpc_secret: Option<String>) -> (r: Config)
        ensures
            r.rpc_url@ == rpc_url@,
            r.rpc_secret is Some <==> rpc_secret is Some,
            r.rpc_secret matches Some(s) ==> rpc_secret matches Some(t) && s@ == t@,
            r.transport == TransportType::Stdio,
            r.http_port == 3000,
            r.http_auth_token is None,
            r.log_level@ == "info"@,
            r.lazy_mode == false,
            r.no_verify_ssl == true,
            r.bandwidth_profiles@.len() == 0,
            r.bandwidth_schedules@.len() == 0,
            r.instances@.len() == 1,
            r.instances@[0].name@ == "default"@,
            r.instances@[0].rpc_url@ == rpc_url@,
            r.instances@[0].rpc_secret is Some <==> rpc_secret is Some,
            r.instances@[0].rpc_secret matches Some(s) ==> rpc_secret matches Some(t) && s@
                == t@,
    {
        let mut c = Config::fallback();
        let mut instances: Vec<Aria2Instance> = Vec::new();
        instances.push(Aria2Instance {
            name: String::from_str("default"),
            rpc_url: rpc_url.clone(),
            rpc_secret: clone_opt_string(&rpc_secret),
        });
        c.rpc_url = rpc_url;
        c.rpc_secret = rpc_secret;
        c.instances = instances;
        c
    }

    /// Folds the legacy single-instance fields into the instance list:
    /// when the list is empty, it becomes one instance named "default"
    /// with the legacy endpoint and secret; otherwise nothing changes.
    pub fn normalize(&mut self)
        ensures
            old(self).instances@.len() > 0 ==> *final(self) == *old(self),
            old(self).instances@.len() == 0 ==> {
                &&& final(self).instances@.len() == 1
                &&& final(self).instances@[0].name@ == "default"@
                &&& final(self).instances@[0].rpc_url@ == old(self).rpc_url@
                &&& (final(self).instances@[0].rpc_secret is Some <==> old(self).rpc_secret
                    is Some)
                &&& (final(self).instances@[0].rpc_secret matches Some(s) ==> old(
                    self,
                ).rpc_secret matches Some(t) && s@ == t@)
                &&& final(self).rpc_url == old(self).rpc_url
                &&& final(self).rpc_secret == old(self).rpc_secret
                &&& final(self).lazy_mode == old(self).lazy_mode
                &&& final(self).transport == old(self).transport
                &&& final(self).http_port == old(self).http_port
                &&& final(self).http_auth_token == old(self).http_auth_token
                &&& final(self).log_level == old(self).log_level
                &&& final(self).no_verify_ssl == old(self).no_verify_ssl
                &&& final(self).bandwidth_profiles == old(self).bandwidth_profiles
                &&& final(self).bandwidth_schedules == old(self).bandwidth_schedules
            },
    {
        if self.instances.len() == 0 {
            let instance = Aria2Instance {
                name: String::from_str("default"),
                rpc_url: self.rpc_url.clone(),
                rpc_secret: clone_opt_string(&self.rpc_secret),
            };
            self.instances.push(instance);
            assert(self.instances@.len() == 1);
        } else {
            assert(*self == *old(self));
        }
    }
}

impl Default for Config {
    /// The same configuration as `fallback`.
    fn default() -> (r: Config)
        ensures
            r.rpc_url@ == "http://localhost:6800/jsonrpc"@,
            r.rpc_secret is None,
            r.transport == TransportType::Stdio,
            r.http_port == 3000,
            r.http_auth_token is None,
            r.log_level@ == "info"@,
            r.lazy_mode == false,
            r.no_verify_ssl == true,
            r.instances@.len() == 1,
    {
        Config::fallback()
    }
}

} // verus!
