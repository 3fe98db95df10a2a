//! Server health: uptime since start, the registered tool count, and the
//! status those give.
use vstd::prelude::*;
use crate::text::{chars_of, dec, decimal, extend, extend_str, string_from, string_of};

verus! {

/// The health report.
#[derive(Debug)]
pub struct Output {
    pub status: String,
    pub uptime_seconds: u64,
    pub tools_registered: u32,
    pub version: String,
    pub name: String,
    pub timestamp: String,
    pub details: Option<HealthDetails>,
    pub error: Option<String>,
}

/// Details of a detailed report.
#[derive(Debug)]
pub struct HealthDetails {
    pub memory: MemoryInfo,
    pub filesystem: FileSystemInfo,
    pub system: SystemInfo,
    pub metrics: MetricsInfo,
}

/// Memory usage, as far as it is known.
#[derive(Debug)]
pub struct MemoryInfo {
    pub usage_description: String,
}

/// The working directory and whether it is writable.
#[derive(Debug)]
pub struct FileSystemInfo {
    pub current_directory: String,
    pub cwd_writable: bool,
}

/// The platform.
#[derive(Debug)]
pub struct SystemInfo {
    pub os: String,
    pub arch: String,
    pub cpu_cores: usize,
}

/// Timing of the check and the uptime in words.
#[derive(Debug)]
pub struct MetricsInfo {
    pub response_time_ms: u64,
    pub uptime_description: String,
}

/// The health state of the server: when it started (nanoseconds after the
/// Unix epoch) and how many tools it registered.
#[derive(Debug)]
pub struct Health {
    pub start_nanos: Option<u128>,
    pub tools_count: u32,
}

impl Health {
    /// State before initialization.
    /// The `health` tool's name.
    pub fn name() -> (r: &'static str)
        ensures
            r@ == "health"@,
    {
        "health"
    }

    /// The `health` tool's description.
    pub fn description() -> (r: &'static str)
        ensures
            r@ == "Get server health status and metrics"@,
    {
        "Get server health status and metrics"
    }

    pub fn new() -> (h: Health)
        ensures
            h.start_nanos is None,
            h.tools_count == 0,
    {
        Health { start_nanos: None, tools_count: 0 }
    }

    /// Record the start time, the first time only, and the tool count.
    pub fn initialize(&mut self, tools_count: u32, now_nanos: u128)
        ensures
            final(self).start_nanos == match old(self).start_nanos {
                Some(t) => Some(t),
                None => Some(now_nanos),
            },
            final(self).tools_count == tools_count,
    {
        if self.start_nanos.is_none() {
            self.start_nanos = Some(now_nanos);
        }
        self.tools_count = tools_count;
    }

    /// Whole seconds since the start; 0 before initialization or when the
    /// clock reads earlier than the start.
    pub fn get_uptime_seconds(&self, now_nanos: u128) -> (s: u64)
        ensures
            s == match self.start_nanos {
                Some(t) => if now_nanos >= t {
                    ((now_nanos - t) / 1_000_000_000) as u64
                } else {
                    0
                },
                None => 0,
            },
    {
        match self.start_nanos {
            Some(t) => if now_nanos >= t {
                ((now_nanos - t) / 1_000_000_000) as u64
            } else {
                0
            },
            None => 0,
        }
    }

    /// The registered tool count.
    pub fn get_tools_count(&self) -> (n: u32)
        ensures
            n == self.tools_count,
    {
        self.tools_count
    }
}

/// The status and the problems for a check: healthy with no problem,
/// degraded with one or two.
pub fn check_health(cwd_ok: bool, tools_count: u32) -> (r: (String, Option<String>))
    ensures
        cwd_ok && tools_count > 0 ==> r.0@ == "healthy"@ && r.1 is None,
        !cwd_ok && tools_count > 0 ==> r.0@ == "degraded"@ && (r.1 matches Some(e) && e@
            == "Cannot access current working directory"@),
        cwd_ok && tools_count == 0 ==> r.0@ == "degraded"@ && (r.1 matches Some(e) && e@
            == "No tools are registered"@),
        !cwd_ok && tools_count == 0 ==> r.0@ == "degraded"@ && (r.1 matches Some(e) && e@
            == "Cannot access current working directory; No tools are registered"@),
{
    if cwd_ok && tools_count > 0 {
        (string_from("healthy"), None)
    } else if !cwd_ok && tools_count > 0 {
        (string_from("degraded"), Some(string_from("Cannot access current working directory")))
    } else if cwd_ok {
        (string_from("degraded"), Some(string_from("No tools are registered")))
    } else {
        (
            string_from("degraded"),
            Some(string_from("Cannot access current working directory; No tools are registered")),
        )
    }
}

/// Uptime in words: seconds under a minute, whole minutes under an hour,
/// whole hours under a day, else whole days.
pub fn uptime_description(secs: u64) -> (r: String)
    ensures
        r@ == if secs < 60 {
            dec(secs as nat) + " seconds"@
        } else if secs < 3600 {
            dec((secs / 60) as nat) + " minutes"@
        } else if secs < 86400 {
            dec((secs / 3600) as nat) + " hours"@
        } else {
            dec((secs / 86400) as nat) + " days"@
        },
{
    let (n, unit) = if secs < 60 {
        (secs, " seconds")
    } else if secs < 3600 {
        (secs / 60, " minutes")
    } else if secs < 86400 {
        (secs / 3600, " hours")
    } else {
        (secs / 86400, " days")
    };
    let mut t = decimal(n);
    extend_str(&mut t, unit);
    string_of(t.as_slice())
}

} // verus!
