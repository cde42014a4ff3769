//! Counting completed requests per protocol, and choosing how counts are exported.

use vstd::prelude::*;

verus! {

/// The transport a request came over.
#[derive(Clone, Copy, PartialEq, Eq, Structural, Debug)]
pub enum Protocol {
    Tcp,
    Udp,
}

/// Where request counts are exported to.
#[derive(Clone, Copy, PartialEq, Eq, Structural, Debug)]
pub enum Exporter {
    /// An OTLP collector over HTTP.
    Otlp,
    /// The process's standard output.
    Console,
    /// Nowhere: counting is a no-op for the outside world.
    Disabled,
}

/// A metrics exporter setting that names no known exporter.
#[derive(Clone, Debug, PartialEq, Eq)]
pub enum TelemetryError {
    UnsupportedExporter(String),
}

/// The exporter named by a setting; `None` when the setting is unknown.
pub open spec fn exporter_named(setting: Seq<char>) -> Option<Exporter> {
    if setting == "otlp"@ {
        Some(Exporter::Otlp)
    } else if setting == "console"@ {
        Some(Exporter::Console)
    } else if setting == "none"@ {
        Some(Exporter::Disabled)
    } else {
        None
    }
}

/// Completed requests, counted per protocol.
#[derive(Clone, Copy, PartialEq, Eq, Structural, Debug)]
pub struct RequestCounters {
    tcp: u64,
    udp: u64,
}

impl RequestCounters {
    /// Both counters at zero.
    pub fn new() -> (r: RequestCounters)
        ensures
            r.tcp_spec() == 0,
            r.udp_spec() == 0,
    {
        RequestCounters { tcp: 0, udp: 0 }
    }

    pub closed spec fn tcp_spec(&self) -> nat {
        self.tcp as nat
    }

    pub closed spec fn udp_spec(&self) -> nat {
        self.udp as nat
    }

    /// The counter of one protocol.
    pub open spec fn count_spec(&self, p: Protocol) -> nat {
        match p {
            Protocol::Tcp => self.tcp_spec(),
            Protocol::Udp => self.udp_spec(),
        }
    }

    /// Completed TCP requests.
    pub fn tcp(&self) -> (r: u64)
        ensures
            r == self.tcp_spec(),
    {
        self.tcp
    }

    /// Completed UDP requests.
    pub fn udp(&self) -> (r: u64)
        ensures
            r == self.udp_spec(),
    {
        self.udp
    }

    /// Completed requests over one protocol.
    pub fn count(&self, p: Protocol) -> (r: u64)
        ensures
            r == self.count_spec(p),
    {
        match p {
            Protocol::Tcp => self.tcp,
            Protocol::Udp => self.udp,
        }
    }
}

/// A counter after one more request: one higher, except that it stays at its
/// largest value.
pub open spec fn bumped(n: nat) -> nat {
    if n < u64::MAX {
        n + 1
    } else {
        n
    }
}

/// Counts one completed request over a protocol, leaving the other counter alone.
pub fn record_request(counters: &mut RequestCounters, p: Protocol)
    ensures
        final(counters).count_spec(p) == bumped(old(counters).count_spec(p)),
        forall|q: Protocol| q != p ==> final(counters).count_spec(q) == old(counters).count_spec(q),
{
    match p {
        Protocol::Tcp => record_tcp_request(counters),
        Protocol::Udp => record_udp_request(counters),
    }
}

/// Counts one completed TCP request.
pub fn record_tcp_request(counters: &mut RequestCounters)
    ensures
        final(counters).tcp_spec() == bumped(old(counters).tcp_spec()),
        final(counters).udp_spec() == old(counters).udp_spec(),
{
    counters.tcp = counters.tcp.saturating_add(1);
}

/// Counts one completed UDP request.
pub fn record_udp_request(counters: &mut RequestCounters)
    ensures
        final(counters).udp_spec() == bumped(old(counters).udp_spec()),
        final(counters).tcp_spec() == old(counters).tcp_spec(),
{
    counters.udp = counters.udp.saturating_add(1);
}

/// Telemetry as set up at startup: the chosen exporter and fresh counters.
#[derive(Clone, Copy, PartialEq, Eq, Structural, Debug)]
pub struct Telemetry {
    pub exporter: Exporter,
    pub counters: RequestCounters,
}

fn is_setting(setting: &str, name: &str) -> (r: bool)
    ensures
        r == (setting@ == name@),
{
    String::from_str(setting) == String::from_str(name)
}

/// Sets up telemetry from the metrics exporter setting, if one is given. No
/// setting means OTLP; an unknown one is refused.
pub fn init(setting: Option<&str>) -> (r: Result<Telemetry, TelemetryError>)
    ensures
        match setting {
            None => r matches Ok(t) && t.exporter == Exporter::Otlp,
            Some(s) => match exporter_named(s@) {
                Some(e) => r matches Ok(t) && t.exporter == e,
                None => r matches Err(TelemetryError::UnsupportedExporter(name)) && name@ == s@,
            },
        },
        r matches Ok(t) ==> t.counters.tcp_spec() == 0 && t.counters.udp_spec() == 0,
{
    let exporter = match setting {
        None => Exporter::Otlp,
        Some(s) => {
            if is_setting(s, "otlp") {
                Exporter::Otlp
            } else if is_setting(s, "console") {
                Exporter::Console
            } else if is_setting(s, "none") {
                Exporter::Disabled
            } else {
                return Err(TelemetryError::UnsupportedExporter(String::from_str(s)));
            }
        },
    };
    Ok(Telemetry { exporter, counters: RequestCounters::new() })
}

} // verus!
