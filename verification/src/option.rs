//! The export configuration and its validation.

use crate::error::{ConfigFault, InvalidConfig};
use crate::header::pairs_view;
use vstd::prelude::*;

verus! {

/// A span of time: whole seconds and a further number of nanoseconds.
#[derive(Clone, Copy, Debug, PartialEq, Eq, Structural)]
pub struct WriteInterval {
    pub secs: u64,
    pub nanos: u32,
}

impl WriteInterval {
    /// The span in nanoseconds.
    pub open spec fn total_nanos(self) -> nat {
        (self.secs * 1_000_000_000 + self.nanos) as nat
    }

    /// A span of `secs` whole seconds.
    pub fn from_secs(secs: u64) -> (interval: WriteInterval)
        ensures
            interval == (WriteInterval { secs, nanos: 0 }),
            interval.total_nanos() == secs * 1_000_000_000,
    {
        WriteInterval { secs, nanos: 0 }
    }

    /// Whether the span is empty.
    pub fn is_zero(&self) -> (zero: bool)
        ensures
            zero == (self.total_nanos() == 0),
    {
        self.secs == 0 && self.nanos == 0
    }
}

/// How, whether and where the process exports its own metrics.
#[derive(Debug, PartialEq, Eq)]
pub struct ExportMetricsOption {
    /// Whether metrics are exported at all.
    pub enable: bool,
    /// `host:port` of the remote-write endpoint; may be empty.
    pub endpoint: String,
    /// The database that receives the metrics.
    pub db: String,
    /// The time between two exports.
    pub write_interval: WriteInterval,
    /// Headers added to every request, as name and value. Where two entries
    /// give the same header name, the later one counts.
    pub headers: Vec<(String, String)>,
}

/// The mathematical form of an [`ExportMetricsOption`].
pub struct ExportConfig {
    pub enable: bool,
    pub endpoint: Seq<char>,
    pub db: Seq<char>,
    pub write_interval: WriteInterval,
    pub headers: Seq<(Seq<char>, Seq<char>)>,
}

impl View for ExportMetricsOption {
    type V = ExportConfig;

    open spec fn view(&self) -> ExportConfig {
        ExportConfig {
            enable: self.enable,
            endpoint: self.endpoint@,
            db: self.db@,
            write_interval: self.write_interval,
            headers: pairs_view(self.headers@),
        }
    }
}

/// The configuration in force where none is given: export switched off,
/// aimed at `127.0.0.1:4000` and the database `information_schema`, every 30
/// seconds, with no extra headers.
pub open spec fn default_config() -> ExportConfig {
    ExportConfig {
        enable: false,
        endpoint: "127.0.0.1:4000"@,
        db: "information_schema"@,
        write_interval: WriteInterval { secs: 30, nanos: 0 },
        headers: Seq::empty(),
    }
}

impl Default for ExportMetricsOption {
    /// The configuration in force where none is given.
    fn default() -> (option: ExportMetricsOption)
        ensures
            option@ == default_config(),
    {
        let option = ExportMetricsOption {
            enable: false,
            endpoint: String::from_str("127.0.0.1:4000"),
            db: String::from_str("information_schema"),
            write_interval: WriteInterval::from_secs(30),
            headers: Vec::new(),
        };
        assert(option@.headers =~= Seq::empty());
        option
    }
}

/// What validation makes of a configuration.
#[derive(Clone, Copy, Debug, PartialEq, Eq, Structural)]
pub enum Validity {
    /// Export is switched off: there is nothing to build.
    Disabled,
    /// Export is switched on, with a positive interval and a database name.
    Valid,
}

/// The outcome of validating `config`.
pub open spec fn validity(config: ExportConfig) -> Result<Validity, ConfigFault> {
    if !config.enable {
        Ok(Validity::Disabled)
    } else if config.write_interval.total_nanos() == 0 {
        Err(ConfigFault::ZeroWriteInterval)
    } else if config.db.len() == 0 {
        Err(ConfigFault::EmptyDb)
    } else {
        Ok(Validity::Valid)
    }
}

impl ExportMetricsOption {
    /// Checks the interval and the database name of an enabled configuration;
    /// a disabled one passes as it is.
    pub fn validate(&self) -> (outcome: Result<Validity, InvalidConfig>)
        ensures
            outcome is Ok <==> validity(self@) is Ok,
            outcome matches Ok(v) ==> validity(self@) == Ok::<Validity, ConfigFault>(v),
            outcome matches Err(e) ==> validity(self@) == Err::<Validity, ConfigFault>(e@),
    {
        if !self.enable {
            Ok(Validity::Disabled)
        } else if self.write_interval.is_zero() {
            Err(InvalidConfig::ZeroWriteInterval)
        } else if self.db.as_str().is_empty() {
            Err(InvalidConfig::EmptyDb)
        } else {
            Ok(Validity::Valid)
        }
    }
}

impl Clone for ExportMetricsOption {
    /// A copy that holds the same values.
    fn clone(&self) -> (copy: ExportMetricsOption)
        ensures
            copy@ == self@,
    {
        let mut headers: Vec<(String, String)> = Vec::new();
        let mut i: usize = 0;
        while i < self.headers.len()
            invariant
                i <= self.headers.len(),
                headers.len() == i,
                forall|j: int| 0 <= j < i ==> headers[j].0@ == self.headers[j].0@ && headers[j].1@ == self.headers[j].1@,
            decreases self.headers.len() - i,
        {
            headers.push((self.headers[i].0.clone(), self.headers[i].1.clone()));
            i += 1;
        }
        assert(pairs_view(headers@) =~= pairs_view(self.headers@));
        ExportMetricsOption {
            enable: self.enable,
            endpoint: self.endpoint.clone(),
            db: self.db.clone(),
            write_interval: self.write_interval,
            headers,
        }
    }
}

} // verus!
