//! Targets: which services the init starts, and with which settings

use vstd::prelude::*;
use vstd::string::*;
use crate::text::{strings, opt_string};
use super::console::{Error, ErrorTrace, ErrorTraceView, traced};

verus! {

/// A target's configuration file, as read; every value may be missing
#[derive(Clone, Debug)]
pub struct Config {
    pub services: Option<Vec<String>>,
    pub hostname: Option<String>,
    pub debug_dump: Option<bool>,
    pub service_timeout: Option<u64>,
}

/// The target the init runs
#[allow(non_snake_case)]
#[derive(Clone, Debug)]
pub struct Target {
    /// The name of the currently used target
    pub name: String,
    /// All the services that will be ran
    pub services: Vec<String>,
    /// The system's hostname, `localhost` when not set
    pub hostname: String,
    /// Store kickit's run assets in permanent storage for debugging
    pub debugDump: bool,
    /// How many seconds the init waits for a RunOnce service (5 when not set)
    pub serviceTimeout: u64,
}

/// The default settings of a target
pub const HOSTNAME: &'static str = "localhost";

pub const SERVICE_TIMEOUT_SEC: u64 = 5;

pub struct TargetView {
    pub name: Seq<char>,
    pub services: Seq<Seq<char>>,
    pub hostname: Seq<char>,
    pub debug_dump: bool,
    pub service_timeout: u64,
}

impl View for Target {
    type V = TargetView;

    open spec fn view(&self) -> TargetView {
        TargetView {
            name: self.name@,
            services: strings(self.services@),
            hostname: self.hostname@,
            debug_dump: self.debugDump,
            service_timeout: self.serviceTimeout,
        }
    }
}

/// The target a configuration gives: its services are required, the other
/// values fall back to their defaults
pub open spec fn spec_source(name: Seq<char>, config: Config) -> Result<TargetView, ErrorTraceView> {
    match config.services {
        None => Err(traced(Error::TargetMissingValue, "services missing from "@ + name)),
        Some(services) => Ok(
            TargetView {
                name,
                services: strings(services@),
                hostname: match config.hostname {
                    Some(h) => h@,
                    None => "localhost"@,
                },
                debug_dump: match config.debug_dump {
                    Some(d) => d,
                    None => false,
                },
                service_timeout: match config.service_timeout {
                    Some(t) => t,
                    None => 5,
                },
            },
        ),
    }
}

/// The target named `name`, from its configuration
///
/// # Errors
///
/// * No services are given (`TargetMissingValue`)
pub fn source(name: String, config: Config) -> (r: Result<Target, ErrorTrace>)
    ensures
        match r {
            Ok(t) => spec_source(name@, config) == Ok::<TargetView, ErrorTraceView>(t@),
            Err(e) => spec_source(name@, config) == Err::<TargetView, ErrorTraceView>(e@),
        },
{
    let ghost cfg = config;
    let services = match config.services {
        Some(s) => s,
        None => {
            let mut m = String::from_str("services missing from ");
            m.append(name.as_str());
            return Err(Error::TargetMissingValue.trace(m.as_str()));
        },
    };
    let hostname = match config.hostname {
        Some(h) => h,
        None => String::from_str(HOSTNAME),
    };
    let debug_dump = match config.debug_dump {
        Some(d) => d,
        None => false,
    };
    let timeout = match config.service_timeout {
        Some(t) => t,
        None => SERVICE_TIMEOUT_SEC,
    };
    Ok(Target { name, services, hostname, debugDump: debug_dump, serviceTimeout: timeout })
}

} // verus!
