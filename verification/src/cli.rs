//! The command-line options of the server and the launch decision.

use vstd::prelude::*;

use crate::text::owned;

verus! {

/// The command-line options.
#[derive(Debug)]
pub struct Gateway {
    /// Address to bind.
    pub host: String,
    /// Port to listen on.
    pub port: u16,
    /// Log level (trace, debug, info, warn, error).
    pub log_level: String,
    /// Verbose logging.
    pub verbose: bool,
    /// Run as a daemon.
    pub daemon: bool,
    /// PID file of the daemon.
    pub pid_file: String,
    /// Stop the running daemon.
    pub stop: bool,
}

impl Default for Gateway {
    fn default() -> (r: Self)
        ensures
            r.host@ == "0.0.0.0"@,
            r.port == 41218,
            r.log_level@ == "info"@,
            !r.verbose,
            !r.daemon,
            r.pid_file@ == "/tmp/com.rsweb/rsweb.pid"@,
            !r.stop,
    {
        Gateway {
            host: owned("0.0.0.0"),
            port: 41218,
            log_level: owned("info"),
            verbose: false,
            daemon: false,
            pid_file: owned("/tmp/com.rsweb/rsweb.pid"),
            stop: false,
        }
    }
}

/// What the program does with its options.
#[derive(Debug, Clone, Copy, PartialEq, Eq)]
pub enum LaunchPlan {
    /// Stop the running daemon and exit.
    StopDaemon,
    /// Detach as a daemon, then serve.
    DaemonizeThenServe,
    /// Serve in the foreground.
    Serve,
}

impl Gateway {
    /// The log level in force: "debug" when verbose, else the given level.
    pub fn effective_log_level(&self) -> (r: String)
        ensures
            self.verbose ==> r@ == "debug"@,
            !self.verbose ==> r@ == self.log_level@,
    {
        if self.verbose {
            owned("debug")
        } else {
            owned(self.log_level.as_str())
        }
    }

    /// Stopping takes precedence over daemon mode; without either, serve.
    pub fn launch_plan(&self) -> (r: LaunchPlan)
        ensures
            self.stop ==> r == LaunchPlan::StopDaemon,
            !self.stop && self.daemon ==> r == LaunchPlan::DaemonizeThenServe,
            !self.stop && !self.daemon ==> r == LaunchPlan::Serve,
    {
        if self.stop {
            LaunchPlan::StopDaemon
        } else if self.daemon {
            LaunchPlan::DaemonizeThenServe
        } else {
            LaunchPlan::Serve
        }
    }
}

} // verus!
