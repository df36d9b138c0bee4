//! Helpers that plugin code uses to talk to the host runtime: diagnostic
//! logging, dependency announcements, and the literal path join against the
//! host's configured base path.

use std::io::Write;
use vstd::prelude::*;

verus! {

use vstd::string::StringExecFns;

/// Access to the host runtime for plugin code, mirroring the manager
/// interface the host provides natively.
pub struct PluginManager;

impl PluginManager {
    /// The exact line that `log` sends to the diagnostic stream: the fixed
    /// module tag followed by the message.
    pub fn log_line(msg: &str) -> (line: String)
        ensures
            line@ == "[PluMA/Rust] "@ + msg@,
    {
        let mut line = "[PluMA/Rust] ".to_owned();
        line.append(msg);
        line
    }

    /// Write a tagged message to the host's diagnostic stream.  Never fails:
    /// if the stream is unavailable the line is silently dropped.
    pub fn log(msg: &str) {
        let line = Self::log_line(msg);
        stderr_line(line.as_str());
    }

    /// The exact line that `dependency` reports for a named plugin.
    pub fn dependency_message(plugin: &str) -> (line: String)
        ensures
            line@ == "Checking dependency: "@ + plugin@,
    {
        let mut line = "Checking dependency: ".to_owned();
        line.append(plugin);
        line
    }

    /// Announce that the running plugin depends on another named plugin.
    /// The announcement is a diagnostic log line; nothing is enforced.
    pub fn dependency(plugin: &str) {
        let line = Self::dependency_message(plugin);
        Self::log(line.as_str());
    }

    /// Join the host's base path and a filename with a single separator.
    /// The join is literal: an empty prefix yields a leading slash, and
    /// nothing is normalized.
    pub fn add_prefix(prefix: &str, filename: &str) -> (joined: String)
        ensures
            joined@ == prefix@ + "/"@ + filename@,
    {
        let mut joined = prefix.to_owned();
        joined.append("/");
        joined.append(filename);
        joined
    }
}

/// Relies on std::io::Stderr: writes the line and a newline to the standard
/// error stream and discards any write error.
#[verifier::external_body]
fn stderr_line(line: &str) {
    let _ = writeln!(std::io::stderr(), "{}", line);
}

} // verus!
