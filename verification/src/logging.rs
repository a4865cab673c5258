//! The form of the library's log lines and where they are written.
use vstd::prelude::*;

verus! {

/// The `chrono` format of the time stamp that opens each log line.
pub const LOG_TIMESTAMP_FORMAT: &'static str = "[%Y-%m-%d][%H:%M:%S]";

/// The name of the log file in the daemon's log directory.
pub const LOG_FILE_NAME: &'static str = "jni.log";

/// A log line: the time stamp, then the target and the level in brackets,
/// a space, and the message.
pub fn format_log_line(timestamp: &str, target: &str, level: &str, message: &str) -> (r: String)
    ensures
        r@ == timestamp@ + "["@ + target@ + "]["@ + level@ + "] "@ + message@,
{
    let mut line = String::from_str(timestamp);
    line.append("[");
    line.append(target);
    line.append("][");
    line.append(level);
    line.append("] ");
    line.append(message);
    line
}

} // verus!
