//! Builders for the human-readable lines the host emits: the resolved
//! paths, spawn success and failure, and the greeting returned over the
//! host's command bridge. Building the text is pure string work and is
//! verified here; printing it is the host's business.

use vstd::prelude::*;
use vstd::string::StringExecFns;

verus! {

/// The progress line naming the entry script the server is started from.
pub fn entry_resolved_message(path: &str) -> (r: String)
    ensures
        r@ == "Starting Node.js server from: "@ + path@,
{
    let mut r = "Starting Node.js server from: ".to_owned();
    r.append(path);
    r
}

/// The progress line naming the resolved working directory.
pub fn work_dir_message(path: &str) -> (r: String)
    ensures
        r@ == "Working directory: "@ + path@,
{
    let mut r = "Working directory: ".to_owned();
    r.append(path);
    r
}

/// The line reporting a successful spawn.
pub fn start_success_message() -> (r: String)
    ensures
        r@ == "Node.js server started successfully"@,
{
    "Node.js server started successfully".to_owned()
}

/// The failure line recorded when the spawn fails, carrying the underlying
/// error's text.
pub fn start_failure_message(error: &str) -> (r: String)
    ensures
        r@ == "Failed to start Node.js server: "@ + error@,
{
    let mut r = "Failed to start Node.js server: ".to_owned();
    r.append(error);
    r
}

/// The greeting the host's command bridge returns for a name.
pub fn greeting(name: &str) -> (r: String)
    ensures
        r@ == "Hello, "@ + name@ + "! You've been greeted from Rust!"@,
{
    let mut r = "Hello, ".to_owned();
    r.append(name);
    r.append("! You've been greeted from Rust!");
    r
}

} // verus!
