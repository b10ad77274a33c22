//! Resolution of the companion server's entry script and working directory.
//!
//! The application ships in several physical layouts (development tree,
//! generic packaged bundle, macOS application bundle). The only run-time
//! signal distinguishing them is whether certain files exist relative to the
//! directory holding the running executable. The host probes those paths and
//! records the answers in a [`LayoutProbe`]; the resolver here is a pure
//! function from the executable's directory and that probe to the chosen
//! paths, so the choice itself is verified against the priority order.

use vstd::prelude::*;
use vstd::string::StringExecFns;

verus! {

/// Results of the filesystem existence probes that drive resolution.
///
/// Each field answers "does this file exist?" for one candidate location,
/// relative to the directory that holds the running executable:
/// - `entry_in_bundle`: `<exeDir>/../Resources/_up_/server.js`
/// - `entry_beside_exe`: `<exeDir>/server.js`
/// - `entry_in_dev_root`: `<exeDir>/../../server.js`
/// - `manifest_in_bundle`: `<exeDir>/../Resources/_up_/package.json`
/// - `manifest_in_dev_root`: `<exeDir>/../../package.json`
/// - `manifest_beside_exe`: `<exeDir>/package.json`
#[derive(Clone, Copy, PartialEq, Eq, Structural, Debug)]
pub struct LayoutProbe {
    pub entry_in_bundle: bool,
    pub entry_beside_exe: bool,
    pub entry_in_dev_root: bool,
    pub manifest_in_bundle: bool,
    pub manifest_in_dev_root: bool,
    pub manifest_beside_exe: bool,
}

/// The pair of paths the supervisor spawns with: the server entry script
/// and the working directory holding its runtime dependencies.
#[derive(Clone, Debug)]
pub struct ResolvedLayout {
    pub server_entry: String,
    pub work_dir: String,
}

/// `tail` appended under `dir` with a single separator, the way the paths
/// are assembled here; no normalization of `..` components takes place.
pub open spec fn joined(dir: Seq<char>, tail: Seq<char>) -> Seq<char> {
    dir + "/"@ + tail
}

/// The entry-script path the resolver must choose: the first existing
/// candidate in priority order (macOS bundle, beside the executable,
/// development root), else the unchecked last-resort relative path.
pub open spec fn server_entry_spec(exe_dir: Seq<char>, probe: LayoutProbe) -> Seq<char> {
    if probe.entry_in_bundle {
        joined(exe_dir, "../Resources/_up_/server.js"@)
    } else if probe.entry_beside_exe {
        joined(exe_dir, "server.js"@)
    } else if probe.entry_in_dev_root {
        joined(exe_dir, "../../server.js"@)
    } else {
        "../server.js"@
    }
}

/// The working directory the resolver must choose: the first location whose
/// manifest probe succeeded, in its own priority order (macOS bundle,
/// development root, beside the executable). The last two steps of the
/// probe order coincide in their result: whether or not a manifest sits
/// beside the executable, the fallback is the executable's directory.
pub open spec fn work_dir_spec(exe_dir: Seq<char>, probe: LayoutProbe) -> Seq<char> {
    if probe.manifest_in_bundle {
        joined(exe_dir, "../Resources/_up_"@)
    } else if probe.manifest_in_dev_root {
        joined(exe_dir, "../.."@)
    } else {
        exe_dir
    }
}

/// Appends `tail` under `dir` with a single separator.
pub fn join_under(dir: &str, tail: &str) -> (r: String)
    ensures
        r@ == joined(dir@, tail@),
{
    let mut r = dir.to_owned();
    r.append("/");
    r.append(tail);
    r
}

/// Picks the entry-script path for the layout the probe describes.
pub fn resolve_server_entry(exe_dir: &str, probe: &LayoutProbe) -> (r: String)
    ensures
        r@ == server_entry_spec(exe_dir@, *probe),
{
    if probe.entry_in_bundle {
        join_under(exe_dir, "../Resources/_up_/server.js")
    } else if probe.entry_beside_exe {
        join_under(exe_dir, "server.js")
    } else if probe.entry_in_dev_root {
        join_under(exe_dir, "../../server.js")
    } else {
        "../server.js".to_owned()
    }
}

/// Picks the working directory for the layout the probe describes.
pub fn resolve_work_dir(exe_dir: &str, probe: &LayoutProbe) -> (r: String)
    ensures
        r@ == work_dir_spec(exe_dir@, *probe),
{
    if probe.manifest_in_bundle {
        join_under(exe_dir, "../Resources/_up_")
    } else if probe.manifest_in_dev_root {
        join_under(exe_dir, "../..")
    } else {
        exe_dir.to_owned()
    }
}

/// Resolves both paths at once. Resolution never fails: every probe
/// outcome, including one where nothing exists, yields a layout.
pub fn resolve_layout(exe_dir: &str, probe: &LayoutProbe) -> (r: ResolvedLayout)
    ensures
        r.server_entry@ == server_entry_spec(exe_dir@, *probe),
        r.work_dir@ == work_dir_spec(exe_dir@, *probe),
{
    ResolvedLayout {
        server_entry: resolve_server_entry(exe_dir, probe),
        work_dir: resolve_work_dir(exe_dir, probe),
    }
}

/// The entry-script candidates the host must probe, in the priority order
/// of [`server_entry_spec`]; the last-resort path is not probed and so is
/// not listed.
pub fn entry_candidates(exe_dir: &str) -> (r: Vec<String>)
    ensures
        r@.len() == 3,
        r@[0]@ == joined(exe_dir@, "../Resources/_up_/server.js"@),
        r@[1]@ == joined(exe_dir@, "server.js"@),
        r@[2]@ == joined(exe_dir@, "../../server.js"@),
{
    let mut r: Vec<String> = Vec::new();
    r.push(join_under(exe_dir, "../Resources/_up_/server.js"));
    r.push(join_under(exe_dir, "server.js"));
    r.push(join_under(exe_dir, "../../server.js"));
    r
}

/// The manifest candidates the host must probe, in the priority order of
/// [`work_dir_spec`]; the unconditional fallback needs no probe.
pub fn manifest_candidates(exe_dir: &str) -> (r: Vec<String>)
    ensures
        r@.len() == 3,
        r@[0]@ == joined(exe_dir@, "../Resources/_up_/package.json"@),
        r@[1]@ == joined(exe_dir@, "../../package.json"@),
        r@[2]@ == joined(exe_dir@, "package.json"@),
{
    let mut r: Vec<String> = Vec::new();
    r.push(join_under(exe_dir, "../Resources/_up_/package.json"));
    r.push(join_under(exe_dir, "../../package.json"));
    r.push(join_under(exe_dir, "package.json"));
    r
}

/// Resolution is a function of the executable directory and the probe
/// alone: two resolutions over an unchanged filesystem state give
/// identical layouts.
pub proof fn lemma_resolution_idempotent(
    dir1: Seq<char>,
    dir2: Seq<char>,
    probe1: LayoutProbe,
    probe2: LayoutProbe,
)
    requires
        dir1 == dir2,
        probe1 == probe2,
    ensures
        server_entry_spec(dir1, probe1) == server_entry_spec(dir2, probe2),
        work_dir_spec(dir1, probe1) == work_dir_spec(dir2, probe2),
{
}

} // verus!
