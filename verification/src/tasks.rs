//! The workspace tasks' decisions: which paths the build artefacts go to and
//! which arguments the build tools are invoked with. Running the tools,
//! creating directories and copying files stay at the I/O edge; it passes
//! workspace locations in as plain path strings -- directories without a
//! trailing separator -- and gets paths and argument lists back.

use vstd::prelude::*;

verus! {

/// Builds and lays out the frontend.
pub struct Dist {
    /// Build artifacts in release mode, with optimizations.
    pub release: bool,
}

/// Starts the server, building the backend and frontend as needed.
pub struct Run {
    /// Build artifacts in release mode, with optimizations.
    pub release: bool,
}

/// Installs the frontend and backend to an output directory.
pub struct Install {
    /// Output directory for the installation.
    pub output: Option<String>,
}

impl Run {
    /// The frontend build a run needs: same mode as the run itself.
    pub fn to_dist(&self) -> (d: Dist)
        ensures
            d.release == self.release,
    {
        Dist { release: self.release }
    }
}

impl Install {
    /// The frontend build an installation needs: always release mode.
    pub fn to_dist(&self) -> (d: Dist)
        ensures
            d.release,
    {
        Dist { release: true }
    }
}

/// Where the frontend is laid out, under the workspace's target directory.
pub fn dist_path(target_directory: &str, release: bool) -> (p: String)
    ensures
        release ==> p@ == target_directory@ + "/static/dist/"@ + "release"@,
        !release ==> p@ == target_directory@ + "/static/dist/"@ + "debug"@,
{
    let mut p = String::from_str(target_directory);
    p.append("/static/dist/");
    if release {
        p.append("release");
    } else {
        p.append("debug");
    }
    p
}

/// Where the built backend binary lies, under the workspace's target
/// directory.
pub fn backend_path(target_directory: &str, release: bool) -> (p: String)
    ensures
        release ==> p@ == target_directory@ + "/"@ + "release"@ + "/backend"@,
        !release ==> p@ == target_directory@ + "/"@ + "debug"@ + "/backend"@,
{
    let mut p = String::from_str(target_directory);
    p.append("/");
    if release {
        p.append("release");
    } else {
        p.append("debug");
    }
    p.append("/backend");
    p
}

/// The default installation directory, under the workspace root.
pub fn output_default_path(workspace_root: &str) -> (p: String)
    ensures
        p@ == workspace_root@ + "/output"@,
{
    let mut p = String::from_str(workspace_root);
    p.append("/output");
    p
}

/// The arguments the frontend bundler is invoked with: build into the given
/// layout directory from the given page, optimised when release mode was
/// asked for.
pub fn trunk_args(dist: &str, html: &str, release: bool) -> (args: Vec<String>)
    ensures
        args@.len() == if release {
            5int
        } else {
            4int
        },
        args@[0]@ == "build"@,
        args@[1]@ == "--dist"@,
        args@[2]@ == dist@,
        args@[3]@ == html@,
        release ==> args@[4]@ == "--release"@,
{
    let mut args: Vec<String> = Vec::new();
    args.push(String::from_str("build"));
    args.push(String::from_str("--dist"));
    args.push(String::from_str(dist));
    args.push(String::from_str(html));
    if release {
        args.push(String::from_str("--release"));
    }
    args
}

/// The arguments the backend is started with, optimised when release mode
/// was asked for.
pub fn run_args(release: bool) -> (args: Vec<String>)
    ensures
        args@.len() == if release {
            4int
        } else {
            3int
        },
        args@[0]@ == "run"@,
        args@[1]@ == "-p"@,
        args@[2]@ == "backend"@,
        release ==> args@[3]@ == "--release"@,
{
    let mut args: Vec<String> = Vec::new();
    args.push(String::from_str("run"));
    args.push(String::from_str("-p"));
    args.push(String::from_str("backend"));
    if release {
        args.push(String::from_str("--release"));
    }
    args
}

/// The arguments an installation builds the backend with: always release
/// mode.
pub fn install_build_args() -> (args: Vec<String>)
    ensures
        args@.len() == 4,
        args@[0]@ == "build"@,
        args@[1]@ == "--release"@,
        args@[2]@ == "-p"@,
        args@[3]@ == "backend"@,
{
    let mut args: Vec<String> = Vec::new();
    args.push(String::from_str("build"));
    args.push(String::from_str("--release"));
    args.push(String::from_str("-p"));
    args.push(String::from_str("backend"));
    args
}

/// Picks the frontend package out of the workspace members' names: the first
/// member called "frontend", if any.
pub fn find_frontend(names: &Vec<String>) -> (r: Option<usize>)
    ensures
        r matches Some(i) ==> {
            &&& i < names@.len()
            &&& names@[i as int]@ == "frontend"@
            &&& forall|j: int| 0 <= j < i ==> (#[trigger] names@[j])@ != "frontend"@
        },
        r is None ==> forall|j: int| 0 <= j < names@.len() ==> (#[trigger] names@[j])@
            != "frontend"@,
{
    let key = String::from_str("frontend");
    let mut i: usize = 0;
    while i < names.len()
        invariant
            i <= names@.len(),
            key@ == "frontend"@,
            forall|j: int| 0 <= j < i ==> (#[trigger] names@[j])@ != "frontend"@,
        decreases names@.len() - i,
    {
        if names[i] == key {
            return Some(i);
        }
        i = i + 1;
    }
    None
}

} // verus!
