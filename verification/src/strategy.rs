//! Launch strategy selection.
//!
//! A backend that is not already running is started either from a bundled
//! executable shipped with the application or through an interpreter running
//! the server module. A bundled executable, when its resource path resolves,
//! always wins; otherwise the interpreter launch falls back from a
//! project-local interpreter binary to the system-wide interpreter command.

use vstd::prelude::*;

verus! {

/// How the backend process is to be started.
#[derive(Debug)]
pub enum LaunchStrategy {
    /// Run an executable bundled with the application, with no arguments.
    BundledExecutable { path: String },
    /// Run an interpreter with module arguments, from the backend project root.
    InterpreterScript { interpreter: String, args: Vec<String>, working_dir: String },
}

/// What the host knows before a launch: whether the bundled resource path
/// resolved, whether a project-local interpreter binary is present, where the
/// backend project root lies, and whether this is a development run.
pub struct LaunchConfig {
    /// The bundled executable's path, when the resource resolves.
    pub bundled_path: Option<String>,
    /// The project-local interpreter binary's path, when it is present.
    pub local_interpreter: Option<String>,
    /// The backend project root: the working directory of an interpreter launch.
    pub backend_dir: String,
    /// Whether the application runs in development mode.
    pub is_development: bool,
}

/// The arguments of an interpreter launch: run the server module and bind
/// the documented host and port explicitly.
pub open spec fn is_interpreter_args(args: Seq<String>) -> bool {
    &&& args.len() == 7
    &&& args[0]@ == "-m"@
    &&& args[1]@ == "uvicorn"@
    &&& args[2]@ == "app.main:app"@
    &&& args[3]@ == "--host"@
    &&& args[4]@ == "127.0.0.1"@
    &&& args[5]@ == "--port"@
    &&& args[6]@ == "8000"@
}

/// The interpreter an interpreter launch uses: the project-local binary when
/// present, else the system-wide command.
pub open spec fn spec_chosen_interpreter(c: LaunchConfig) -> Seq<char> {
    match c.local_interpreter {
        Some(local) => local@,
        None => "python"@,
    }
}

/// What strategy selection returns for a configuration: the bundled
/// executable whenever its path resolves, else an interpreter launch from the
/// backend project root. The development flag plays no part.
pub open spec fn selects(c: LaunchConfig, s: LaunchStrategy) -> bool {
    match c.bundled_path {
        Some(bundled) => {
            &&& s matches LaunchStrategy::BundledExecutable { path }
            &&& path@ == bundled@
        },
        None => {
            &&& s matches LaunchStrategy::InterpreterScript { interpreter, args, working_dir }
            &&& interpreter@ == spec_chosen_interpreter(c)
            &&& is_interpreter_args(args@)
            &&& working_dir@ == c.backend_dir@
        },
    }
}

/// The interpreter launch arguments as a vector.
fn interpreter_args() -> (v: Vec<String>)
    ensures
        is_interpreter_args(v@),
{
    let mut v: Vec<String> = Vec::new();
    v.push("-m".to_owned());
    v.push("uvicorn".to_owned());
    v.push("app.main:app".to_owned());
    v.push("--host".to_owned());
    v.push("127.0.0.1".to_owned());
    v.push("--port".to_owned());
    v.push("8000".to_owned());
    v
}

/// Select the launch strategy for a configuration. A resolved bundled
/// executable takes priority; otherwise the interpreter launch prefers the
/// project-local interpreter and falls back to the system-wide command.
pub fn select_strategy(c: LaunchConfig) -> (s: LaunchStrategy)
    ensures
        selects(c, s),
{
    match c.bundled_path {
        Some(path) => LaunchStrategy::BundledExecutable { path },
        None => {
            let interpreter: String = match c.local_interpreter {
                Some(local) => local,
                None => "python".to_owned(),
            };
            LaunchStrategy::InterpreterScript {
                interpreter,
                args: interpreter_args(),
                working_dir: c.backend_dir,
            }
        },
    }
}

/// Whenever the bundled resource path resolves, the selected strategy is the
/// bundled executable, whatever the development flag says.
pub proof fn lemma_bundled_takes_priority(c: LaunchConfig, s: LaunchStrategy)
    requires
        c.bundled_path is Some,
        selects(c, s),
    ensures
        s is BundledExecutable,
{
}

/// Strategy selection does not read the development flag: two configurations
/// that differ only in it admit the same strategies.
pub proof fn lemma_selection_ignores_dev_flag(c1: LaunchConfig, c2: LaunchConfig, s: LaunchStrategy)
    requires
        c1.bundled_path == c2.bundled_path,
        c1.local_interpreter == c2.local_interpreter,
        c1.backend_dir == c2.backend_dir,
        selects(c1, s),
    ensures
        selects(c2, s),
{
}

} // verus!
