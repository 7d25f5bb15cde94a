//! The command lines that the host runs: the launch of the backend, and the
//! forced kill of every backend by name where the platform needs it.

use crate::resolver::{Candidate, BACKEND_EXE};
use vstd::prelude::*;

verus! {

/// Address that the backend binds.
pub const BIND_HOST: &'static str = "127.0.0.1";

/// Port that the backend binds.
pub const BIND_PORT: &'static str = "8787";

/// Directory below the per-user application data directory that the backend
/// keeps its data in.
pub const DATA_SUBDIR: &'static str = "shanten";

/// Process creation flag that keeps a console window from opening.
pub const CREATE_NO_WINDOW: u32 = 0x0800_0000;

/// Program that kills processes by image name.
pub const KILL_PROGRAM: &'static str = "taskkill";

/// The platforms that the host tells apart.
#[derive(Clone, Copy, Debug, PartialEq, Eq, Structural)]
pub enum Platform {
    Windows,
    Other,
}

/// How one standard stream of the child is set up.
#[derive(Clone, Copy, Debug, PartialEq, Eq, Structural)]
pub enum StdioMode {
    /// Closed: the child reads end of file, or writes into nothing.
    Null,
    /// Captured through a pipe that the host reads.
    Piped,
}

/// Everything the host needs to launch the backend.
#[derive(Debug, PartialEq, Eq)]
pub struct LaunchPlan {
    pub program: Candidate,
    pub args: Vec<String>,
    pub stdin: StdioMode,
    pub stdout: StdioMode,
    pub stderr: StdioMode,
    /// Process creation flags, on the platform that has them.
    pub creation_flags: Option<u32>,
}

pub struct LaunchPlanView {
    pub program: Candidate,
    pub args: Seq<Seq<char>>,
    pub stdin: StdioMode,
    pub stdout: StdioMode,
    pub stderr: StdioMode,
    pub creation_flags: Option<u32>,
}

impl View for LaunchPlan {
    type V = LaunchPlanView;

    open spec fn view(&self) -> LaunchPlanView {
        LaunchPlanView {
            program: self.program,
            args: self.args.deep_view(),
            stdin: self.stdin,
            stdout: self.stdout,
            stderr: self.stderr,
            creation_flags: self.creation_flags,
        }
    }
}

/// The forced kill of every process that runs the backend executable.
#[derive(Debug, PartialEq, Eq)]
pub struct KillPlan {
    pub program: String,
    pub args: Vec<String>,
    pub creation_flags: u32,
}

pub struct KillPlanView {
    pub program: Seq<char>,
    pub args: Seq<Seq<char>>,
    pub creation_flags: u32,
}

impl View for KillPlan {
    type V = KillPlanView;

    open spec fn view(&self) -> KillPlanView {
        KillPlanView {
            program: self.program@,
            args: self.args.deep_view(),
            creation_flags: self.creation_flags,
        }
    }
}

/// The arguments of the backend: bind host, port, and data root.
pub open spec fn spec_launch_args(data_root: Seq<char>) -> Seq<Seq<char>> {
    seq!["--host"@, BIND_HOST@, "--port"@, BIND_PORT@, "--data-root"@, data_root]
}

pub open spec fn spec_creation_flags(platform: Platform) -> Option<u32> {
    match platform {
        Platform::Windows => Some(CREATE_NO_WINDOW),
        Platform::Other => None,
    }
}

pub open spec fn spec_launch_plan(
    program: Candidate,
    data_root: Seq<char>,
    platform: Platform,
) -> LaunchPlanView {
    LaunchPlanView {
        program,
        args: spec_launch_args(data_root),
        stdin: StdioMode::Null,
        stdout: StdioMode::Piped,
        stderr: StdioMode::Piped,
        creation_flags: spec_creation_flags(platform),
    }
}

pub open spec fn spec_kill_all(platform: Platform) -> Option<KillPlanView> {
    match platform {
        Platform::Windows => Some(
            KillPlanView {
                program: KILL_PROGRAM@,
                args: seq!["/IM"@, BACKEND_EXE@, "/F"@, "/T"@],
                creation_flags: CREATE_NO_WINDOW,
            },
        ),
        Platform::Other => None,
    }
}

pub open spec fn option_view(plan: Option<KillPlan>) -> Option<KillPlanView> {
    match plan {
        Some(p) => Some(p@),
        None => None,
    }
}

/// The arguments that the backend is started with.
pub fn launch_args(data_root: &str) -> (args: Vec<String>)
    ensures
        args.deep_view() == spec_launch_args(data_root@),
{
    let args = vec![
        "--host".to_owned(),
        BIND_HOST.to_owned(),
        "--port".to_owned(),
        BIND_PORT.to_owned(),
        "--data-root".to_owned(),
        data_root.to_owned(),
    ];
    assert(args.deep_view() =~= spec_launch_args(data_root@));
    args
}

/// The launch of `program` with its data below `data_root`: standard input
/// closed, both outputs captured, and no console window where the platform
/// would open one.
pub fn launch_plan(program: Candidate, data_root: &str, platform: Platform) -> (plan: LaunchPlan)
    ensures
        plan@ == spec_launch_plan(program, data_root@, platform),
{
    LaunchPlan {
        program,
        args: launch_args(data_root),
        stdin: StdioMode::Null,
        stdout: StdioMode::Piped,
        stderr: StdioMode::Piped,
        creation_flags: match platform {
            Platform::Windows => Some(CREATE_NO_WINDOW),
            Platform::Other => None,
        },
    }
}

/// The safety net behind a stop: on Windows, the command that kills every
/// backend by image name, with its children, without a console window. The
/// host runs it and ignores how it ends. Elsewhere there is nothing to run.
pub fn kill_all_backends_silently(platform: Platform) -> (plan: Option<KillPlan>)
    ensures
        option_view(plan) == spec_kill_all(platform),
{
    match platform {
        Platform::Windows => {
            let args = vec!["/IM".to_owned(), BACKEND_EXE.to_owned(), "/F".to_owned(), "/T".to_owned()];
            assert(args.deep_view() =~= seq!["/IM"@, BACKEND_EXE@, "/F"@, "/T"@]);
            Some(KillPlan { program: KILL_PROGRAM.to_owned(), args, creation_flags: CREATE_NO_WINDOW })
        },
        Platform::Other => None,
    }
}

} // verus!
