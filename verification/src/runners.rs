//! Per-platform run orchestration, as decisions: which action the
//! command-line arguments select.  Spawning threads, installing signal
//! handlers and the tray are outside work driven by these decisions.

use vstd::prelude::*;

use crate::strutil::str_eq;

verus! {

/// Whether one of the arguments equals the flag.
pub open spec fn contains_flag(args: Seq<Seq<char>>, flag: Seq<char>) -> bool {
    exists|i: int| 0 <= i < args.len() && args[i] == flag
}

/// Scans the arguments for one flag.
pub fn args_contain(args: &Vec<String>, flag: &str) -> (r: bool)
    ensures
        r == contains_flag(args@.map_values(|s: String| s@), flag@),
{
    let ghost model = args@.map_values(|s: String| s@);
    let n = args.len();
    let mut i: usize = 0;
    while i < n
        invariant
            i <= n,
            n == args@.len(),
            model == args@.map_values(|s: String| s@),
            forall|j: int| 0 <= j < i ==> model[j] != flag@,
        decreases n - i,
    {
        if str_eq(args[i].as_str(), flag) {
            proof {
                assert(model[i as int] == flag@);
            }
            return true;
        }
        i += 1;
    }
    proof {
        assert forall|j: int| 0 <= j < model.len() implies model[j] != flag@ by {
            assert(model[j] != flag@);
        }
    }
    false
}

/// What a plain invocation asks for, besides verbosity.
#[derive(Clone, Copy, Debug, PartialEq, Eq, Structural)]
pub enum CliAction {
    /// Print usage and exit.
    Help,
    /// Create a configuration file.
    CreateConfig,
    /// Reload the configuration and update system files.
    Reload,
    /// Run the focus monitor (the default).
    Monitor,
}

/// Which action the arguments select: help wins, then configuration
/// creation, then reload; anything else runs the monitor.
pub open spec fn cli_action_spec(args: Seq<Seq<char>>) -> CliAction {
    if contains_flag(args, "-h"@) || contains_flag(args, "--help"@) {
        CliAction::Help
    } else if contains_flag(args, "-c"@) || contains_flag(args, "--config"@) {
        CliAction::CreateConfig
    } else if contains_flag(args, "-r"@) || contains_flag(args, "--reload"@) {
        CliAction::Reload
    } else {
        CliAction::Monitor
    }
}

/// Whether the arguments ask for verbose output.
pub open spec fn cli_verbose_spec(args: Seq<Seq<char>>) -> bool {
    contains_flag(args, "-v"@) || contains_flag(args, "--verbose"@)
}

/// Parses the command line: the selected action and the verbose flag.
pub fn parse_cli(args: &Vec<String>) -> (r: (CliAction, bool))
    ensures
        r.0 == cli_action_spec(args@.map_values(|s: String| s@)),
        r.1 == cli_verbose_spec(args@.map_values(|s: String| s@)),
{
    let verbose = args_contain(args, "-v") || args_contain(args, "--verbose");
    let action = if args_contain(args, "-h") || args_contain(args, "--help") {
        CliAction::Help
    } else if args_contain(args, "-c") || args_contain(args, "--config") {
        CliAction::CreateConfig
    } else if args_contain(args, "-r") || args_contain(args, "--reload") {
        CliAction::Reload
    } else {
        CliAction::Monitor
    };
    (action, verbose)
}

/// What a runner does with an invocation once the common flags are
/// handled.
#[derive(Clone, Copy, Debug, PartialEq, Eq, Structural)]
pub enum RunnerAction {
    /// Dispatch into the service control manager.
    RunService,
    InstallService,
    UninstallService,
    StartService,
    StopService,
    /// Run as a tray application.
    TrayApp,
    /// Run attached to the console, for debugging.
    ConsoleMode,
    /// Run the monitor directly.
    Monitor,
}

/// What every platform runner can decide: which action an invocation
/// selects on that platform.
pub trait PlatformRunner {
    /// The decision, as the contracts see it.
    spec fn spec_select_action(&self, args: Seq<Seq<char>>) -> RunnerAction;

    /// Which action this invocation selects.
    fn select_action(&self, args: &Vec<String>) -> (r: RunnerAction)
        ensures
            r == self.spec_select_action(args@.map_values(|s: String| s@)),
    ;
}

/// The Linux runner: it always runs the monitor.
#[derive(Debug)]
pub struct LinuxRunner {
    pub verbose: bool,
}

impl LinuxRunner {
    pub fn new(verbose: bool) -> (r: Self)
        ensures
            r.verbose == verbose,
    {
        Self { verbose }
    }
}

impl PlatformRunner for LinuxRunner {
    open spec fn spec_select_action(&self, args: Seq<Seq<char>>) -> RunnerAction {
        RunnerAction::Monitor
    }

    fn select_action(&self, args: &Vec<String>) -> (r: RunnerAction) {
        RunnerAction::Monitor
    }
}

/// The macOS runner: it always runs the monitor, beside the tray.
#[derive(Debug)]
pub struct MacOSRunner {
    pub verbose: bool,
}

impl MacOSRunner {
    pub fn new(verbose: bool) -> (r: Self)
        ensures
            r.verbose == verbose,
    {
        Self { verbose }
    }
}

impl PlatformRunner for MacOSRunner {
    open spec fn spec_select_action(&self, args: Seq<Seq<char>>) -> RunnerAction {
        RunnerAction::Monitor
    }

    fn select_action(&self, args: &Vec<String>) -> (r: RunnerAction) {
        RunnerAction::Monitor
    }
}

/// The Windows runner: service control flags win, then the explicit tray
/// and console modes; the default is the tray application.
#[derive(Debug)]
pub struct WindowsRunner {
    pub verbose: bool,
}

impl WindowsRunner {
    pub fn new(verbose: bool) -> (r: Self)
        ensures
            r.verbose == verbose,
    {
        Self { verbose }
    }
}

/// The Windows dispatch order over the service and mode flags.
pub open spec fn windows_action_spec(args: Seq<Seq<char>>) -> RunnerAction {
    if contains_flag(args, "--service"@) {
        RunnerAction::RunService
    } else if contains_flag(args, "--install-service"@) {
        RunnerAction::InstallService
    } else if contains_flag(args, "--uninstall-service"@) {
        RunnerAction::UninstallService
    } else if contains_flag(args, "--start-service"@) {
        RunnerAction::StartService
    } else if contains_flag(args, "--stop-service"@) {
        RunnerAction::StopService
    } else if contains_flag(args, "--tray-app"@) {
        RunnerAction::TrayApp
    } else if contains_flag(args, "--console"@) {
        RunnerAction::ConsoleMode
    } else {
        RunnerAction::TrayApp
    }
}

impl PlatformRunner for WindowsRunner {
    open spec fn spec_select_action(&self, args: Seq<Seq<char>>) -> RunnerAction {
        windows_action_spec(args)
    }

    fn select_action(&self, args: &Vec<String>) -> (r: RunnerAction) {
        if args_contain(args, "--service") {
            RunnerAction::RunService
        } else if args_contain(args, "--install-service") {
            RunnerAction::InstallService
        } else if args_contain(args, "--uninstall-service") {
            RunnerAction::UninstallService
        } else if args_contain(args, "--start-service") {
            RunnerAction::StartService
        } else if args_contain(args, "--stop-service") {
            RunnerAction::StopService
        } else if args_contain(args, "--tray-app") {
            RunnerAction::TrayApp
        } else if args_contain(args, "--console") {
            RunnerAction::ConsoleMode
        } else {
            RunnerAction::TrayApp
        }
    }
}

/// The runner for whichever platform was selected.
#[derive(Debug)]
pub enum Runner {
    Linux(LinuxRunner),
    MacOS(MacOSRunner),
    Windows(WindowsRunner),
}

/// Picks the runner for the platform; an environment without one is
/// unsupported.
pub fn create_runner(platform: crate::platforms::Platform, verbose: bool) -> (r: Result<
    Runner,
    String,
>)
    ensures
        match platform {
            crate::platforms::Platform::Windows => (match r {
                Ok(Runner::Windows(w)) => w.verbose == verbose,
                _ => false,
            }),
            crate::platforms::Platform::MacOS => (match r {
                Ok(Runner::MacOS(m)) => m.verbose == verbose,
                _ => false,
            }),
            crate::platforms::Platform::LinuxHyprland => (match r {
                Ok(Runner::Linux(l)) => l.verbose == verbose,
                _ => false,
            }),
            crate::platforms::Platform::LinuxOther => (match r {
                Ok(Runner::Linux(l)) => l.verbose == verbose,
                _ => false,
            }),
            crate::platforms::Platform::Unknown => (match r {
                Err(e) => e@ == "Unsupported platform"@,
                _ => false,
            }),
        },
{
    match platform {
        crate::platforms::Platform::Windows => Ok(Runner::Windows(WindowsRunner::new(verbose))),
        crate::platforms::Platform::MacOS => Ok(Runner::MacOS(MacOSRunner::new(verbose))),
        crate::platforms::Platform::LinuxHyprland => Ok(Runner::Linux(LinuxRunner::new(verbose))),
        crate::platforms::Platform::LinuxOther => Ok(Runner::Linux(LinuxRunner::new(verbose))),
        crate::platforms::Platform::Unknown => Err("Unsupported platform".to_owned()),
    }
}

} // verus!
