//! The platform-polymorphic face of the focus monitors: one capability
//! trait, a runtime platform selector in place of compile-time switches,
//! and the factory that picks the variant for the running environment.

use vstd::prelude::*;

use crate::hyprland::HyprlandMonitor;
use crate::macos::MacOSMonitor;
use crate::windows::WindowsMonitor;
use crate::x11::X11Monitor;

verus! {

/// What every focus-monitor variant can tell about itself.
pub trait WindowMonitor {
    /// The name the variant reports for diagnostics, as the contracts see
    /// it.
    spec fn spec_platform_name(&self) -> Seq<char>;

    /// The name the variant reports for diagnostics.
    fn platform_name(&self) -> (r: &str)
        ensures
            r@ == self.spec_platform_name(),
    ;
}

impl WindowMonitor for HyprlandMonitor {
    open spec fn spec_platform_name(&self) -> Seq<char> {
        "Hyprland"@
    }

    fn platform_name(&self) -> (r: &str) {
        "Hyprland"
    }
}

impl WindowMonitor for WindowsMonitor {
    open spec fn spec_platform_name(&self) -> Seq<char> {
        "Windows"@
    }

    fn platform_name(&self) -> (r: &str) {
        "Windows"
    }
}

impl WindowMonitor for MacOSMonitor {
    open spec fn spec_platform_name(&self) -> Seq<char> {
        "macOS"@
    }

    fn platform_name(&self) -> (r: &str) {
        "macOS"
    }
}

impl WindowMonitor for X11Monitor {
    open spec fn spec_platform_name(&self) -> Seq<char> {
        "Linux (X11)"@
    }

    fn platform_name(&self) -> (r: &str) {
        "Linux (X11)"
    }
}

/// The environment the process was found to run in.
#[derive(Clone, Copy, Debug, PartialEq, Eq, Structural)]
pub enum Platform {
    /// A Linux session with the supported compositor.
    LinuxHyprland,
    /// A Linux session without it.
    LinuxOther,
    Windows,
    MacOS,
    /// Anything else.
    Unknown,
}

/// The focus-monitor variant chosen for this process.
#[derive(Debug)]
pub enum Monitor {
    Hyprland(HyprlandMonitor),
    Windows(WindowsMonitor),
    MacOS(MacOSMonitor),
    X11(X11Monitor),
}

impl Monitor {
    /// The name of the chosen variant.
    pub fn platform_name(&self) -> (r: &str)
        ensures
            match self {
                Monitor::Hyprland(_) => r@ == "Hyprland"@,
                Monitor::Windows(_) => r@ == "Windows"@,
                Monitor::MacOS(_) => r@ == "macOS"@,
                Monitor::X11(_) => r@ == "Linux (X11)"@,
            },
    {
        match self {
            Monitor::Hyprland(m) => m.platform_name(),
            Monitor::Windows(m) => m.platform_name(),
            Monitor::MacOS(m) => m.platform_name(),
            Monitor::X11(m) => m.platform_name(),
        }
    }
}

/// Picks the monitor variant for the platform: the compositor monitor on
/// a Hyprland session, the polling fallback on any other Linux session,
/// the native monitors on Windows and macOS; an unknown environment has
/// no suitable monitor.
pub fn create_monitor(platform: Platform, verbose: bool) -> (r: Result<Monitor, String>)
    ensures
        match platform {
            Platform::LinuxHyprland => (match r {
                Ok(Monitor::Hyprland(m)) => m.verbose == verbose && !m.polling_active
                    && m.last_window_state is None,
                _ => false,
            }),
            Platform::LinuxOther => (match r {
                Ok(Monitor::X11(m)) => m.verbose == verbose && !m.running
                    && m.last_window_info is None,
                _ => false,
            }),
            Platform::Windows => (match r {
                Ok(Monitor::Windows(m)) => m.verbose == verbose && !m.running
                    && m.last_window_info is None,
                _ => false,
            }),
            Platform::MacOS => (match r {
                Ok(Monitor::MacOS(m)) => m.verbose == verbose && !m.running,
                _ => false,
            }),
            Platform::Unknown => (match r {
                Err(e) => e@ == "No suitable monitor for this platform"@,
                _ => false,
            }),
        },
{
    match platform {
        Platform::LinuxHyprland => Ok(Monitor::Hyprland(HyprlandMonitor::new(verbose))),
        Platform::LinuxOther => Ok(Monitor::X11(X11Monitor::new(verbose))),
        Platform::Windows => Ok(Monitor::Windows(WindowsMonitor::new(verbose))),
        Platform::MacOS => Ok(Monitor::MacOS(MacOSMonitor::new(verbose))),
        Platform::Unknown => Err("No suitable monitor for this platform".to_owned()),
    }
}

/// What the environment offers for locating the configuration file.
pub struct PathEnv {
    /// The XDG configuration home, if set.
    pub xdg_config_home: Option<String>,
    /// The user's home directory, if known.
    pub home: Option<String>,
    /// The roaming application-data directory, if set.
    pub appdata: Option<String>,
    /// The local application-data directory, if set.
    pub local_appdata: Option<String>,
    /// The directory holding the running executable, if known.
    pub exe_dir: Option<String>,
}

/// The model of a path environment: each entry as a character sequence.
pub struct PathEnvModel {
    pub xdg_config_home: Option<Seq<char>>,
    pub home: Option<Seq<char>>,
    pub appdata: Option<Seq<char>>,
    pub local_appdata: Option<Seq<char>>,
    pub exe_dir: Option<Seq<char>>,
}

/// The view of one optional owned entry.
pub open spec fn opt_string_view(o: Option<String>) -> Option<Seq<char>> {
    match o {
        Some(s) => Some(s@),
        None => None,
    }
}

impl View for PathEnv {
    type V = PathEnvModel;

    open spec fn view(&self) -> PathEnvModel {
        PathEnvModel {
            xdg_config_home: opt_string_view(self.xdg_config_home),
            home: opt_string_view(self.home),
            appdata: opt_string_view(self.appdata),
            local_appdata: opt_string_view(self.local_appdata),
            exe_dir: opt_string_view(self.exe_dir),
        }
    }
}

/// The configuration paths tried on this platform, most preferred first.
pub open spec fn platform_config_paths_spec(platform: Platform, env: PathEnvModel) -> Seq<
    Seq<char>,
> {
    match platform {
        Platform::LinuxHyprland => crate::linux::linux_config_paths_spec(
            env.xdg_config_home,
            env.home,
        ),
        Platform::LinuxOther => crate::linux::linux_config_paths_spec(
            env.xdg_config_home,
            env.home,
        ),
        Platform::Windows => crate::windows::windows_config_paths_spec(
            env.appdata,
            env.local_appdata,
            env.exe_dir,
        ),
        Platform::MacOS => Seq::<Seq<char>>::empty(),
        Platform::Unknown => Seq::<Seq<char>>::empty(),
    }
}

/// Turns an optional owned entry into an optional borrow.
pub fn as_opt_str(o: &Option<String>) -> (r: Option<&str>)
    ensures
        crate::linux::opt_str_view(r) == opt_string_view(*o),
{
    match o {
        Option::Some(s) => Some(s.as_str()),
        Option::None => None,
    }
}

/// The configuration paths for the current platform, in order of
/// preference.
pub fn get_config_paths(platform: Platform, env: &PathEnv) -> (r: Vec<String>)
    ensures
        r@.map_values(|s: String| s@) == platform_config_paths_spec(platform, env@),
{
    match platform {
        Platform::LinuxHyprland => crate::linux::get_config_paths(
            as_opt_str(&env.xdg_config_home),
            as_opt_str(&env.home),
        ),
        Platform::LinuxOther => crate::linux::get_config_paths(
            as_opt_str(&env.xdg_config_home),
            as_opt_str(&env.home),
        ),
        Platform::Windows => crate::windows::get_config_paths(
            as_opt_str(&env.appdata),
            as_opt_str(&env.local_appdata),
            as_opt_str(&env.exe_dir),
        ),
        Platform::MacOS => {
            let r = Vec::new();
            proof {
                assert(r@.map_values(|s: String| s@) =~= Seq::<Seq<char>>::empty());
            }
            r
        },
        Platform::Unknown => {
            let r = Vec::new();
            proof {
                assert(r@.map_values(|s: String| s@) =~= Seq::<Seq<char>>::empty());
            }
            r
        },
    }
}

} // verus!
