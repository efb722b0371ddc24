//! The hook-based focus monitor used on Windows: the filter that drops the
//! shell's internal windows, the duplicate-event suppression shared by the
//! hook callback and the polling fallback, and the configuration paths.
//! Registering the hook and querying window text are outside work that
//! hands plain values into these functions.

use vstd::prelude::*;

use crate::strutil::str_eq;
use crate::types::{opt_info_view, WindowInfo};
use vstd::utf8::encode_utf8;

verus! {

broadcast use vstd::slice::axiom_spec_len;

/// The window classes of shell internals that never count as focus
/// targets.
pub open spec fn ignored_class(app: Seq<char>) -> bool {
    ||| app == "ForegroundStaging"@
    ||| app == "XamlExplorerHostIslandWindow"@
    ||| app == "Windows.UI.Composition.DesktopWindowContentBridge"@
    ||| app == "Windows.UI.Input.InputSite.WindowClass"@
    ||| app == "TaskSwitcherWnd"@
    ||| app == "TaskSwitcherOverlayWnd"@
    ||| app == "Windows.UI.Core.CoreWindow"@
    ||| app == "ApplicationFrameWindow"@
}

/// The classes whose windows count even with an empty title (terminals
/// and browser shells).
pub open spec fn empty_title_allowed(app: Seq<char>) -> bool {
    app == "CASCADIA_HOSTING_WINDOW_CLASS"@ || app == "Chrome_WidgetWin_1"@
}

/// A window is ignored when its class is a shell internal, when its title
/// is empty and its class is not one of the allowed exceptions, or when
/// its title is shorter than two bytes without being empty.
pub open spec fn should_ignore_spec(app: Seq<char>, title: Seq<char>) -> bool {
    ||| ignored_class(app)
    ||| (title.len() == 0 && !empty_title_allowed(app))
    ||| (encode_utf8(title).len() < 2 && title.len() != 0)
}

/// Decides whether a snapshot describes a window that must not be
/// forwarded.
pub fn should_ignore_window(window_info: &WindowInfo) -> (r: bool)
    ensures
        r == should_ignore_spec(window_info.app_class@, window_info.title@),
{
    let app = window_info.app_class.as_str();
    if str_eq(app, "ForegroundStaging") || str_eq(app, "XamlExplorerHostIslandWindow") || str_eq(
        app,
        "Windows.UI.Composition.DesktopWindowContentBridge",
    ) || str_eq(app, "Windows.UI.Input.InputSite.WindowClass") || str_eq(app, "TaskSwitcherWnd")
        || str_eq(app, "TaskSwitcherOverlayWnd") || str_eq(app, "Windows.UI.Core.CoreWindow")
        || str_eq(app, "ApplicationFrameWindow") {
        return true;
    }
    let title = window_info.title.as_str();
    if title.is_empty() {
        if !(str_eq(app, "CASCADIA_HOSTING_WINDOW_CLASS") || str_eq(app, "Chrome_WidgetWin_1")) {
            return true;
        }
    }
    let title_bytes = title.as_bytes();
    if title_bytes.len() < 2 && !title.is_empty() {
        return true;
    }
    false
}

/// The hook-based monitor: the verbose flag the callback consults, the
/// flag that keeps the polling fallback alive, and the one last-seen
/// snapshot that both detection paths compare against.
#[derive(Debug)]
pub struct WindowsMonitor {
    pub verbose: bool,
    /// True while the polling fallback task should keep running.
    pub running: bool,
    /// The most recent snapshot either detection path has forwarded.
    pub last_window_info: Option<WindowInfo>,
}

impl WindowsMonitor {
    /// A fresh monitor: not running, nothing seen yet.
    pub fn new(verbose: bool) -> (r: Self)
        ensures
            r.verbose == verbose,
            !r.running,
            r.last_window_info is None,
    {
        Self { verbose, running: false, last_window_info: None }
    }

    /// The name this variant reports for diagnostics.
    pub fn platform_name(&self) -> (r: &str)
        ensures
            r@ == "Windows"@,
    {
        "Windows"
    }

    /// Marks the monitor as started; the polling fallback keeps running
    /// while this holds.
    pub fn start_running(&mut self)
        ensures
            final(self).running,
            final(self).verbose == old(self).verbose,
            final(self).last_window_info == old(self).last_window_info,
    {
        self.running = true;
    }

    /// Stops the monitor: the polling task observes the cleared flag and
    /// exits at its next wake-up.
    pub fn stop(&mut self) -> (r: Result<(), String>)
        ensures
            r is Ok,
            !final(self).running,
            final(self).verbose == old(self).verbose,
            final(self).last_window_info == old(self).last_window_info,
    {
        self.running = false;
        Ok(())
    }

    /// One focus-change event, from the hook callback or the polling
    /// fallback.  An ignored window and a repeat of the last forwarded
    /// snapshot are dropped; anything else becomes the new last-seen
    /// snapshot and is returned for submission.
    pub fn handle_focus_change(&mut self, current: WindowInfo) -> (r: Option<WindowInfo>)
        ensures
            ({
                let cur = (current.app_class@, current.title@);
                if should_ignore_spec(cur.0, cur.1) {
                    r is None && final(self).last_window_info == old(self).last_window_info
                } else if opt_info_view(old(self).last_window_info) == Some(cur) {
                    r is None && final(self).last_window_info == old(self).last_window_info
                } else {
                    opt_info_view(r) == Some(cur) && opt_info_view(final(self).last_window_info)
                        == Some(cur)
                }
            }),
            final(self).verbose == old(self).verbose,
            final(self).running == old(self).running,
    {
        if should_ignore_window(&current) {
            return None;
        }
        let duplicate = match &self.last_window_info {
            Option::Some(last) => str_eq(last.app_class.as_str(), current.app_class.as_str())
                && str_eq(last.title.as_str(), current.title.as_str()),
            Option::None => false,
        };
        if duplicate {
            return None;
        }
        self.last_window_info = Some(current.clone());
        Some(current)
    }
}

/// The configuration files tried on Windows, most preferred first: the
/// roaming application data, the local application data, then the
/// executable's own directory.
pub open spec fn windows_config_paths_spec(
    appdata: Option<Seq<char>>,
    local_appdata: Option<Seq<char>>,
    exe_dir: Option<Seq<char>>,
) -> Seq<Seq<char>> {
    (match appdata {
        Some(a) => seq![a + "\\QMKonnect\\config.toml"@],
        None => Seq::<Seq<char>>::empty(),
    }) + (match local_appdata {
        Some(l) => seq![l + "\\QMKonnect\\config.toml"@],
        None => Seq::<Seq<char>>::empty(),
    }) + (match exe_dir {
        Some(e) => seq![e + "\\config.toml"@],
        None => Seq::<Seq<char>>::empty(),
    })
}

/// The configuration paths in order of preference, given what the
/// environment probes found.
pub fn get_config_paths(
    appdata: Option<&str>,
    local_appdata: Option<&str>,
    exe_dir: Option<&str>,
) -> (r: Vec<String>)
    ensures
        r@.map_values(|s: String| s@) == windows_config_paths_spec(
            crate::linux::opt_str_view(appdata),
            crate::linux::opt_str_view(local_appdata),
            crate::linux::opt_str_view(exe_dir),
        ),
{
    let mut paths: Vec<String> = Vec::new();
    if let Option::Some(a) = appdata {
        let mut p = a.to_owned();
        p.append("\\QMKonnect\\config.toml");
        paths.push(p);
    }
    if let Option::Some(l) = local_appdata {
        let mut p = l.to_owned();
        p.append("\\QMKonnect\\config.toml");
        paths.push(p);
    }
    if let Option::Some(e) = exe_dir {
        let mut p = e.to_owned();
        p.append("\\config.toml");
        paths.push(p);
    }
    proof {
        assert(paths@.map_values(|s: String| s@) =~= windows_config_paths_spec(
            crate::linux::opt_str_view(appdata),
            crate::linux::opt_str_view(local_appdata),
            crate::linux::opt_str_view(exe_dir),
        ));
    }
    paths
}

/// The directory the configuration file is created in: under the roaming
/// application data, which must be present.
pub fn config_dir_path(appdata: Option<&str>) -> (r: Result<String, String>)
    ensures
        match r {
            Ok(p) => crate::linux::opt_str_view(appdata) is Some && p@ == crate::linux::opt_str_view(
                appdata,
            ).unwrap() + "\\QMKonnect"@,
            Err(e) => appdata is None && e@ == "Could not determine APPDATA directory"@,
        },
{
    match appdata {
        Option::Some(a) => {
            let mut p = a.to_owned();
            p.append("\\QMKonnect");
            Ok(p)
        },
        Option::None => Err("Could not determine APPDATA directory".to_owned()),
    }
}

} // verus!
