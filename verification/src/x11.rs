//! The polling fallback monitor for plain X11 sessions: classification of
//! the window-property query's output and the change detection of the
//! polling loop.  Running the query is outside work.

use vstd::prelude::*;

use crate::strutil::{contains_sub, occurs_at, str_eq};
use crate::types::{opt_info_view, WindowInfo};

verus! {

/// The polling monitor for X11 sessions.
#[derive(Debug)]
pub struct X11Monitor {
    pub verbose: bool,
    /// True while the polling task should keep running.
    pub running: bool,
    /// The class and title most recently submitted by the polling task.
    pub last_window_info: Option<WindowInfo>,
}

impl X11Monitor {
    /// A fresh monitor: not running, nothing seen yet.
    pub fn new(verbose: bool) -> (r: Self)
        ensures
            r.verbose == verbose,
            !r.running,
            r.last_window_info is None,
    {
        Self { verbose, running: false, last_window_info: None }
    }

    /// The name this variant reports for diagnostics.
    pub fn platform_name(&self) -> (r: &str)
        ensures
            r@ == "Linux (X11)"@,
    {
        "Linux (X11)"
    }

    /// Interprets the active-window query's output: output that names a
    /// window id stands for a focused application window, anything else —
    /// including a failed query — for the bare desktop.
    pub fn get_active_window_info(&self, query_output: Option<&str>) -> (r: WindowInfo)
        ensures
            ({
                match query_output {
                    Some(o) => if exists|i: int| occurs_at(o@, "window id"@, i) {
                        r.app_class@ == "X11Application"@ && r.title@ == "Active Window"@
                    } else {
                        r.app_class@ == "Linux"@ && r.title@ == "Desktop"@
                    },
                    None => r.app_class@ == "Linux"@ && r.title@ == "Desktop"@,
                }
            }),
    {
        match query_output {
            Option::Some(o) => {
                if contains_sub(o, "window id") {
                    WindowInfo::new("X11Application".to_owned(), "Active Window".to_owned())
                } else {
                    WindowInfo::new("Linux".to_owned(), "Desktop".to_owned())
                }
            },
            Option::None => WindowInfo::new("Linux".to_owned(), "Desktop".to_owned()),
        }
    }

    /// Marks the polling task as started.
    pub fn start_running(&mut self)
        ensures
            final(self).running,
            final(self).verbose == old(self).verbose,
            final(self).last_window_info == old(self).last_window_info,
    {
        self.running = true;
    }

    /// Stops the monitor: the polling task observes the cleared flag and
    /// exits at its next wake-up.
    pub fn stop(&mut self) -> (r: Result<(), String>)
        ensures
            r is Ok,
            !final(self).running,
            final(self).verbose == old(self).verbose,
            final(self).last_window_info == old(self).last_window_info,
    {
        self.running = false;
        Ok(())
    }

    /// One cycle of the polling task: a snapshot differing from the last
    /// submitted one is returned for submission and becomes the new
    /// last-seen snapshot; a repeat is dropped.
    pub fn poll_observation(&mut self, current: WindowInfo) -> (r: Option<WindowInfo>)
        ensures
            ({
                let cur = (current.app_class@, current.title@);
                if opt_info_view(old(self).last_window_info) == Some(cur) {
                    r is None && final(self).last_window_info == old(self).last_window_info
                } else {
                    opt_info_view(r) == Some(cur) && opt_info_view(
                        final(self).last_window_info,
                    ) == Some(cur)
                }
            }),
            final(self).verbose == old(self).verbose,
            final(self).running == old(self).running,
    {
        let duplicate = match &self.last_window_info {
            Option::Some(last) => str_eq(last.app_class.as_str(), current.app_class.as_str())
                && str_eq(last.title.as_str(), current.title.as_str()),
            Option::None => false,
        };
        if duplicate {
            return None;
        }
        self.last_window_info = Some(current.clone());
        Some(current)
    }
}

} // verus!
