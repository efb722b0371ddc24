//! The notification-based focus monitor used on macOS: the selection of
//! the frontmost application's topmost on-screen window out of the window
//! list.  Subscribing to the activation notification and reading the
//! window list are outside work that hands plain values into these
//! functions.

use vstd::prelude::*;

use crate::strutil::str_eq;
use crate::types::WindowInfo;

verus! {

/// One entry of the on-screen window list: the owning application's name
/// and the window's own name, which the list may omit.
pub struct WindowListEntry {
    pub owner: String,
    pub name: Option<String>,
}

impl View for WindowListEntry {
    type V = (Seq<char>, Option<Seq<char>>);

    open spec fn view(&self) -> (Seq<char>, Option<Seq<char>>) {
        (
            self.owner@,
            match self.name {
                Some(ref n) => Some(n@),
                None => None,
            },
        )
    }
}

/// The title the first entry owned by `app` carries, the empty string
/// when that entry has no name or no entry matches.
pub open spec fn title_from(
    list: Seq<(Seq<char>, Option<Seq<char>>)>,
    app: Seq<char>,
) -> Seq<char>
    decreases list.len(),
{
    if list.len() == 0 {
        Seq::<char>::empty()
    } else if list[0].0 == app {
        match list[0].1 {
            Some(t) => t,
            None => Seq::<char>::empty(),
        }
    } else {
        title_from(list.drop_first(), app)
    }
}

/// Picks the frontmost application's window title out of the on-screen
/// window list: the first entry owned by the application wins; a missing
/// window name, or no matching entry at all, yields the empty title.
pub fn frontmost_window_title(entries: &Vec<WindowListEntry>, app_name: &str) -> (r: String)
    ensures
        r@ == title_from(entries@.map_values(|e: WindowListEntry| e@), app_name@),
{
    let ghost model = entries@.map_values(|e: WindowListEntry| e@);
    let n = entries.len();
    let mut i: usize = 0;
    proof {
        assert(model.skip(0) =~= model);
    }
    while i < n
        invariant
            i <= n,
            n == entries.len(),
            model == entries@.map_values(|e: WindowListEntry| e@),
            title_from(model, app_name@) == title_from(model.skip(i as int), app_name@),
        decreases n - i,
    {
        let e = &entries[i];
        if str_eq(e.owner.as_str(), app_name) {
            proof {
                assert(model.skip(i as int)[0] == model[i as int]);
            }
            match &e.name {
                Option::Some(t) => {
                    return t.clone();
                },
                Option::None => {
                    return String::new();
                },
            }
        }
        proof {
            assert(model.skip(i as int).drop_first() =~= model.skip(i + 1));
            assert(model.skip(i as int)[0] == model[i as int]);
        }
        i += 1;
    }
    proof {
        assert(model.skip(n as int).len() == 0);
    }
    String::new()
}

/// The notification-based monitor: the verbose flag the observer consults
/// and whether the run loop is alive.
#[derive(Debug)]
pub struct MacOSMonitor {
    pub verbose: bool,
    pub running: bool,
}

impl MacOSMonitor {
    /// A fresh monitor, not yet running.
    pub fn new(verbose: bool) -> (r: Self)
        ensures
            r.verbose == verbose,
            !r.running,
    {
        Self { verbose, running: false }
    }

    /// The name this variant reports for diagnostics.
    pub fn platform_name(&self) -> (r: &str)
        ensures
            r@ == "macOS"@,
    {
        "macOS"
    }

    /// Marks the observers as registered and the run loop as alive.
    pub fn start_running(&mut self)
        ensures
            final(self).running,
            final(self).verbose == old(self).verbose,
    {
        self.running = true;
    }

    /// Stops the monitor; the caller also stops the platform run loop.
    pub fn stop(&mut self) -> (r: Result<(), String>)
        ensures
            r is Ok,
            !final(self).running,
            final(self).verbose == old(self).verbose,
    {
        self.running = false;
        Ok(())
    }
}

} // verus!
