//! The snapshot value that monitors produce: the class and title of the
//! currently focused window.

use vstd::prelude::*;

verus! {

/// One observation of the focused window: its application class and title.
/// The empty snapshot (both fields empty) stands for "no window focused".
#[derive(Debug)]
pub struct WindowInfo {
    pub app_class: String,
    pub title: String,
}

impl WindowInfo {
    /// Builds a snapshot from its two parts.
    pub fn new(app_class: String, title: String) -> (r: Self)
        ensures
            r.app_class@ == app_class@,
            r.title@ == title@,
    {
        Self { app_class, title }
    }
}

impl Clone for WindowInfo {
    fn clone(&self) -> (r: Self)
        ensures
            r.app_class@ == self.app_class@,
            r.title@ == self.title@,
    {
        Self { app_class: self.app_class.clone(), title: self.title.clone() }
    }
}

impl PartialEq for WindowInfo {
    fn eq(&self, other: &Self) -> (r: bool) {
        self.app_class == other.app_class && self.title == other.title
    }
}

impl Eq for WindowInfo {

}

impl vstd::std_specs::cmp::PartialEqSpecImpl for WindowInfo {
    open spec fn obeys_eq_spec() -> bool {
        true
    }

    open spec fn eq_spec(&self, other: &Self) -> bool {
        self.app_class@ == other.app_class@ && self.title@ == other.title@
    }
}

/// The view of an optional snapshot.
pub open spec fn opt_info_view(o: Option<WindowInfo>) -> Option<(Seq<char>, Seq<char>)> {
    match o {
        Some(w) => Some((w.app_class@, w.title@)),
        None => None,
    }
}

} // verus!
