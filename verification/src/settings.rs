//! Platform specific settings for linux; Wayland and X11.
//!
//! These identify an application's window to the compositor. They sit
//! beside the layout core: nothing here affects layout correctness.

use vstd::prelude::*;

verus! {

/// The platform specific window settings of an application.
#[derive(Debug, Clone)]
pub struct PlatformSpecific {
    /// window id for the compositor
    pub id: Option<WindowId>,
}

/// The identity a window reports to the compositor.
#[derive(Debug, Clone)]
pub struct WindowId {
    pub instance: String,
    pub general: String,
}

impl Default for PlatformSpecific {
    /// No window id: the compositor assigns one.
    fn default() -> (s: PlatformSpecific)
        ensures
            s.id is None,
    {
        PlatformSpecific { id: None }
    }
}

impl Default for WindowId {
    /// An empty identity.
    fn default() -> (w: WindowId)
        ensures
            w.instance@ == Seq::<char>::empty(),
            w.general@ == Seq::<char>::empty(),
    {
        WindowId { instance: String::new(), general: String::new() }
    }
}

impl PartialEq for PlatformSpecific {
    fn eq(&self, other: &PlatformSpecific) -> (r: bool) {
        match (&self.id, &other.id) {
            (None, None) => true,
            (Some(a), Some(b)) => a == b,
            _ => false,
        }
    }
}

impl vstd::std_specs::cmp::PartialEqSpecImpl for PlatformSpecific {
    open spec fn obeys_eq_spec() -> bool {
        true
    }

    open spec fn eq_spec(&self, other: &PlatformSpecific) -> bool {
        match (self.id, other.id) {
            (None, None) => true,
            (Some(a), Some(b)) => a.instance@ == b.instance@ && a.general@ == b.general@,
            _ => false,
        }
    }
}

impl PartialEq for WindowId {
    fn eq(&self, other: &WindowId) -> (r: bool) {
        self.instance == other.instance && self.general == other.general
    }
}

impl vstd::std_specs::cmp::PartialEqSpecImpl for WindowId {
    open spec fn obeys_eq_spec() -> bool {
        true
    }

    open spec fn eq_spec(&self, other: &WindowId) -> bool {
        self.instance@ == other.instance@ && self.general@ == other.general@
    }
}

} // verus!
