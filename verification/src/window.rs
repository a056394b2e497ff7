//! The window record reported by the window manager.

use vstd::prelude::*;

verus! {

/// One window as the window manager reports it: a unique identifier, the
/// owning application's name, and whether the window is minimized.
///
/// A value of this type is a snapshot taken at query time; the library holds
/// no persistent window registry, and a snapshot may be stale by the time a
/// command built from it is sent.
pub struct Window {
    pub id: u64,
    pub app: String,
    pub minimized: bool,
}

/// The mathematical view of a [`Window`]: the same three fields, with the
/// application name as a sequence of characters.
pub ghost struct WindowView {
    pub id: u64,
    pub app: Seq<char>,
    pub minimized: bool,
}

impl View for Window {
    type V = WindowView;

    open spec fn view(&self) -> WindowView {
        WindowView { id: self.id, app: self.app@, minimized: self.minimized }
    }
}

/// The views of a sequence of windows, in the same order.
pub open spec fn views(ws: Seq<Window>) -> Seq<WindowView> {
    ws.map_values(|w: Window| w@)
}

/// Whether a window belongs to the named application and is not minimized:
/// the windows the decision engine is allowed to see.
pub open spec fn visible_for(w: WindowView, app: Seq<char>) -> bool {
    w.app == app && !w.minimized
}

} // verus!
