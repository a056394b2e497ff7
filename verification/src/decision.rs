//! The focus decision engine.
//!
//! Given the currently focused window and the target application's visible
//! window set, exactly one action is chosen: cycle to the next window of the
//! application, focus a window directly, activate the running application, or
//! (after a failed activation) launch it. The choice is a pure function of
//! its inputs; the surrounding binary only carries the chosen action out.

use crate::window::views;
use crate::window::Window;
use crate::window::WindowView;
use vstd::prelude::*;

verus! {

/// The action chosen for one request, before any activation attempt.
#[derive(Clone, Copy, PartialEq, Eq, Structural, Debug)]
pub enum Outcome {
    /// Nothing to do: a cycle request with at most one window, or a cycle
    /// request whose focused window has vanished from the snapshot.
    NoAction,
    /// The target application already holds focus: move to its next window.
    Cycle { window_id: u64 },
    /// The target application has a visible window but not the focus: focus
    /// its first reported window.
    DirectFocus { window_id: u64 },
    /// The target application has no visible window: try to activate it.
    Activate,
}

/// The action chosen after an activation attempt and, when the attempt
/// matched a running application, one fresh window query.
#[derive(Clone, Copy, PartialEq, Eq, Structural, Debug)]
pub enum AfterActivation {
    /// No running application matched: launch a new process.
    Launch,
    /// Activation matched and the fresh query found a window: focus it.
    DirectFocus { window_id: u64 },
    /// Activation matched and the fresh query found nothing: foregrounding
    /// the application is the whole effect.
    ActivationOnly,
}

/// Whether the focused window, if any, belongs to the target application.
pub open spec fn on_target(current: Option<WindowView>, target: Seq<char>) -> bool {
    match current {
        Some(c) => c.app == target,
        None => false,
    }
}

/// The position of the first window with the given identifier, if any.
pub open spec fn first_id_index(ws: Seq<WindowView>, id: u64) -> Option<int>
    decreases ws.len(),
{
    if ws.len() == 0 {
        None
    } else if ws[0].id == id {
        Some(0int)
    } else {
        match first_id_index(ws.drop_first(), id) {
            Some(i) => Some(i + 1),
            None => None,
        }
    }
}

/// Whether some window in the sequence carries the given identifier.
pub open spec fn has_id(ws: Seq<WindowView>, id: u64) -> bool {
    exists|i: int| 0 <= i < ws.len() && ws[i].id == id
}

/// Whether `i` is the position of the first window with the given identifier.
pub open spec fn first_id_at(ws: Seq<WindowView>, id: u64, i: int) -> bool {
    &&& 0 <= i < ws.len()
    &&& ws[i].id == id
    &&& forall|j: int| 0 <= j < i ==> ws[j].id != id
}

/// The decision rule: cycle when the target already holds focus, focus the
/// first reported window when one is visible, otherwise activate.
pub open spec fn spec_decide(
    current: Option<WindowView>,
    ws: Seq<WindowView>,
    target: Seq<char>,
) -> Outcome {
    if on_target(current, target) {
        if ws.len() <= 1 {
            Outcome::NoAction
        } else {
            match first_id_index(ws, current.unwrap().id) {
                Some(i) => Outcome::Cycle { window_id: ws[(i + 1) % (ws.len() as int)].id },
                None => Outcome::NoAction,
            }
        }
    } else if ws.len() > 0 {
        Outcome::DirectFocus { window_id: ws[0].id }
    } else {
        Outcome::Activate
    }
}

/// The view of an optional window.
pub open spec fn view_opt(current: Option<Window>) -> Option<WindowView> {
    match current {
        Some(w) => Some(w@),
        None => None,
    }
}

/// `first_id_index` finds exactly the first position holding the identifier,
/// and finds none exactly when no position holds it.
pub proof fn lemma_first_id_index(ws: Seq<WindowView>, id: u64)
    ensures
        match first_id_index(ws, id) {
            Some(i) => first_id_at(ws, id, i),
            None => !has_id(ws, id),
        },
    decreases ws.len(),
{
    if ws.len() == 0 {
    } else if ws[0].id == id {
    } else {
        lemma_first_id_index(ws.drop_first(), id);
        match first_id_index(ws.drop_first(), id) {
            Some(i) => {
                assert(ws.drop_first()[i] == ws[i + 1]);
                assert(forall|j: int| 1 <= j < i + 1 ==> ws[j] == ws.drop_first()[j - 1]);
            },
            None => {
                assert forall|i: int| 0 <= i < ws.len() implies ws[i].id != id by {
                    if i > 0 {
                        assert(ws.drop_first()[i - 1] == ws[i]);
                    }
                }
            },
        }
    }
}

/// A position that is first for an identifier is the one `first_id_index`
/// finds.
pub proof fn lemma_first_id_at_index(ws: Seq<WindowView>, id: u64, i: int)
    requires
        first_id_at(ws, id, i),
    ensures
        first_id_index(ws, id) == Some(i),
    decreases ws.len(),
{
    if i == 0 {
    } else {
        assert(ws[0].id != id);
        assert(ws.drop_first()[i - 1] == ws[i]);
        assert forall|j: int| 0 <= j < i - 1 implies ws.drop_first()[j].id != id by {
            assert(ws.drop_first()[j] == ws[j + 1]);
        }
        lemma_first_id_at_index(ws.drop_first(), id, i - 1);
    }
}

/// When the target application already holds focus and at most one window is
/// visible, the decision is to do nothing.
pub proof fn lemma_cycle_noop_when_small(
    current: Option<WindowView>,
    ws: Seq<WindowView>,
    target: Seq<char>,
)
    requires
        on_target(current, target),
        ws.len() <= 1,
    ensures
        spec_decide(current, ws, target) == Outcome::NoAction,
{
}

/// When the target application already holds focus and the focused window
/// stands first at position `i` of `n > 1` visible windows, the decision is
/// to cycle to position `(i + 1) % n`; at the last position it wraps to the
/// first.
pub proof fn lemma_cycle_steps_forward(
    current: Option<WindowView>,
    ws: Seq<WindowView>,
    target: Seq<char>,
    i: int,
)
    requires
        on_target(current, target),
        ws.len() > 1,
        first_id_at(ws, current.unwrap().id, i),
    ensures
        spec_decide(current, ws, target) == (Outcome::Cycle {
            window_id: ws[(i + 1) % (ws.len() as int)].id,
        }),
        i == ws.len() - 1 ==> spec_decide(current, ws, target) == (Outcome::Cycle {
            window_id: ws[0].id,
        }),
{
    lemma_first_id_at_index(ws, current.unwrap().id, i);
}

/// When the focused window's identifier is absent from the freshly queried
/// window set, a cycle request decides on no action: the stale snapshot is
/// tolerated, and no out-of-range window is chosen.
pub proof fn lemma_cycle_stale_noop(
    current: Option<WindowView>,
    ws: Seq<WindowView>,
    target: Seq<char>,
)
    requires
        on_target(current, target),
        !has_id(ws, current.unwrap().id),
    ensures
        spec_decide(current, ws, target) == Outcome::NoAction,
{
    lemma_first_id_index(ws, current.unwrap().id);
    match first_id_index(ws, current.unwrap().id) {
        Some(i) => {
            assert(0 <= i < ws.len() && ws[i].id == current.unwrap().id);
            assert(has_id(ws, current.unwrap().id));
        },
        None => {},
    }
}

/// When the target application does not hold focus and has at least one
/// visible window, the decision is to focus the first window in reported
/// order, whatever the other windows are.
pub proof fn lemma_direct_focus_first(
    current: Option<WindowView>,
    ws: Seq<WindowView>,
    target: Seq<char>,
)
    requires
        !on_target(current, target),
        ws.len() > 0,
    ensures
        spec_decide(current, ws, target) == (Outcome::DirectFocus { window_id: ws[0].id }),
{
}

/// Finds the position of the first window whose identifier is `id`.
fn find_index_by_id(windows: &Vec<Window>, id: u64) -> (r: Option<usize>)
    ensures
        r matches Some(i) ==> first_id_index(views(windows@), id) == Some(i as int),
        r is None ==> first_id_index(views(windows@), id) is None,
{
    let ghost vs = views(windows@);
    let n = windows.len();
    let mut i: usize = 0;
    while i < n
        invariant
            n == windows.len(),
            vs == views(windows@),
            i <= n,
            vs.len() == n,
            forall|j: int| 0 <= j < i ==> vs[j].id != id,
        decreases n - i,
    {
        if windows[i].id == id {
            proof {
                lemma_first_id_at_index(vs, id, i as int);
            }
            return Some(i);
        }
        i += 1;
    }
    proof {
        lemma_first_id_index(vs, id);
        match first_id_index(vs, id) {
            Some(k) => {
                assert(first_id_at(vs, id, k));
                assert(vs[k].id != id);
            },
            None => {},
        }
    }
    None
}

fn first_window_or_activate(windows: &Vec<Window>) -> (out: Outcome)
    ensures
        windows@.len() > 0 ==> out == (Outcome::DirectFocus { window_id: windows@[0].id }),
        windows@.len() == 0 ==> out == Outcome::Activate,
{
    if windows.len() > 0 {
        proof {
            assert(views(windows@)[0] == windows@[0]@);
        }
        Outcome::DirectFocus { window_id: windows[0].id }
    } else {
        Outcome::Activate
    }
}

/// Chooses the one action for a request: `current` is the focused window (if
/// any), `windows` the target application's visible windows in reported
/// order, `target` the requested application name.
pub fn decide(current: &Option<Window>, windows: &Vec<Window>, target: &String) -> (out: Outcome)
    ensures
        out == spec_decide(view_opt(*current), views(windows@), target@),
{
    let ghost vs = views(windows@);
    match current {
        Some(c) => {
            if c.app == *target {
                if windows.len() <= 1 {
                    Outcome::NoAction
                } else {
                    match find_index_by_id(windows, c.id) {
                        Some(i) => {
                            proof {
                                lemma_first_id_index(vs, c.id);
                            }
                            let next: usize = (i + 1) % windows.len();
                            proof {
                                assert(vs[next as int] == windows@[next as int]@);
                            }
                            Outcome::Cycle { window_id: windows[next].id }
                        },
                        None => Outcome::NoAction,
                    }
                }
            } else {
                first_window_or_activate(windows)
            }
        },
        None => first_window_or_activate(windows),
    }
}

/// Chooses the follow-up after an activation attempt: `matched` is whether a
/// running application matched the target name, `requeried` the target's
/// visible windows queried afresh after a match (empty when nothing matched,
/// since no fresh query is made then).
pub fn decide_after_activation(matched: bool, requeried: &Vec<Window>) -> (f: AfterActivation)
    ensures
        f == AfterActivation::Launch <==> !matched,
        matched && requeried@.len() > 0 ==> f == (AfterActivation::DirectFocus {
            window_id: requeried@[0].id,
        }),
        matched && requeried@.len() == 0 ==> f == AfterActivation::ActivationOnly,
{
    if !matched {
        AfterActivation::Launch
    } else if requeried.len() > 0 {
        AfterActivation::DirectFocus { window_id: requeried[0].id }
    } else {
        AfterActivation::ActivationOnly
    }
}

} // verus!
