//! Parsing and filtering of window-manager query responses.
//!
//! A query response is a UTF-8 JSON document: one window object for the
//! focused-window query, an array of window objects for the window-list
//! query. Each object carries an integer `id`, a string `app`, and a boolean
//! `is-minimized`. Parsing is done by serde_json behind trusted wrappers; the
//! filtering that the decision engine depends on is verified.

use crate::window::views;
use crate::window::visible_for;
use crate::window::Window;
use crate::window::WindowView;
use vstd::prelude::*;

verus! {

/// The window record held by a JSON document of one window object, if the
/// document parses and carries the three fields; the result depends on the
/// text alone.
pub uninterp spec fn parsed_focused_window(s: Seq<char>) -> Option<WindowView>;

/// The window records held by a JSON document of an array of window objects,
/// in array order, if the document parses and every element carries the
/// three fields; the result depends on the text alone.
pub uninterp spec fn parsed_window_list(s: Seq<char>) -> Option<Seq<WindowView>>;

/// Relies on serde_json::from_str and the Value accessors: parses one JSON
/// window object with fields "id" (an unsigned integer), "app" (a string)
/// and "is-minimized" (a boolean), and yields nothing on any malformed or
/// incomplete document.
#[verifier::external_body]
fn parse_focused_window(s: &str) -> (r: Option<Window>)
    ensures
        match r {
            Some(w) => parsed_focused_window(s@) == Some(w@),
            None => parsed_focused_window(s@) is None,
        },
{
    let v: serde_json::Value = serde_json::from_str(s).ok()?;
    let id = v.get("id")?.as_u64()?;
    let app = v.get("app")?.as_str()?.to_string();
    let minimized = v.get("is-minimized")?.as_bool()?;
    Some(Window { id, app, minimized })
}

/// Relies on serde_json::from_str and the Value accessors: parses a JSON
/// array of window objects, each as in `parse_focused_window`, in array
/// order, and yields nothing when the document or any element is malformed.
#[verifier::external_body]
fn parse_window_list(s: &str) -> (r: Option<Vec<Window>>)
    ensures
        match r {
            Some(ws) => parsed_window_list(s@) == Some(views(ws@)),
            None => parsed_window_list(s@) is None,
        },
{
    let v: serde_json::Value = serde_json::from_str(s).ok()?;
    let arr = v.as_array()?;
    let mut out = Vec::new();
    for item in arr {
        let id = item.get("id")?.as_u64()?;
        let app = item.get("app")?.as_str()?.to_string();
        let minimized = item.get("is-minimized")?.as_bool()?;
        out.push(Window { id, app, minimized });
    }
    Some(out)
}

/// The focused window read from a query response: absent when the query
/// failed (no response) or the response does not parse.
pub fn get_focused_window(response: Option<&str>) -> (r: Option<Window>)
    ensures
        match response {
            None => r is None,
            Some(s) => match r {
                Some(w) => parsed_focused_window(s@) == Some(w@),
                None => parsed_focused_window(s@) is None,
            },
        },
{
    match response {
        None => None,
        Some(s) => parse_focused_window(s),
    }
}

/// Keeps, in order, the windows of the named application that are not
/// minimized: the only windows the decision engine may see.
pub fn filter_app_windows(all: Vec<Window>, app: &String) -> (ws: Vec<Window>)
    ensures
        views(ws@) == views(all@).filter(|w: WindowView| visible_for(w, app@)),
{
    let ghost vs = views(all@);
    let ghost pred = |w: WindowView| visible_for(w, app@);
    let n = all.len();
    let mut out: Vec<Window> = Vec::new();
    let mut i: usize = 0;
    proof {
        assert(vs.subrange(0, 0) =~= Seq::<WindowView>::empty());
        reveal(Seq::filter);
    }
    while i < n
        invariant
            n == all.len(),
            vs == views(all@),
            vs.len() == n,
            i <= n,
            pred == (|w: WindowView| visible_for(w, app@)),
            views(out@) == vs.subrange(0, i as int).filter(pred),
        decreases n - i,
    {
        let ghost prev = views(out@);
        let w = &all[i];
        let keep = w.app == *app && !w.minimized;
        if keep {
            let copy = Window { id: w.id, app: w.app.clone(), minimized: w.minimized };
            proof {
                assert(copy@ == all@[i as int]@);
            }
            out.push(copy);
            proof {
                assert(views(out@) =~= prev.push(all@[i as int]@));
            }
        }
        proof {
            reveal(Seq::filter);
            let sub = vs.subrange(0, i + 1);
            assert(sub.drop_last() =~= vs.subrange(0, i as int));
            assert(sub.last() == vs[i as int]);
            assert(vs[i as int] == all@[i as int]@);
            assert(pred(vs[i as int]) == keep);
            assert(views(out@) =~= sub.filter(pred));
        }
        i += 1;
    }
    proof {
        assert(vs.subrange(0, n as int) =~= vs);
    }
    out
}

/// The named application's visible windows read from a window-list query
/// response: the parsed records of the response, kept to those owned by
/// `app` and not minimized, in reported order; empty when the query failed
/// or the response does not parse.
pub fn get_app_windows(response: Option<&str>, app: &String) -> (ws: Vec<Window>)
    ensures
        match response {
            None => ws@ == Seq::<Window>::empty(),
            Some(s) => match parsed_window_list(s@) {
                Some(all) => views(ws@) == all.filter(
                    |w: WindowView| visible_for(w, app@),
                ),
                None => ws@ == Seq::<Window>::empty(),
            },
        },
{
    match response {
        None => Vec::new(),
        Some(s) => match parse_window_list(s) {
            Some(all) => filter_app_windows(all, app),
            None => Vec::new(),
        },
    }
}

} // verus!
