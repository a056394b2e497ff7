//! Command texts and addresses of the window-manager protocol.
//!
//! The window manager is reached over a per-user local socket; a command is
//! one line of text. The builders here produce exactly the texts their spec
//! functions describe, so the surrounding binary sends verified bytes.

use vstd::prelude::*;
use vstd::string::StrSliceExecFns;
use vstd::string::StringExecFns;

verus! {

/// The character standing for one decimal digit value.
pub open spec fn digit_char(d: nat) -> char {
    if d == 0 {
        '0'
    } else if d == 1 {
        '1'
    } else if d == 2 {
        '2'
    } else if d == 3 {
        '3'
    } else if d == 4 {
        '4'
    } else if d == 5 {
        '5'
    } else if d == 6 {
        '6'
    } else if d == 7 {
        '7'
    } else if d == 8 {
        '8'
    } else {
        '9'
    }
}

/// The decimal notation of `n`, most significant digit first, without
/// leading zeroes (a single `'0'` for zero).
pub open spec fn decimal_of(n: nat) -> Seq<char>
    decreases n,
{
    if n < 10 {
        seq![digit_char(n)]
    } else {
        decimal_of(n / 10).push(digit_char(n % 10))
    }
}

fn digit_str(d: u64) -> (r: &'static str)
    requires
        d < 10,
    ensures
        r@ == seq![digit_char(d as nat)],
{
    let r: &'static str = if d == 0 {
        "0"
    } else if d == 1 {
        "1"
    } else if d == 2 {
        "2"
    } else if d == 3 {
        "3"
    } else if d == 4 {
        "4"
    } else if d == 5 {
        "5"
    } else if d == 6 {
        "6"
    } else if d == 7 {
        "7"
    } else if d == 8 {
        "8"
    } else {
        "9"
    };
    proof {
        reveal_strlit("0");
        reveal_strlit("1");
        reveal_strlit("2");
        reveal_strlit("3");
        reveal_strlit("4");
        reveal_strlit("5");
        reveal_strlit("6");
        reveal_strlit("7");
        reveal_strlit("8");
        reveal_strlit("9");
        assert(r@ =~= seq![digit_char(d as nat)]);
    }
    r
}

/// The decimal text of `n`.
pub fn u64_to_decimal(n: u64) -> (s: String)
    ensures
        s@ == decimal_of(n as nat),
    decreases n,
{
    if n < 10 {
        digit_str(n).to_owned()
    } else {
        let mut s = u64_to_decimal(n / 10);
        s.append(digit_str(n % 10));
        proof {
            assert(s@ =~= decimal_of(n as nat));
        }
        s
    }
}

/// The command text that asks the window manager to focus the window with
/// the given identifier.
pub open spec fn focus_command(id: u64) -> Seq<char> {
    "window --focus "@ + decimal_of(id as nat)
}

/// Builds the command that focuses window `id`. The caller sends the text
/// over the window-manager socket and discards any response.
pub fn focus_window(id: u64) -> (cmd: String)
    ensures
        cmd@ == focus_command(id),
{
    let mut cmd = "window --focus ".to_owned();
    let digits = u64_to_decimal(id);
    cmd.append(digits.as_str());
    cmd
}

/// The query text for the currently focused window.
pub fn focused_window_query() -> (q: String)
    ensures
        q@ == "query --windows --window"@,
{
    "query --windows --window".to_owned()
}

/// The query text for the full window list.
pub fn all_windows_query() -> (q: String)
    ensures
        q@ == "query --windows"@,
{
    "query --windows".to_owned()
}

/// The per-user socket path of the window manager.
pub fn yabai_socket_path(user: &str) -> (p: String)
    ensures
        p@ == "/tmp/yabai_"@ + user@ + ".socket"@,
{
    let mut p = "/tmp/yabai_".to_owned();
    p.append(user);
    p.append(".socket");
    proof {
        assert(p@ =~= "/tmp/yabai_"@ + user@ + ".socket"@);
    }
    p
}

/// The local address at which the request server listens.
pub fn daemon_socket_path() -> (p: String)
    ensures
        p@ == "/tmp/launch-focus.sock"@,
{
    "/tmp/launch-focus.sock".to_owned()
}

} // verus!
