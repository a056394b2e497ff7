//! Request-line handling of the request server.
//!
//! The server reads one line of text per connection. The line, trimmed of
//! surrounding whitespace, is the target application name; a line that holds
//! nothing else is ignored. The accept loop, the socket, and the sequential
//! dispatch live in the surrounding binary; what a line means is decided
//! here.

use vstd::prelude::*;
use vstd::string::StrSliceExecFns;

verus! {

/// The characters trimmed from either end of a request line.
pub open spec fn is_request_ws(c: char) -> bool {
    c == ' ' || c == '\t' || c == '\r' || c == '\n'
}

fn is_ws(c: char) -> (r: bool)
    ensures
        r == is_request_ws(c),
{
    c == ' ' || c == '\t' || c == '\r' || c == '\n'
}

fn first_non_ws(line: &str, n: usize, from: usize) -> (r: usize)
    requires
        n == line@.len(),
        from <= n,
    ensures
        from <= r <= n,
        forall|k: int| from <= k < r ==> is_request_ws(line@[k]),
        r < n ==> !is_request_ws(line@[r as int]),
    decreases n - from,
{
    if from == n {
        n
    } else if is_ws(line.get_char(from)) {
        first_non_ws(line, n, from + 1)
    } else {
        from
    }
}

fn trim_end(line: &str, n: usize, upto: usize) -> (r: usize)
    requires
        n == line@.len(),
        upto <= n,
    ensures
        r <= upto,
        forall|k: int| r <= k < upto ==> is_request_ws(line@[k]),
        r > 0 ==> !is_request_ws(line@[r - 1]),
    decreases upto,
{
    if upto == 0 {
        0
    } else if is_ws(line.get_char(upto - 1)) {
        trim_end(line, n, upto - 1)
    } else {
        upto
    }
}

/// The application name carried by one request line: the line with leading
/// and trailing whitespace removed, or nothing when nothing else is left —
/// an empty request is ignored.
pub fn trim_request(line: &str) -> (r: Option<String>)
    ensures
        (r is None) <==> (forall|k: int| 0 <= k < line@.len() ==> is_request_ws(line@[k])),
        r matches Some(t) ==> exists|i: int, j: int|
            {
                &&& 0 <= i < j <= line@.len()
                &&& t@ == line@.subrange(i, j)
                &&& !is_request_ws(line@[i])
                &&& !is_request_ws(line@[j - 1])
                &&& (forall|k: int| 0 <= k < i ==> is_request_ws(line@[k]))
                &&& (forall|k: int| j <= k < line@.len() ==> is_request_ws(line@[k]))
            },
{
    let n = line.unicode_len();
    let i = first_non_ws(line, n, 0);
    if i == n {
        None
    } else {
        let j = trim_end(line, n, n);
        proof {
            if j <= i {
                assert(is_request_ws(line@[i as int]));
            }
        }
        let t = line.substring_char(i, j);
        let r = Some(t.to_owned());
        proof {
            assert(!is_request_ws(line@[i as int]));
        }
        r
    }
}

} // verus!
