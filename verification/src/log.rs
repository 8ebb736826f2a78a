//! The request log.

use vstd::prelude::*;

verus! {

/// The line that records one request.
pub open spec fn log_line(timestamp: Seq<char>, method: Seq<char>, url: Seq<char>) -> Seq<char> {
    "["@ + timestamp + "] "@ + method + " "@ + url + "\n"@
}

/// Makes the line to append to the log for one request: the time it came in,
/// its method and its address.
pub fn log_request(timestamp: &str, method: &str, url: &str) -> (r: String)
    ensures
        r@ == log_line(timestamp@, method@, url@),
{
    let mut line: String = "[".to_owned();
    line.append(timestamp);
    line.append("] ");
    line.append(method);
    line.append(" ");
    line.append(url);
    line.append("\n");
    line
}

} // verus!
