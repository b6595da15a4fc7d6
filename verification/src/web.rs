//! Small pieces of the HTTP service: CORS headers and log lines.
use vstd::prelude::*;
use crate::text::text_eq;

verus! {

/// The CORS headers added to every response, as (name, value) pairs.
pub fn cors_headers() -> (res: Vec<(String, String)>)
    ensures
        res@.len() == 3,
        res@[0].0@ == "access-control-allow-origin"@ && res@[0].1@ == "*"@,
        res@[1].0@ == "access-control-allow-methods"@ && res@[1].1@
            == "GET, POST, PUT, DELETE, OPTIONS"@,
        res@[2].0@ == "access-control-allow-headers"@ && res@[2].1@ == "*"@,
{
    let mut res: Vec<(String, String)> = Vec::new();
    res.push((String::from_str("access-control-allow-origin"), String::from_str("*")));
    res.push(
        (
            String::from_str("access-control-allow-methods"),
            String::from_str("GET, POST, PUT, DELETE, OPTIONS"),
        ),
    );
    res.push((String::from_str("access-control-allow-headers"), String::from_str("*")));
    res
}

/// Whether a request with this method is a CORS preflight, answered at
/// once with an empty body and the CORS headers.
pub fn is_preflight(method: &str) -> (res: bool)
    ensures
        res == (method@ == "OPTIONS"@),
{
    text_eq(method, "OPTIONS")
}

/// The event logged for a request: its method and URI.
pub fn request_event(method: &str, uri: &str) -> (res: String)
    ensures
        res@ == method@ + " "@ + uri@,
{
    let mut event = String::from_str(method);
    event.append(" ");
    event.append(uri);
    event
}

/// A line of the server log: the time in brackets, the event, a newline.
pub fn log_line(timestamp: &str, event: &str) -> (res: String)
    ensures
        res@ == "["@ + timestamp@ + "] "@ + event@ + "\n"@,
{
    let mut line = String::from_str("[");
    line.append(timestamp);
    line.append("] ");
    line.append(event);
    line.append("\n");
    line
}

} // verus!
