//! Classification of health-probe answers.
use vstd::prelude::*;

verus! {

/// An HTTP status that shows the server is alive: any success, any redirect, and
/// the client errors up to 405 (the root path need not be a health endpoint).
pub open spec fn healthy_status(code: u16) -> bool {
    (200 <= code <= 299) || (300 <= code <= 399) || (400 <= code <= 405)
}

/// A probe answer: the status received, or `None` when no HTTP answer came.
pub open spec fn probe_ok(answer: Option<u16>) -> bool {
    match answer {
        Some(code) => healthy_status(code),
        None => false,
    }
}

pub fn is_healthy_status(code: u16) -> (r: bool)
    ensures
        r == healthy_status(code),
{
    200 <= code && code <= 405
}

pub fn probe_succeeded(answer: Option<u16>) -> (r: bool)
    ensures
        r == probe_ok(answer),
{
    match answer {
        Some(code) => is_healthy_status(code),
        None => false,
    }
}

} // verus!
