//! The control API's one endpoint: authenticate a webhook call and decide the
//! reply.
use vstd::prelude::*;

verus! {

pub open spec fn opt_view(o: Option<String>) -> Option<Seq<char>> {
    match o {
        Some(s) => Some(s@),
        None => None,
    }
}

/// The call carries the configured key, and a key is configured.
pub open spec fn key_accepted(expected: Option<Seq<char>>, provided: Option<Seq<char>>) -> bool {
    match expected {
        Some(e) => e.len() > 0 && provided == Some(e),
        None => false,
    }
}

pub open spec fn unauthorized_message() -> Seq<char> {
    "Unauthorized: invalid or missing API key"@
}

pub open spec fn queued_message() -> Seq<char> {
    "Update was added to the queue and will be processed shortly."@
}

/// The webhook's answer, and whether an update is to be started.
pub struct WebhookReply {
    /// HTTP status of the answer.
    pub status: u16,
    pub success: bool,
    pub message: String,
    /// Whether one update request is to be handed to the coordinator, unawaited.
    pub enqueue: bool,
}

/// Decides a webhook call from the configured key and the key in the query.
/// An unset or empty configured key, a missing key and a different key all give
/// 401; the configured key gives 200 and one update request.
pub fn webhook_update(expected: Option<String>, provided: Option<String>) -> (r: WebhookReply)
    ensures
        r.enqueue == key_accepted(opt_view(expected), opt_view(provided)),
        r.success == r.enqueue,
        r.enqueue ==> r.status == 200 && r.message@ == queued_message(),
        !r.enqueue ==> r.status == 401 && r.message@ == unauthorized_message(),
{
    let authorized = match (&expected, &provided) {
        (Some(e), Some(p)) => !e.as_str().is_empty() && *p == *e,
        _ => false,
    };
    if authorized {
        WebhookReply {
            status: 200,
            success: true,
            message: "Update was added to the queue and will be processed shortly.".to_owned(),
            enqueue: true,
        }
    } else {
        WebhookReply {
            status: 401,
            success: false,
            message: "Unauthorized: invalid or missing API key".to_owned(),
            enqueue: false,
        }
    }
}

} // verus!
