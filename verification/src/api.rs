//! The inputs and answers of the HTTP API.

use vstd::prelude::*;

verus! {

/// A chat request with its defaults filled in.
#[derive(Clone, Debug)]
pub struct ChatRequest {
    pub message: String,
    pub religion: String,
    pub style: String,
}

/// The text of an optional field, or `default` when it is absent.
fn or_default(field: Option<&str>, default: &str) -> (r: String)
    ensures
        r@ == match field {
            Some(v) => v@,
            None => default@,
        },
{
    match field {
        Some(v) => String::from_str(v),
        None => String::from_str(default),
    }
}

/// The chat request made of the fields of a payload: a missing message is
/// empty, a missing religion is "neutre", a missing style "bienveillant".
pub fn chat_request(message: Option<&str>, religion: Option<&str>, style: Option<&str>) -> (r:
    ChatRequest)
    ensures
        r.message@ == match message {
            Some(v) => v@,
            None => ""@,
        },
        r.religion@ == match religion {
            Some(v) => v@,
            None => "neutre"@,
        },
        r.style@ == match style {
            Some(v) => v@,
            None => "bienveillant"@,
        },
{
    ChatRequest {
        message: or_default(message, ""),
        religion: or_default(religion, "neutre"),
        style: or_default(style, "bienveillant"),
    }
}

/// The statistics that the API reports.
#[derive(Clone, Debug)]
pub struct ServiceStats {
    pub queue_length: usize,
    pub webhooks_count: usize,
    pub status: String,
}

/// The statistics for a queue length (absent when it could not be read,
/// which counts as 0) and a number of webhooks; the status is "healthy".
pub fn service_stats(queue_length: Option<usize>, webhooks_count: usize) -> (r: ServiceStats)
    ensures
        r.queue_length == match queue_length {
            Some(n) => n,
            None => 0,
        },
        r.webhooks_count == webhooks_count,
        r.status@ == "healthy"@,
{
    ServiceStats {
        queue_length: match queue_length {
            Some(n) => n,
            None => 0,
        },
        webhooks_count,
        status: String::from_str("healthy"),
    }
}

} // verus!
