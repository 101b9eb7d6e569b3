//! The webhook sink: an optional target URL shared by every session.
//!
//! Emitting an event means one HTTP POST of the event's JSON document to
//! the configured URL, fire-and-forget. Without a URL, emission is
//! disabled and emitting is a no-op. Delivery failures are logged and
//! discarded; they never reach the echo path, which takes no sink at all.

use vstd::prelude::*;

use crate::copy_bytes;
use crate::events::GatewayEvent;
use crate::json::event_json;
use crate::json::event_to_json;

verus! {

/// One prepared delivery: where to POST, and the JSON body.
pub struct WebhookRequest {
    pub url: Vec<u8>,
    pub body: Vec<u8>,
}

/// The process-wide webhook configuration.
pub struct WebhookSink {
    pub url: Option<Vec<u8>>,
}

impl WebhookSink {
    /// A sink posting to `url`; absence disables emission entirely.
    pub fn new(url: Option<Vec<u8>>) -> (s: WebhookSink)
        ensures
            s.url == url,
    {
        WebhookSink { url }
    }

    /// Whether emission is enabled.
    pub fn enabled(&self) -> (b: bool)
        ensures
            b == (self.url is Some),
    {
        match &self.url {
            Some(_) => true,
            None => false,
        }
    }

    /// The one HTTP request that emitting `event` issues: none when no URL
    /// is configured, else a POST of the event's JSON document to the
    /// configured URL.
    pub fn request_for(&self, event: &GatewayEvent) -> (r: Option<WebhookRequest>)
        ensures
            match self.url {
                Option::None => r is None,
                Option::Some(u) => r matches Some(req) && req.url@ == u@ && req.body@
                    == event_json(event@),
            },
    {
        match &self.url {
            None => None,
            Some(u) => Some(WebhookRequest { url: copy_bytes(u), body: event_to_json(event) }),
        }
    }
}

} // verus!
