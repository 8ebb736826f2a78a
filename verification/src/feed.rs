//! The feed of current disaster events.

use crate::reply::{refusal, refuse_with, Refusal, RefusalView, INTERNAL_SERVER_ERROR};
use vstd::prelude::*;

verus! {

/// Why the feed could not be had.
#[derive(Debug)]
pub enum FeedFailure {
    /// The request failed, with this description.
    Unreachable(String),
    /// The answer was no JSON, with this description.
    Unreadable(String),
}

/// Where the feed is fetched from.
pub fn events_url() -> (r: String)
    ensures
        r@ == "https://www.gdacs.org/gdacsapi/api/events/geteventlist/EVENTS4APP"@,
{
    "https://www.gdacs.org/gdacsapi/api/events/geteventlist/EVENTS4APP".to_owned()
}

/// How a failure of the feed is answered.
pub open spec fn feed_refusal(failure: FeedFailure) -> RefusalView {
    match failure {
        FeedFailure::Unreachable(why) => refusal(
            INTERNAL_SERVER_ERROR,
            "Error fetching GDACS API: "@ + why@,
        ),
        FeedFailure::Unreadable(why) => refusal(
            INTERNAL_SERVER_ERROR,
            "Error parsing JSON: "@ + why@,
        ),
    }
}

/// Answers a request for the feed where the feed could not be had.
pub fn disaster_event_data(failure: FeedFailure) -> (r: Refusal)
    ensures
        r@ == feed_refusal(failure),
{
    match failure {
        FeedFailure::Unreachable(why) => refuse_with(
            INTERNAL_SERVER_ERROR,
            "Error fetching GDACS API: ",
            why.as_str(),
        ),
        FeedFailure::Unreadable(why) => refuse_with(
            INTERNAL_SERVER_ERROR,
            "Error parsing JSON: ",
            why.as_str(),
        ),
    }
}

} // verus!
