//! Forwarding: the request that carries an observation downstream, and the
//! three ways in which the attempt can end.

use crate::config::Config;
use crate::observation::WeatherObservation;
use vstd::prelude::*;

verus! {

/// One HTTP POST to the downstream service. It is made once; a failure is
/// reported, not tried again.
#[derive(Clone, Debug, PartialEq, Eq)]
pub struct ForwardRequest {
    /// The URL to post to.
    pub url: String,
    /// The JSON text of the observation.
    pub body: String,
    /// The number of seconds after which the attempt counts as failed.
    pub timeout_secs: u64,
}

/// A `ForwardRequest` with its strings as sequences of characters.
pub struct ForwardRequestView {
    pub url: Seq<char>,
    pub body: Seq<char>,
    pub timeout_secs: u64,
}

impl View for ForwardRequest {
    type V = ForwardRequestView;

    open spec fn view(&self) -> ForwardRequestView {
        ForwardRequestView { url: self.url@, body: self.body@, timeout_secs: self.timeout_secs }
    }
}

/// How an attempt to forward an observation ended.
#[derive(Clone, Debug, PartialEq, Eq)]
pub enum Outcome {
    /// The downstream service answered with a success status.
    Success { status: u16, body: String },
    /// The downstream service answered with any other status.
    Rejected { status: u16, body: String },
    /// No answer came: the connection was refused, the name did not
    /// resolve, or the time ran out.
    Unreachable { description: String },
}

/// The HTTP status codes that mean success: 200 to 299.
pub open spec fn is_success(status: u16) -> bool {
    200 <= status <= 299
}

/// The request that carries `observation` downstream under `config`.
pub open spec fn planned(config: Config, observation: WeatherObservation) -> ForwardRequestView {
    ForwardRequestView {
        url: config.forward_text(),
        body: observation.wire_text(),
        timeout_secs: config.timeout_secs,
    }
}

/// Makes the request that carries `observation` downstream: its JSON text,
/// the URL from the configuration, and the configured timeout.
pub fn plan(config: &Config, observation: &WeatherObservation) -> (request: ForwardRequest)
    ensures
        request@ == planned(*config, *observation),
{
    ForwardRequest {
        url: config.forward_url(),
        body: observation.encode(),
        timeout_secs: config.timeout_secs,
    }
}

impl Outcome {
    /// The outcome that an answer of the downstream service amounts to.
    pub open spec fn classified(status: u16, body: String) -> Outcome {
        if is_success(status) {
            Outcome::Success { status, body }
        } else {
            Outcome::Rejected { status, body }
        }
    }

    /// Classifies an answer of the downstream service by its status code:
    /// success for 200 to 299, rejection for every other. Status and body
    /// are kept as they came.
    pub fn of_answer(status: u16, body: String) -> (outcome: Outcome)
        ensures
            outcome == Outcome::classified(status, body),
    {
        if 200 <= status && status <= 299 {
            Outcome::Success { status, body }
        } else {
            Outcome::Rejected { status, body }
        }
    }

    /// The outcome of an attempt that got no answer, with what the
    /// transport said of the failure.
    pub fn unreachable(description: String) -> (outcome: Outcome)
        ensures
            outcome == (Outcome::Unreachable { description }),
    {
        Outcome::Unreachable { description }
    }
}

} // verus!
