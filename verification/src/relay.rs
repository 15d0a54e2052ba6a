//! The relay's decisions, one request at a time.
//!
//! [`dispatch`] looks at a request and decides: answer at once, or forward
//! an observation. Where it decides to forward, the server makes that one
//! HTTP request, tells how it ended as an [`Outcome`], and [`respond`]
//! gives the reply. Nothing is kept between requests, and no function here
//! asks for a second attempt.

use crate::config::Config;
use crate::forward::is_success;
use crate::forward::plan;
use crate::forward::planned;
use crate::forward::ForwardRequest;
use crate::forward::ForwardRequestView;
use crate::forward::Outcome;
use crate::json::parsed;
use crate::json::Json;
use crate::observation::WeatherObservation;
use crate::payload::field_of;
use crate::payload::fits;
use crate::payload::lemma_valid_iff_well_formed;
use crate::payload::validate;
use crate::payload::validation_of;
use crate::payload::Defect;
use crate::payload::FieldName;
use crate::response::RelayStatus;
use crate::response::Reply;
use crate::response::ReplyView;
use crate::text::append_decimal;
use crate::text::decimal;
use crate::text::lemma_occurs_between;
use crate::text::occurs_in;
use crate::text::same_text;
use vstd::prelude::*;

verus! {

/// What a request asks for, by its method and path.
#[derive(Clone, Copy, Debug, PartialEq, Eq, Structural)]
pub enum Route {
    /// `GET /health`: is the relay running?
    Health,
    /// `POST /tweet` or `POST /api/tweet`: an observation is submitted.
    Submit,
    /// Anything else.
    NotFound,
}

/// What the server is to do next for a request.
#[derive(Clone, Debug, PartialEq, Eq)]
pub enum Action {
    /// Send this reply; the downstream service is not contacted.
    Respond(Reply),
    /// Make this request to the downstream service, once.
    Forward(ForwardRequest),
}

/// An `Action` with its strings as sequences of characters.
pub enum ActionView {
    Respond(ReplyView),
    Forward(ForwardRequestView),
}

impl View for Action {
    type V = ActionView;

    open spec fn view(&self) -> ActionView {
        match self {
            Action::Respond(reply) => ActionView::Respond(reply@),
            Action::Forward(request) => ActionView::Forward(request@),
        }
    }
}

/// The route of a request. Method and path are compared as they are
/// written, letter for letter.
pub open spec fn route_of(method: Seq<char>, path: Seq<char>) -> Route {
    if method == "GET"@ && path == "/health"@ {
        Route::Health
    } else if method == "POST"@ && (path == "/tweet"@ || path == "/api/tweet"@) {
        Route::Submit
    } else {
        Route::NotFound
    }
}

/// The reply to a health check.
pub open spec fn health_reply() -> ReplyView {
    ReplyView { code: 200, status: RelayStatus::Okay, message: "Rust API is running"@ }
}

/// The reply to a request that has no route.
pub open spec fn not_found_reply() -> ReplyView {
    ReplyView { code: 404, status: RelayStatus::Error, message: "Not found"@ }
}

/// The reply to a body that is no observation.
pub open spec fn refusal(defect: Defect) -> ReplyView {
    ReplyView {
        code: 400,
        status: RelayStatus::Error,
        message: "Malformed payload: "@ + defect.description(),
    }
}

/// The message for an observation that the downstream service rejected:
/// the status that it answered with, and then its body where it sent one.
pub open spec fn rejection_text(status: u16, body: Seq<char>) -> Seq<char> {
    let head = "Failed to process tweet: downstream returned status "@ + decimal(status as int);
    if body.len() == 0 {
        head
    } else {
        head + ": "@ + body
    }
}

/// The reply that an outcome of forwarding gets.
pub open spec fn reply_to(outcome: Outcome) -> ReplyView {
    match outcome {
        Outcome::Success { status, body } => ReplyView {
            code: 200,
            status: RelayStatus::Okay,
            message: "Tweet processed"@,
        },
        Outcome::Rejected { status, body } => ReplyView {
            code: 500,
            status: RelayStatus::Error,
            message: rejection_text(status, body@),
        },
        Outcome::Unreachable { description } => ReplyView {
            code: 500,
            status: RelayStatus::Error,
            message: "Service error: "@ + description@,
        },
    }
}

/// What is done with a submitted body, given how its validation ended: a
/// valid observation is forwarded, a defect is answered with a refusal.
pub open spec fn submission(
    config: Config,
    validation: Result<WeatherObservation, Defect>,
) -> ActionView {
    match validation {
        Ok(observation) => ActionView::Forward(planned(config, observation)),
        Err(defect) => ActionView::Respond(refusal(defect)),
    }
}

/// What is done with a request, given the document that was read from its
/// body, if any was.
pub open spec fn decision(
    config: Config,
    method: Seq<char>,
    path: Seq<char>,
    document: Option<Json>,
) -> ActionView {
    match route_of(method, path) {
        Route::Health => ActionView::Respond(health_reply()),
        Route::Submit => submission(config, validation_of(document)),
        Route::NotFound => ActionView::Respond(not_found_reply()),
    }
}

/// Finds the route of a request.
pub fn route(method: &str, path: &str) -> (route: Route)
    ensures
        route == route_of(method@, path@),
{
    if same_text(method, "GET") && same_text(path, "/health") {
        Route::Health
    } else if same_text(method, "POST") && (same_text(path, "/tweet") || same_text(
        path,
        "/api/tweet",
    )) {
        Route::Submit
    } else {
        Route::NotFound
    }
}

/// The reply to a health check: always the same.
pub fn health() -> (reply: Reply)
    ensures
        reply@ == health_reply(),
{
    Reply::new(200, RelayStatus::Okay, String::from_str("Rust API is running"))
}

/// The reply to a request that has no route.
pub fn not_found() -> (reply: Reply)
    ensures
        reply@ == not_found_reply(),
{
    Reply::new(404, RelayStatus::Error, String::from_str("Not found"))
}

/// The reply to a body that is no observation: a client error that names
/// the defect.
pub fn refuse(defect: &Defect) -> (reply: Reply)
    ensures
        reply@ == refusal(*defect),
{
    let mut message = String::from_str("Malformed payload: ");
    let description = defect.describe();
    message.append(description.as_str());
    Reply::new(400, RelayStatus::Error, message)
}

/// Decides what is done with a submitted body, given how its validation
/// ended.
pub fn submit(config: &Config, validation: Result<WeatherObservation, Defect>) -> (action: Action)
    ensures
        action@ == submission(*config, validation),
{
    match validation {
        Ok(observation) => Action::Forward(plan(config, &observation)),
        Err(defect) => Action::Respond(refuse(&defect)),
    }
}

/// Receives a submitted body: validates it, and decides to forward the
/// observation that it holds or to refuse it for its defect.
pub fn receive_tweet(config: &Config, body: &[u8]) -> (action: Action)
    ensures
        action@ == submission(*config, validation_of(parsed(body@))),
{
    submit(config, validate(body))
}

/// Decides what is done with a request. The body is read only where the
/// request submits an observation.
pub fn dispatch(config: &Config, method: &str, path: &str, body: &[u8]) -> (action: Action)
    ensures
        action@ == decision(*config, method@, path@, parsed(body@)),
{
    match route(method, path) {
        Route::Health => Action::Respond(health()),
        Route::Submit => receive_tweet(config, body),
        Route::NotFound => Action::Respond(not_found()),
    }
}

/// Gives the reply that an outcome of forwarding gets.
pub fn respond(outcome: &Outcome) -> (reply: Reply)
    ensures
        reply@ == reply_to(*outcome),
{
    match outcome {
        Outcome::Success { .. } => Reply::new(
            200,
            RelayStatus::Okay,
            String::from_str("Tweet processed"),
        ),
        Outcome::Rejected { status, body } => {
            let mut message = String::from_str(
                "Failed to process tweet: downstream returned status ",
            );
            append_decimal(&mut message, *status as i64);
            if !body.as_str().is_empty() {
                message.append(": ");
                message.append(body.as_str());
            }
            Reply::new(500, RelayStatus::Error, message)
        },
        Outcome::Unreachable { description } => {
            let mut message = String::from_str("Service error: ");
            message.append(description.as_str());
            Reply::new(500, RelayStatus::Error, message)
        },
    }
}

/// A submitted body that holds an observation is forwarded, and when the
/// downstream service then answers with a success status, the reply has
/// code 200 and status `Okay`.
pub proof fn lemma_forwarded_success_is_okay(
    config: Config,
    method: Seq<char>,
    path: Seq<char>,
    document: Option<Json>,
    status: u16,
    body: String,
)
    requires
        route_of(method, path) == Route::Submit,
        validation_of(document) is Ok,
        is_success(status),
    ensures
        decision(config, method, path, document) == ActionView::Forward(
            planned(config, validation_of(document)->Ok_0),
        ),
        reply_to(Outcome::classified(status, body)).code == 200,
        reply_to(Outcome::classified(status, body)).status == RelayStatus::Okay,
{
}

/// A submitted body that holds no observation is answered with code 400
/// and status `Error`, and nothing is forwarded.
pub proof fn lemma_malformed_is_refused(
    config: Config,
    method: Seq<char>,
    path: Seq<char>,
    document: Option<Json>,
)
    requires
        route_of(method, path) == Route::Submit,
        validation_of(document) is Err,
    ensures
        decision(config, method, path, document) == ActionView::Respond(
            refusal(validation_of(document)->Err_0),
        ),
        decision(config, method, path, document) !is Forward,
        refusal(validation_of(document)->Err_0).code == 400,
        refusal(validation_of(document)->Err_0).status == RelayStatus::Error,
{
}

/// A submitted document that lacks one of the four members, or holds one
/// that is not of the right kind, is answered with code 400 and status
/// `Error`, and nothing is forwarded.
pub proof fn lemma_defective_member_is_refused(
    config: Config,
    method: Seq<char>,
    path: Seq<char>,
    document: Json,
    name: FieldName,
)
    requires
        route_of(method, path) == Route::Submit,
        !fits(field_of(document.member(name.key_text())), name),
    ensures
        decision(config, method, path, Some(document)) matches ActionView::Respond(reply)
            && reply.code == 400 && reply.status == RelayStatus::Error,
{
    lemma_valid_iff_well_formed(Some(document));
    lemma_malformed_is_refused(config, method, path, Some(document));
}

/// A submitted body from which no document can be read is answered with
/// code 400 and status `Error`, and nothing is forwarded.
pub proof fn lemma_unreadable_body_is_refused(config: Config, method: Seq<char>, path: Seq<char>)
    requires
        route_of(method, path) == Route::Submit,
    ensures
        decision(config, method, path, None) == ActionView::Respond(refusal(Defect::NotJson)),
        refusal(Defect::NotJson).code == 400,
        refusal(Defect::NotJson).status == RelayStatus::Error,
{
}

/// The reply to a health check does not depend on the configuration, on
/// the body that came with the request, or on anything that went before.
pub proof fn lemma_health_is_fixed(config: Config, document: Option<Json>)
    ensures
        decision(config, "GET"@, "/health"@, document) == ActionView::Respond(health_reply()),
        health_reply().code == 200,
        health_reply().status == RelayStatus::Okay,
{
}

/// When the downstream service answers with a status that is no success,
/// the reply is a server error whose message holds that status as a
/// decimal numeral.
pub proof fn lemma_rejection_names_status(status: u16, body: String)
    requires
        !is_success(status),
    ensures
        reply_to(Outcome::classified(status, body)).is_server_error(),
        reply_to(Outcome::classified(status, body)).status == RelayStatus::Error,
        occurs_in(decimal(status as int), reply_to(Outcome::classified(status, body)).message),
{
    let head = "Failed to process tweet: downstream returned status "@;
    let numeral = decimal(status as int);
    let message = rejection_text(status, body@);
    if body@.len() == 0 {
        lemma_occurs_between(head, numeral, Seq::empty());
        assert(message =~= head + numeral + Seq::empty());
    } else {
        lemma_occurs_between(head, numeral, ": "@ + body@);
        assert(message =~= head + numeral + (": "@ + body@));
    }
}

/// When the downstream service cannot be reached, the reply is a server
/// error whose message holds what the transport said of the failure.
pub proof fn lemma_unreachable_is_reported(description: String)
    ensures
        reply_to(Outcome::Unreachable { description }).is_server_error(),
        reply_to(Outcome::Unreachable { description }).status == RelayStatus::Error,
        occurs_in(description@, reply_to(Outcome::Unreachable { description }).message),
{
    let head = "Service error: "@;
    lemma_occurs_between(head, description@, Seq::empty());
    assert(head + description@ =~= head + description@ + Seq::empty());
}

} // verus!
