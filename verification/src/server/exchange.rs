//! A request to the rollout authority as an exchange with its build store: the request
//! decides what to ask the store next, and the host of the store asks it. So the same
//! decisions serve a store in memory and a store behind a connection.

use crate::bridge::{semver_complaint, semver_precedence, semver_valid, Precedence};
use crate::server::app_store::{store_error_text, AppStoreError};
use crate::server::database::{Application, ApplicationBuild, ApplicationVersion};
use crate::server::resolver::{
    app_store_error, bad_request, compare_versions, internal_error, is_offer_of,
    latest_version_response, ClientDetails, CreateApplication, CreatedApplication, LatestVersion,
    BAD_REQUEST, INTERNAL_SERVER_ERROR,
};
use vstd::prelude::*;
use vstd::string::*;

verus! {

/// What is answered when the build store answers a question that was not asked.
pub const OUT_OF_TURN: &'static str = "the build store answered out of turn";

/// What a client asks of the rollout authority.
#[derive(Debug)]
pub enum Asked {
    /// What should I be running?
    Latest(ClientDetails),
    /// The build I run has started (`healthy`), or has failed to.
    Report { params: ClientDetails, healthy: bool },
    /// Enter this application.
    Create(CreateApplication),
}

/// What the rollout authority answers.
#[derive(Debug)]
pub enum Answer {
    Latest(LatestVersion),
    Counted,
    Created(CreatedApplication),
}

/// A question to the build store.
#[derive(Debug)]
pub enum StoreQuery {
    LatestBuild { app_id: u128, architecture: String },
    ExactBuild { app_id: u128, version: String, architecture: String, for_update: bool },
    Version { id: u128 },
    NoteClient { client_id: u128, version: String },
    CountSuccess { id: u128 },
    CountFailure { id: u128 },
    EnterApplication { name: String, description: String },
    EndTransaction,
}

/// An answer of the build store.
#[derive(Debug)]
pub enum StoreReply {
    Build(Result<ApplicationBuild, AppStoreError>),
    Version(Result<ApplicationVersion, AppStoreError>),
    Application(Result<Application, AppStoreError>),
    Done(Result<(), AppStoreError>),
}

/// What a request does next.
#[derive(Debug)]
pub enum Move {
    /// Ask the build store, and come back with its answer.
    Ask(StoreQuery),
    /// Answer the client; the request is over.
    Respond(Result<Answer, (u16, String)>),
}

/// Where a request stands, named by the answer of the build store that it waits for.
#[derive(Debug)]
pub enum Stage {
    Begin(Asked),
    AwaitsLatestBuild { params: ClientDetails },
    AwaitsVersion { params: ClientDetails, build: ApplicationBuild },
    AwaitsNote { answer: LatestVersion },
    AwaitsExactBuild { healthy: bool },
    AwaitsCount,
    AwaitsEntry,
    /// The answer stands; the transaction is being ended.
    Closing { outcome: Result<Answer, (u16, String)> },
    Finished,
}

/// Whether a request that failed with `e` in the build store goes on to end its
/// transaction, with the failure as its answer.
pub open spec fn closes_on(e: AppStoreError, post: Stage, next: Move) -> bool {
    &&& post matches Stage::Closing { outcome: Err(status) }
    &&& status.0 == INTERNAL_SERVER_ERROR
    &&& status.1@ == store_error_text(e)
    &&& next == Move::Ask(StoreQuery::EndTransaction)
}

/// Whether a request with the answer `answer` goes on to end its transaction.
pub open spec fn closes_with(answer: Answer, post: Stage, next: Move) -> bool {
    post == (Stage::Closing { outcome: Ok(answer) }) && next == Move::Ask(
        StoreQuery::EndTransaction,
    )
}

/// The step of a request for the latest build that has the build and now gets its
/// release: where the version of the release and the version that the client runs are
/// semantic versions, the offer is made up and the client's version is to be noted;
/// else the request is a bad one, the release being looked at first.
pub open spec fn weighs_release(
    params: ClientDetails,
    build: ApplicationBuild,
    release: ApplicationVersion,
    post: Stage,
    next: Move,
) -> bool {
    let latest = release.version@;
    let current = params.current_running_version@;
    if semver_valid(latest) && semver_valid(current) {
        &&& post matches Stage::AwaitsNote { answer }
        &&& is_offer_of(answer, build, release, semver_precedence(latest, current))
        &&& answer.update_required == (semver_precedence(current, latest) == Precedence::Lower)
        &&& latest == current ==> !answer.update_required
        &&& next matches Move::Ask(StoreQuery::NoteClient { client_id, version })
        &&& client_id == params.client_id
        &&& version == params.current_running_version
    } else {
        &&& post matches Stage::Closing { outcome: Err(status) }
        &&& status.0 == BAD_REQUEST
        &&& if semver_valid(latest) {
            semver_complaint(current) == Some(status.1@)
        } else {
            semver_complaint(latest) == Some(status.1@)
        }
        &&& next == Move::Ask(StoreQuery::EndTransaction)
    }
}

/// The first step of a request: what it asks the build store first.
pub open spec fn begins(asked: Asked, post: Stage, next: Move) -> bool {
    match asked {
        Asked::Latest(params) => {
            &&& post == (Stage::AwaitsLatestBuild { params })
            &&& next matches Move::Ask(StoreQuery::LatestBuild { app_id, architecture })
            &&& app_id == params.app_id
            &&& architecture@ == params.architecture.tag()
        },
        Asked::Report { params, healthy } => {
            &&& post == (Stage::AwaitsExactBuild { healthy })
            &&& next matches Move::Ask(
                StoreQuery::ExactBuild { app_id, version, architecture, for_update },
            )
            &&& app_id == params.app_id
            &&& version == params.current_running_version
            &&& architecture@ == params.architecture.tag()
            &&& for_update
        },
        Asked::Create(params) => {
            &&& post == Stage::AwaitsEntry
            &&& next == Move::Ask(
                StoreQuery::EnterApplication { name: params.name, description: params.description },
            )
        },
    }
}

/// One step of a request: from the stage `pre`, on the answer `reply` of the build
/// store (none at the beginning), to the stage `post` and what is done next. Whatever
/// the request comes to, it ends its transaction before it answers; an answer of the
/// store that fits no question ends the request as a failure.
pub open spec fn steps(pre: Stage, reply: Option<StoreReply>, post: Stage, next: Move) -> bool {
    match (pre, reply) {
        (Stage::Begin(asked), None) => begins(asked, post, next),
        (Stage::AwaitsLatestBuild { params }, Some(StoreReply::Build(Ok(build)))) => {
            &&& post == (Stage::AwaitsVersion { params, build })
            &&& next == Move::Ask(StoreQuery::Version { id: build.app_version_id })
        },
        (Stage::AwaitsLatestBuild { params }, Some(StoreReply::Build(Err(e)))) => closes_on(
            e,
            post,
            next,
        ),
        (Stage::AwaitsVersion { params, build }, Some(StoreReply::Version(Ok(release)))) => {
            weighs_release(params, build, release, post, next)
        },
        (Stage::AwaitsVersion { params, build }, Some(StoreReply::Version(Err(e)))) => closes_on(
            e,
            post,
            next,
        ),
        (Stage::AwaitsNote { answer }, Some(StoreReply::Done(Ok(_)))) => closes_with(
            Answer::Latest(answer),
            post,
            next,
        ),
        (Stage::AwaitsNote { answer }, Some(StoreReply::Done(Err(e)))) => closes_on(e, post, next),
        (Stage::AwaitsExactBuild { healthy }, Some(StoreReply::Build(Ok(build)))) => {
            &&& post == Stage::AwaitsCount
            &&& next == Move::Ask(
                if healthy {
                    StoreQuery::CountSuccess { id: build.id }
                } else {
                    StoreQuery::CountFailure { id: build.id }
                },
            )
        },
        (Stage::AwaitsExactBuild { healthy }, Some(StoreReply::Build(Err(e)))) => closes_on(
            e,
            post,
            next,
        ),
        (Stage::AwaitsCount, Some(StoreReply::Done(Ok(_)))) => closes_with(
            Answer::Counted,
            post,
            next,
        ),
        (Stage::AwaitsCount, Some(StoreReply::Done(Err(e)))) => closes_on(e, post, next),
        (Stage::AwaitsEntry, Some(StoreReply::Application(Ok(app)))) => closes_with(
            Answer::Created(
                CreatedApplication { id: app.id, name: app.name, description: app.description },
            ),
            post,
            next,
        ),
        (Stage::AwaitsEntry, Some(StoreReply::Application(Err(e)))) => closes_on(e, post, next),
        (Stage::Closing { outcome }, Some(StoreReply::Done(Ok(_)))) => {
            post == Stage::Finished && next == Move::Respond(outcome)
        },
        (Stage::Closing { outcome }, Some(StoreReply::Done(Err(e)))) => {
            &&& post == Stage::Finished
            &&& next matches Move::Respond(Err(status))
            &&& status.0 == INTERNAL_SERVER_ERROR
            &&& status.1@ == store_error_text(e)
        },
        _ => {
            &&& post == Stage::Finished
            &&& next matches Move::Respond(Err(status))
            &&& status.0 == INTERNAL_SERVER_ERROR
            &&& status.1@ == OUT_OF_TURN@
        },
    }
}

/// The request ends its transaction with the failure `e` as its answer.
fn close_on(e: AppStoreError) -> (r: (Stage, Move))
    ensures
        closes_on(e, r.0, r.1),
{
    (Stage::Closing { outcome: Err(app_store_error(e)) }, Move::Ask(StoreQuery::EndTransaction))
}

/// The request ends its transaction with `answer` as its answer.
fn close_with(answer: Answer) -> (r: (Stage, Move))
    ensures
        closes_with(answer, r.0, r.1),
{
    (Stage::Closing { outcome: Ok(answer) }, Move::Ask(StoreQuery::EndTransaction))
}

/// The request is over, for an answer of the build store that fits no question.
fn out_of_turn() -> (r: (Stage, Move))
    ensures
        r.0 == Stage::Finished,
        r.1 matches Move::Respond(Err(status)) && status.0 == INTERNAL_SERVER_ERROR && status.1@
            == OUT_OF_TURN@,
{
    (Stage::Finished, Move::Respond(Err(internal_error(String::from_str(OUT_OF_TURN)))))
}

/// The first step of the request `asked`.
fn begin(asked: Asked) -> (r: (Stage, Move))
    ensures
        begins(asked, r.0, r.1),
{
    match asked {
        Asked::Latest(params) => {
            let query = StoreQuery::LatestBuild {
                app_id: params.app_id,
                architecture: String::from_str(params.architecture.to_string()),
            };
            (Stage::AwaitsLatestBuild { params }, Move::Ask(query))
        },
        Asked::Report { params, healthy } => {
            let query = StoreQuery::ExactBuild {
                app_id: params.app_id,
                architecture: String::from_str(params.architecture.to_string()),
                version: params.current_running_version,
                for_update: true,
            };
            (Stage::AwaitsExactBuild { healthy }, Move::Ask(query))
        },
        Asked::Create(params) => (
            Stage::AwaitsEntry,
            Move::Ask(
                StoreQuery::EnterApplication { name: params.name, description: params.description },
            ),
        ),
    }
}

/// The step of a request for the latest build on the release of the build it found.
fn weigh_release(params: ClientDetails, build: ApplicationBuild, release: ApplicationVersion) -> (r:
    (Stage, Move))
    ensures
        weighs_release(params, build, release, r.0, r.1),
{
    match compare_versions(release.version.as_str(), params.current_running_version.as_str()) {
        Ok(precedence) => {
            let query = StoreQuery::NoteClient {
                client_id: params.client_id,
                version: params.current_running_version,
            };
            let answer = latest_version_response(build, release, precedence);
            (Stage::AwaitsNote { answer }, Move::Ask(query))
        },
        Err(words) => (
            Stage::Closing { outcome: Err(bad_request(words)) },
            Move::Ask(StoreQuery::EndTransaction),
        ),
    }
}

/// One step of a request.
pub fn step(stage: Stage, reply: Option<StoreReply>) -> (r: (Stage, Move))
    ensures
        steps(stage, reply, r.0, r.1),
{
    match (stage, reply) {
        (Stage::Begin(asked), None) => begin(asked),
        (Stage::AwaitsLatestBuild { params }, Some(StoreReply::Build(Ok(build)))) => {
            let query = StoreQuery::Version { id: build.app_version_id };
            (Stage::AwaitsVersion { params, build }, Move::Ask(query))
        },
        (Stage::AwaitsLatestBuild { params }, Some(StoreReply::Build(Err(e)))) => close_on(e),
        (Stage::AwaitsVersion { params, build }, Some(StoreReply::Version(Ok(release)))) => {
            weigh_release(params, build, release)
        },
        (Stage::AwaitsVersion { params, build }, Some(StoreReply::Version(Err(e)))) => close_on(e),
        (Stage::AwaitsNote { answer }, Some(StoreReply::Done(Ok(_)))) => close_with(
            Answer::Latest(answer),
        ),
        (Stage::AwaitsNote { answer }, Some(StoreReply::Done(Err(e)))) => close_on(e),
        (Stage::AwaitsExactBuild { healthy }, Some(StoreReply::Build(Ok(build)))) => {
            let query = if healthy {
                StoreQuery::CountSuccess { id: build.id }
            } else {
                StoreQuery::CountFailure { id: build.id }
            };
            (Stage::AwaitsCount, Move::Ask(query))
        },
        (Stage::AwaitsExactBuild { healthy }, Some(StoreReply::Build(Err(e)))) => close_on(e),
        (Stage::AwaitsCount, Some(StoreReply::Done(Ok(_)))) => close_with(Answer::Counted),
        (Stage::AwaitsCount, Some(StoreReply::Done(Err(e)))) => close_on(e),
        (Stage::AwaitsEntry, Some(StoreReply::Application(Ok(app)))) => close_with(
            Answer::Created(
                CreatedApplication { id: app.id, name: app.name, description: app.description },
            ),
        ),
        (Stage::AwaitsEntry, Some(StoreReply::Application(Err(e)))) => close_on(e),
        (Stage::Closing { outcome }, Some(StoreReply::Done(Ok(_)))) => (
            Stage::Finished,
            Move::Respond(outcome),
        ),
        (Stage::Closing { outcome }, Some(StoreReply::Done(Err(e)))) => (
            Stage::Finished,
            Move::Respond(Err(app_store_error(e))),
        ),
        _ => out_of_turn(),
    }
}

} // verus!
