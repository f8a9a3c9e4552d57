//! What holds of every answer of the rollout resolver, whatever the build store holds.

use crate::bridge::{semver_precedence, semver_valid, Precedence};
use crate::server::database::{lemma_first_offer, latest_is_unique, ApplicationBuild, Database};
use crate::server::resolver::{
    answers_latest, answers_report, ClientDetails, LatestVersion,
};
use crate::server::exchange::{steps, Move, Stage, StoreQuery, StoreReply};
use vstd::prelude::*;

verus! {

/// An update is asked for by the order of semantic versions alone. Where the version
/// that the client runs stands lower than the release that is offered, the client is to
/// update; where the release stands lower than what the client runs, or level with it,
/// or the two are the same text, it is not. The versions of an answer are semantic
/// versions both.
pub proof fn lemma_update_follows_the_order(
    pre: Database,
    params: ClientDetails,
    post: Database,
    answer: LatestVersion,
)
    requires
        answers_latest(pre, params, post, Ok(answer)),
    ensures
        semver_valid(answer.version@),
        semver_valid(params.current_running_version@),
        semver_precedence(params.current_running_version@, answer.version@) == Precedence::Lower
            ==> answer.update_required,
        semver_precedence(answer.version@, params.current_running_version@) == Precedence::Lower
            ==> !answer.update_required,
        semver_precedence(answer.version@, params.current_running_version@) == Precedence::Same
            ==> !answer.update_required,
        answer.version@ == params.current_running_version@ ==> !answer.update_required,
        answer.update_required <==> semver_precedence(
            answer.version@,
            params.current_running_version@,
        ) == Precedence::Higher,
{
}

/// A disabled build is offered to nobody, whatever has been counted for it.
pub proof fn lemma_disabled_builds_are_not_offered(
    db: Database,
    build: ApplicationBuild,
    app_id: u128,
    version: Option<Seq<char>>,
    architecture: Seq<char>,
)
    requires
        build.disabled,
    ensures
        !db.offers(build, app_id, version, architecture),
{
}

/// The build that a request for the latest is answered with is an enabled build of the
/// store, for the architecture of the client.
pub proof fn lemma_latest_answer_is_enabled(
    pre: Database,
    params: ClientDetails,
    post: Database,
    answer: LatestVersion,
)
    requires
        answers_latest(pre, params, post, Ok(answer)),
    ensures
        exists|i: int|
            0 <= i < pre.builds@.len() && (#[trigger] pre.builds@[i]).id == answer.build_id
                && !pre.builds@[i].disabled && pre.builds@[i].build_version@
                == params.architecture.tag() && pre.builds@[i].url@ == answer.url@,
{
    let arch = params.architecture.tag();
    lemma_first_offer(pre, params.app_id, None, arch);
    let i = pre.first_offer(params.app_id, None, arch);
    assert(pre.offers(pre.builds@[i], params.app_id, None, arch));
    assert(pre.builds@[i].id == answer.build_id);
}

/// A report is counted only where an enabled build of the exact version that the client
/// runs is there: where all such builds are disabled or missing, the report fails and
/// the tables stand as they were.
pub proof fn lemma_report_needs_an_enabled_build(
    pre: Database,
    params: ClientDetails,
    healthy: bool,
    post: Database,
    r: Result<(), (u16, String)>,
)
    requires
        answers_report(pre, params, healthy, post, r),
        forall|i: int|
            0 <= i < pre.builds@.len() ==> (#[trigger] pre.builds@[i]).disabled,
    ensures
        r is Err,
        pre.same_tables(post),
{
    let arch = params.architecture.tag();
    let current = params.current_running_version@;
    assert(pre.offers_nothing(params.app_id, Some(current), arch));
}

/// A report changes no table but that of the builds, and a report that fails changes
/// none.
pub proof fn lemma_report_touches_builds_only(
    pre: Database,
    params: ClientDetails,
    healthy: bool,
    post: Database,
    r: Result<(), (u16, String)>,
)
    requires
        answers_report(pre, params, healthy, post, r),
    ensures
        post.applications@ == pre.applications@,
        post.versions@ == pre.versions@,
        post.clients@ == pre.clients@,
        r is Err ==> post.builds@ == pre.builds@,
{
}

/// Where no application has two releases flagged as the latest, the latest build is a
/// build of one release only: whatever is
/// offered to installations of one application as the latest, for whichever
/// architecture, belongs to the same release.
pub proof fn lemma_latest_release_is_one(
    db: Database,
    one: ApplicationBuild,
    other: ApplicationBuild,
    app_id: u128,
    one_architecture: Seq<char>,
    other_architecture: Seq<char>,
)
    requires
        latest_is_unique(db.versions@),
        db.offers(one, app_id, None, one_architecture),
        db.offers(other, app_id, None, other_architecture),
    ensures
        one.app_version_id == other.app_version_id,
{
    let i = choose|i: int|
        0 <= i < db.versions@.len() && (#[trigger] db.versions@[i]).id == one.app_version_id
            && db.versions@[i].app_id == app_id && db.versions@[i].latest;
    let j = choose|j: int|
        0 <= j < db.versions@.len() && (#[trigger] db.versions@[j]).id == other.app_version_id
            && db.versions@[j].app_id == app_id && db.versions@[j].latest;
    if i < j {
        assert(!(db.versions@[i].latest && db.versions@[j].latest));
    } else if j < i {
        assert(!(db.versions@[j].latest && db.versions@[i].latest));
    }
}

/// A request gives a good answer only once its transaction has ended well: the step
/// that answers is the step on the end of the transaction.
pub proof fn lemma_answer_follows_the_end_of_the_transaction(
    stage: Stage,
    reply: Option<StoreReply>,
    post: Stage,
    next: Move,
)
    requires
        steps(stage, reply, post, next),
        next matches Move::Respond(Ok(_)),
    ensures
        stage is Closing,
        reply matches Some(StoreReply::Done(Ok(_))),
        post is Finished,
{
}

/// The version of a client is noted only for a request that will be answered with an
/// offer: the step that asks for the note is the step on the release of the build that
/// was found, and both the version of the release and the version that the client runs
/// are semantic versions.
pub proof fn lemma_note_follows_the_comparison(
    stage: Stage,
    reply: Option<StoreReply>,
    post: Stage,
    next: Move,
)
    requires
        steps(stage, reply, post, next),
        next matches Move::Ask(StoreQuery::NoteClient { .. }),
    ensures
        ({
            &&& stage matches Stage::AwaitsVersion { params, build }
            &&& reply matches Some(StoreReply::Version(Ok(release)))
            &&& next matches Move::Ask(StoreQuery::NoteClient { client_id, version })
            &&& semver_valid(release.version@)
            &&& semver_valid(params.current_running_version@)
            &&& client_id == params.client_id
            &&& version == params.current_running_version
        }),
{
}

/// A report is counted for the build that the exact lookup found, and for no other: the
/// step that asks for the count is the step on the answer to that lookup.
pub proof fn lemma_count_follows_the_exact_lookup(
    stage: Stage,
    reply: Option<StoreReply>,
    post: Stage,
    next: Move,
    id: u128,
)
    requires
        steps(stage, reply, post, next),
        next == Move::Ask(StoreQuery::CountSuccess { id }) || next == Move::Ask(
            StoreQuery::CountFailure { id },
        ),
    ensures
        ({
            &&& stage matches Stage::AwaitsExactBuild { healthy }
            &&& reply matches Some(StoreReply::Build(Ok(build)))
            &&& build.id == id
            &&& healthy <==> next == Move::Ask(StoreQuery::CountSuccess { id })
        }),
{
}

/// Whatever the build store answers, a request asks it nothing more once it has asked
/// for the end of its transaction: the next step answers the client.
pub proof fn lemma_nothing_follows_the_end_of_the_transaction(
    stage: Stage,
    reply: Option<StoreReply>,
    post: Stage,
    next: Move,
)
    requires
        stage is Closing,
        steps(stage, reply, post, next),
    ensures
        next is Respond,
        post is Finished,
{
}

} // verus!
