//! The rollout resolver: what the rollout authority answers to each request, over a
//! session of the build store. A request is taken through its exchange with the store
//! one question at a time; it ends the transaction of its session before it answers,
//! and one that fails leaves the tables as they were.

use crate::bridge::{
    semver_compare, semver_complaint, semver_precedence, semver_refusal, semver_valid, Precedence,
};
use crate::server::app_store::{
    application_entered, build_name, client_noted, exact_build_name, is_row_not_found,
    latest_build_name, store_error_text, AppStore, AppStoreError, CONSTRAINT_VIOLATED, NO_ROWS,
    OUT_OF_RANGE,
};
use crate::server::exchange::{step, steps, Answer, Asked, Move, Stage, StoreQuery, StoreReply};
use crate::server::database::{
    after_failure, after_success, has_id, lemma_first_offer, lemma_place_of, locks_without,
    place_of, ApplicationBuild, ApplicationVersion, Database, Row,
};
use crate::text::same_text;
use vstd::prelude::*;
use vstd::string::*;

verus! {

/// The status of an answer to a request that the authority cannot make sense of.
pub const BAD_REQUEST: u16 = 400;

/// The status of an answer to a request that failed in the build store.
pub const INTERNAL_SERVER_ERROR: u16 = 500;

/// The architectures that builds are made for.
#[derive(Debug, Clone, Copy, PartialEq, Eq, Structural)]
pub enum Architecture {
    X86_64Intel,
    X86_64Linux,
}

/// The architecture that a tag on the wire stands for; `None` for any other text.
pub open spec fn architecture_of_tag(tag: Seq<char>) -> Option<Architecture> {
    if tag == "x86_64-pc-windows-gnu"@ {
        Some(Architecture::X86_64Intel)
    } else if tag == "x86_64-unknown-linux-gnu"@ {
        Some(Architecture::X86_64Linux)
    } else {
        None
    }
}

impl Architecture {
    /// The tag of this architecture on the wire and in the build store.
    pub open spec fn tag(self) -> Seq<char> {
        match self {
            Architecture::X86_64Intel => "x86_64-pc-windows-gnu"@,
            Architecture::X86_64Linux => "x86_64-unknown-linux-gnu"@,
        }
    }

    /// The tag of this architecture.
    pub fn to_string(&self) -> (r: &'static str)
        ensures
            r@ == self.tag(),
    {
        match self {
            Architecture::X86_64Intel => "x86_64-pc-windows-gnu",
            Architecture::X86_64Linux => "x86_64-unknown-linux-gnu",
        }
    }

    /// The architecture that `tag` stands for; `None` for a tag that is not known.
    pub fn from_tag(tag: &str) -> (r: Option<Architecture>)
        ensures
            r == architecture_of_tag(tag@),
    {
        if same_text(tag, "x86_64-pc-windows-gnu") {
            Some(Architecture::X86_64Intel)
        } else if same_text(tag, "x86_64-unknown-linux-gnu") {
            Some(Architecture::X86_64Linux)
        } else {
            None
        }
    }
}

/// The tag of `arch`.
pub fn serialize_architecture(arch: Architecture) -> (r: &'static str)
    ensures
        r@ == arch.tag(),
{
    match arch {
        Architecture::X86_64Intel => "x86_64-pc-windows-gnu",
        Architecture::X86_64Linux => "x86_64-unknown-linux-gnu",
    }
}

/// Each architecture is read back from its tag, and a tag that is read as an
/// architecture is the tag of that architecture.
pub proof fn lemma_tags_tell_architectures_apart(arch: Architecture, tag: Seq<char>)
    ensures
        architecture_of_tag(arch.tag()) == Some(arch),
        architecture_of_tag(tag) == Some(arch) ==> tag == arch.tag(),
{
    reveal_strlit("x86_64-pc-windows-gnu");
    reveal_strlit("x86_64-unknown-linux-gnu");
    assert("x86_64-pc-windows-gnu"@[7] == 'p');
    assert("x86_64-unknown-linux-gnu"@[7] == 'u');
}

/// A request to enter an application.
#[derive(Debug)]
pub struct CreateApplication {
    pub name: String,
    pub description: String,
}

/// The answer to a request to enter an application.
#[derive(Debug)]
pub struct CreatedApplication {
    pub id: u128,
    pub name: String,
    pub description: String,
}

/// What a supervisor says of itself with every request.
#[derive(Debug)]
pub struct ClientDetails {
    pub client_id: u128,
    pub app_id: u128,
    pub current_running_version: String,
    pub architecture: Architecture,
}

/// The answer to "what should I be running?".
#[derive(Debug)]
pub struct LatestVersion {
    pub build_id: u128,
    pub version: String,
    pub url: String,
    pub update_required: bool,
}

/// Whether `answer` offers the build `build` of the release `release`, and asks for an
/// update just where the release stands `precedence` to the version that runs and that
/// is higher.
pub open spec fn is_offer_of(
    answer: LatestVersion,
    build: ApplicationBuild,
    release: ApplicationVersion,
    precedence: Precedence,
) -> bool {
    &&& answer.build_id == build.id
    &&& answer.url@ == build.url@
    &&& answer.version@ == release.version@
    &&& answer.update_required == (precedence == Precedence::Higher)
}

/// The answer that offers `build` of `release`, which stands `precedence` to the version
/// that the client runs: an update is required only where the release stands higher.
pub fn latest_version_response(
    build: ApplicationBuild,
    release: ApplicationVersion,
    precedence: Precedence,
) -> (answer: LatestVersion)
    ensures
        is_offer_of(answer, build, release, precedence),
{
    let update_required = match precedence {
        Precedence::Higher => true,
        _ => false,
    };
    LatestVersion { build_id: build.id, url: build.url, version: release.version, update_required }
}

/// How the release `latest` stands to the version `current` that a client runs, where
/// both are semantic versions; else what is wrong with the first of them that is not.
pub fn compare_versions(latest: &str, current: &str) -> (r: Result<Precedence, String>)
    ensures
        match r {
            Ok(precedence) => {
                &&& semver_valid(latest@) && semver_valid(current@)
                &&& precedence == semver_precedence(latest@, current@)
                &&& precedence.reversed() == semver_precedence(current@, latest@)
                &&& latest@ == current@ ==> precedence == Precedence::Same
            },
            Err(words) => if semver_valid(latest@) {
                semver_complaint(current@) == Some(words@)
            } else {
                semver_complaint(latest@) == Some(words@)
            },
        },
{
    match semver_refusal(latest) {
        Some(words) => Err(words),
        None => match semver_refusal(current) {
            Some(words) => Err(words),
            None => Ok(semver_compare(latest, current)),
        },
    }
}

/// The answer to a request that failed in the build store.
pub fn app_store_error(err: AppStoreError) -> (r: (u16, String))
    ensures
        r.0 == INTERNAL_SERVER_ERROR,
        r.1@ == store_error_text(err),
{
    (INTERNAL_SERVER_ERROR, err.message())
}

/// The answer to a request that failed for the reason `message`.
pub fn internal_error(message: String) -> (r: (u16, String))
    ensures
        r == (INTERNAL_SERVER_ERROR, message),
{
    (INTERNAL_SERVER_ERROR, message)
}

/// The answer to a request that makes no sense, for the reason `message`.
pub fn bad_request(message: String) -> (r: (u16, String))
    ensures
        r == (BAD_REQUEST, message),
{
    (BAD_REQUEST, message)
}

/// The answer to a request for the state of the authority.
pub fn health() -> (r: Result<(), (u16, String)>)
    ensures
        r is Ok,
{
    Ok(())
}

/// Whether `post` is the session `pre` once its request is over: the transaction has
/// ended, and the advisory locks it held are free.
pub open spec fn ends_request(pre: AppStore, post: AppStore) -> bool {
    &&& post.app_config == pre.app_config
    &&& post.transaction is None
    &&& post.connection_pool.transactions == pre.connection_pool.transactions
    &&& post.connection_pool.locks@ == match pre.transaction {
        Some(transaction) => locks_without(pre.connection_pool.locks@, transaction),
        None => pre.connection_pool.locks@,
    }
}

/// How the answer to a request reads that found no row `name` in the build store, for
/// the reason `reason`.
pub open spec fn not_found_text(name: Seq<char>, reason: Seq<char>) -> Seq<char> {
    "Client "@ + name + " not found: "@ + reason
}

/// Whether the version `version` was noted for the client `client_id` at some time
/// between `pre` and `post`, and nothing else has changed in the tables.
pub open spec fn notes_version(
    pre: Database,
    client_id: u128,
    version: Seq<char>,
    post: Database,
) -> bool {
    exists|now: i64| client_noted(pre, client_id, version, now, post)
}

/// Whether `r` and `post` are what a request for the latest build by the client
/// `params` comes to on the database `pre`.
///
/// Where no enabled build of the latest release is there for the client's application
/// and architecture, the request fails as one of the build store. Else the first such
/// build is offered, unless the version of its release or the version that the client
/// runs is no semantic version, which is a bad request, the release being looked at
/// first. With the offer goes the word whether the client is to update: it is, just
/// where the release stands higher than what it runs. The version that the client says
/// it runs is noted for it; a request that fails notes nothing.
pub open spec fn answers_latest(
    pre: Database,
    params: ClientDetails,
    post: Database,
    r: Result<LatestVersion, (u16, String)>,
) -> bool {
    let arch = params.architecture.tag();
    let current = params.current_running_version@;
    let build = pre.builds@[pre.first_offer(params.app_id, None, arch)];
    let release = pre.versions@[place_of(pre.versions@, build.app_version_id)];
    if pre.offers_nothing(params.app_id, None, arch) {
        &&& pre.same_tables(post)
        &&& r matches Err(e)
        &&& e.0 == INTERNAL_SERVER_ERROR
        &&& e.1@ == not_found_text(latest_build_name(params.app_id, arch), NO_ROWS@)
    } else if semver_valid(release.version@) && semver_valid(current) {
        &&& r matches Ok(answer)
        &&& is_offer_of(answer, build, release, semver_precedence(release.version@, current))
        &&& answer.update_required == (semver_precedence(current, release.version@)
            == Precedence::Lower)
        &&& release.version@ == current ==> !answer.update_required
        &&& notes_version(pre, params.client_id, current, post)
    } else {
        &&& pre.same_tables(post)
        &&& r matches Err(e)
        &&& e.0 == BAD_REQUEST
        &&& if semver_valid(release.version@) {
            semver_complaint(current) == Some(e.1@)
        } else {
            semver_complaint(release.version@) == Some(e.1@)
        }
    }
}

/// Whether `r` and `post` are what a report of the client `params` on the build that it
/// runs comes to on the database `pre`: of a start that went well where `healthy`, else
/// of one that failed.
///
/// The report is counted for the first enabled build of the exact version that the
/// client runs, for its application and architecture, whatever the latest release is.
/// Where there is no such build, or its counter cannot go higher, the request fails as
/// one of the build store, and nothing is counted.
pub open spec fn answers_report(
    pre: Database,
    params: ClientDetails,
    healthy: bool,
    post: Database,
    r: Result<(), (u16, String)>,
) -> bool {
    let arch = params.architecture.tag();
    let current = params.current_running_version@;
    let build = pre.builds@[pre.first_offer(params.app_id, Some(current), arch)];
    let room = if healthy {
        pre.can_count_success(build.id)
    } else {
        pre.can_count_failure(build.id)
    };
    &&& post.applications@ == pre.applications@
    &&& post.versions@ == pre.versions@
    &&& post.clients@ == pre.clients@
    &&& if pre.offers_nothing(params.app_id, Some(current), arch) {
        &&& post.builds@ == pre.builds@
        &&& r matches Err(e)
        &&& e.0 == INTERNAL_SERVER_ERROR
        &&& e.1@ == not_found_text(exact_build_name(params.app_id, arch), NO_ROWS@)
    } else if room {
        &&& r is Ok
        &&& post.builds@ == if healthy {
            after_success(pre.builds@, build.id)
        } else {
            after_failure(pre.builds@, build.id)
        }
    } else {
        &&& post.builds@ == pre.builds@
        &&& r matches Err(e)
        &&& e.0 == INTERNAL_SERVER_ERROR
        &&& e.1@ == not_found_text(build_name(build.id), OUT_OF_RANGE@)
    }
}

/// Whether `r` and `post` are what a request to enter the application `params` comes
/// to on the database `pre`, with `id` drawn as its identifier at the time `now`: the
/// application is entered and answered with, unless the identifier is taken, which
/// fails the request as one of the build store and enters nothing.
pub open spec fn answers_creation(
    pre: Database,
    params: CreateApplication,
    id: u128,
    now: i64,
    post: Database,
    r: Result<CreatedApplication, (u16, String)>,
) -> bool {
    if has_id(pre.applications@, id) {
        &&& pre.same_tables(post)
        &&& r matches Err(e)
        &&& e.0 == INTERNAL_SERVER_ERROR
        &&& e.1@ == "Failed to create client: "@ + CONSTRAINT_VIOLATED@
    } else {
        &&& r matches Ok(answer)
        &&& answer.id == id
        &&& answer.name@ == params.name@
        &&& answer.description@ == params.description@
        &&& post.applications@.len() == pre.applications@.len() + 1
        &&& post.applications@.drop_last() == pre.applications@
        &&& post.applications@.last().id == id
        &&& post.applications@.last().name@ == params.name@
        &&& post.applications@.last().description@ == params.description@
        &&& post.applications@.last().created_at == now
        &&& post.versions@ == pre.versions@
        &&& post.builds@ == pre.builds@
        &&& post.clients@ == pre.clients@
    }
}

/// Whether `reply` and `post` are what the build store of the session `pre` makes of
/// the question `query`.
pub open spec fn performs(
    pre: AppStore,
    query: StoreQuery,
    post: AppStore,
    reply: StoreReply,
) -> bool {
    let db = pre.connection_pool;
    match query {
        StoreQuery::LatestBuild { app_id, architecture } => {
            &&& pre.untouched(post)
            &&& reply matches StoreReply::Build(r)
            &&& finds_build(db, app_id, None, architecture@, latest_build_name(app_id, architecture@), r)
        },
        StoreQuery::ExactBuild { app_id, version, architecture, for_update } => {
            &&& pre.untouched(post)
            &&& reply matches StoreReply::Build(r)
            &&& finds_build(
                db,
                app_id,
                Some(version@),
                architecture@,
                exact_build_name(app_id, architecture@),
                r,
            )
        },
        StoreQuery::Version { id } => {
            &&& pre.untouched(post)
            &&& reply matches StoreReply::Version(r)
            &&& r is Ok <==> has_id(db.versions@, id)
            &&& r matches Ok(v) ==> v == db.versions@[place_of(db.versions@, id)]
        },
        StoreQuery::NoteClient { client_id, version } => {
            &&& pre.same_session(post)
            &&& post.connection_pool.locks@ == db.locks@
            &&& post.connection_pool.transactions == db.transactions
            &&& reply matches StoreReply::Done(Ok(_))
            &&& exists|now: i64| client_noted(db, client_id, version@, now, post.connection_pool)
        },
        StoreQuery::CountSuccess { id } => {
            &&& pre.same_session(post)
            &&& reply matches StoreReply::Done(r)
            &&& counts(db, id, true, post.connection_pool, r)
        },
        StoreQuery::CountFailure { id } => {
            &&& pre.same_session(post)
            &&& reply matches StoreReply::Done(r)
            &&& counts(db, id, false, post.connection_pool, r)
        },
        StoreQuery::EnterApplication { name, description } => {
            &&& pre.same_session(post)
            &&& reply matches StoreReply::Application(r)
            &&& exists|id: u128, now: i64|
                application_entered(db, id, now, name@, description@, post.connection_pool, r)
        },
        StoreQuery::EndTransaction => {
            &&& ends_request(pre, post)
            &&& db.same_tables(post.connection_pool)
            &&& reply matches StoreReply::Done(Ok(_))
        },
    }
}

/// Whether `r` is what the search for a build comes to on `db`: the first build that
/// is offered, or `RowNotFound` under `name` where none is.
pub open spec fn finds_build(
    db: Database,
    app_id: u128,
    version: Option<Seq<char>>,
    architecture: Seq<char>,
    name: Seq<char>,
    r: Result<ApplicationBuild, AppStoreError>,
) -> bool {
    match r {
        Ok(b) => !db.offers_nothing(app_id, version, architecture) && b == db.builds@[db.first_offer(
            app_id,
            version,
            architecture,
        )],
        Err(e) => db.offers_nothing(app_id, version, architecture) && is_row_not_found(
            e,
            name,
            NO_ROWS@,
        ),
    }
}

/// Whether `r` and `post` are what counting a report for the build `id` comes to on
/// `db`: of a start that went well where `healthy`, else of one that failed.
pub open spec fn counts(
    db: Database,
    id: u128,
    healthy: bool,
    post: Database,
    r: Result<(), AppStoreError>,
) -> bool {
    let room = if healthy {
        db.can_count_success(id)
    } else {
        db.can_count_failure(id)
    };
    &&& r is Ok <==> room
    &&& r is Ok ==> db.same_but_builds(post) && post.builds@ == if healthy {
        after_success(db.builds@, id)
    } else {
        after_failure(db.builds@, id)
    }
    &&& r matches Err(e) ==> db.unchanged(post) && is_row_not_found(
        e,
        build_name(id),
        if has_id(db.builds@, id) {
            OUT_OF_RANGE@
        } else {
            NO_ROWS@
        },
    )
}

/// Asks the build store of the session `store` the question `query`.
pub fn perform(store: &mut AppStore, query: StoreQuery) -> (reply: StoreReply)
    ensures
        performs(*old(store), query, *final(store), reply),
{
    match query {
        StoreQuery::LatestBuild { app_id, architecture } => {
            proof {
                lemma_first_offer(store.connection_pool, app_id, None, architecture@);
            }
            StoreReply::Build(
                store.get_latest_application_version_build(app_id, architecture.as_str()),
            )
        },
        StoreQuery::ExactBuild { app_id, version, architecture, for_update } => {
            proof {
                lemma_first_offer(store.connection_pool, app_id, Some(version@), architecture@);
            }
            StoreReply::Build(
                store.get_application_build(
                    app_id,
                    version.as_str(),
                    architecture.as_str(),
                    for_update,
                ),
            )
        },
        StoreQuery::Version { id } => StoreReply::Version(store.get_application_version_by_id(id)),
        StoreQuery::NoteClient { client_id, version } => StoreReply::Done(
            store.update_client_version(client_id, version.as_str()),
        ),
        StoreQuery::CountSuccess { id } => StoreReply::Done(store.increment_success_count_by_id(id)),
        StoreQuery::CountFailure { id } => StoreReply::Done(store.increment_failure_count_by_id(id)),
        StoreQuery::EnterApplication { name, description } => StoreReply::Application(
            store.create_application(name.as_str(), description.as_str()),
        ),
        StoreQuery::EndTransaction => StoreReply::Done(store.end_transaction()),
    }
}

/// Whether `r` and `post` are what the request `asked` comes to on the database `pre`.
pub open spec fn answers(
    pre: Database,
    asked: Asked,
    post: Database,
    r: Result<Answer, (u16, String)>,
) -> bool {
    match asked {
        Asked::Latest(params) => match r {
            Ok(Answer::Latest(answer)) => answers_latest(pre, params, post, Ok(answer)),
            Ok(_) => false,
            Err(e) => answers_latest(pre, params, post, Err(e)),
        },
        Asked::Report { params, healthy } => match r {
            Ok(Answer::Counted) => answers_report(pre, params, healthy, post, Ok(())),
            Ok(_) => false,
            Err(e) => answers_report(pre, params, healthy, post, Err(e)),
        },
        Asked::Create(params) => match r {
            Ok(Answer::Created(answer)) => exists|id: u128, now: i64|
                answers_creation(pre, params, id, now, post, Ok(answer)),
            Ok(_) => false,
            Err(e) => exists|id: u128, now: i64|
                answers_creation(pre, params, id, now, post, Err(e)),
        },
    }
}

/// Whether the session `cur` keeps the locks and the transaction of `pre`.
pub open spec fn holds_on(pre: AppStore, cur: AppStore) -> bool {
    &&& pre.same_session(cur)
    &&& cur.connection_pool.locks@ == pre.connection_pool.locks@
    &&& cur.connection_pool.transactions == pre.connection_pool.transactions
}

/// Whether the request `asked`, begun on the session `pre`, is on its way at the stage
/// `stage` with `next` to be done, on the session as it stands now, `cur`.
pub open spec fn on_track(
    pre: AppStore,
    asked: Asked,
    stage: Stage,
    next: Move,
    cur: AppStore,
) -> bool {
    let db = pre.connection_pool;
    match (asked, stage, next) {
        (
            Asked::Latest(p),
            Stage::AwaitsLatestBuild { params },
            Move::Ask(StoreQuery::LatestBuild { app_id, architecture }),
        ) => {
            &&& params == p
            &&& app_id == p.app_id
            &&& architecture@ == p.architecture.tag()
            &&& pre.untouched(cur)
        },
        (
            Asked::Latest(p),
            Stage::AwaitsVersion { params, build },
            Move::Ask(StoreQuery::Version { id }),
        ) => {
            &&& params == p
            &&& id == build.app_version_id
            &&& pre.untouched(cur)
            &&& !db.offers_nothing(p.app_id, None, p.architecture.tag())
            &&& build == db.builds@[db.first_offer(p.app_id, None, p.architecture.tag())]
        },
        (
            Asked::Latest(p),
            Stage::AwaitsNote { answer },
            Move::Ask(StoreQuery::NoteClient { client_id, version }),
        ) => {
            let build = db.builds@[db.first_offer(p.app_id, None, p.architecture.tag())];
            let release = db.versions@[place_of(db.versions@, build.app_version_id)];
            let current = p.current_running_version@;
            &&& client_id == p.client_id
            &&& version == p.current_running_version
            &&& pre.untouched(cur)
            &&& !db.offers_nothing(p.app_id, None, p.architecture.tag())
            &&& semver_valid(release.version@)
            &&& semver_valid(current)
            &&& is_offer_of(answer, build, release, semver_precedence(release.version@, current))
            &&& answer.update_required == (semver_precedence(current, release.version@)
                == Precedence::Lower)
            &&& release.version@ == current ==> !answer.update_required
        },
        (
            Asked::Report { params: p, healthy },
            Stage::AwaitsExactBuild { healthy: h },
            Move::Ask(StoreQuery::ExactBuild { app_id, version, architecture, for_update }),
        ) => {
            &&& h == healthy
            &&& app_id == p.app_id
            &&& version == p.current_running_version
            &&& architecture@ == p.architecture.tag()
            &&& pre.untouched(cur)
        },
        (Asked::Report { params: p, healthy }, Stage::AwaitsCount, Move::Ask(query)) => {
            let build = db.builds@[db.first_offer(
                p.app_id,
                Some(p.current_running_version@),
                p.architecture.tag(),
            )];
            &&& pre.untouched(cur)
            &&& !db.offers_nothing(p.app_id, Some(p.current_running_version@), p.architecture.tag())
            &&& query == if healthy {
                StoreQuery::CountSuccess { id: build.id }
            } else {
                StoreQuery::CountFailure { id: build.id }
            }
        },
        (
            Asked::Create(c),
            Stage::AwaitsEntry,
            Move::Ask(StoreQuery::EnterApplication { name, description }),
        ) => name == c.name && description == c.description && pre.untouched(cur),
        (_, Stage::Closing { outcome }, Move::Ask(StoreQuery::EndTransaction)) => {
            holds_on(pre, cur) && answers(db, asked, cur.connection_pool, outcome)
        },
        (_, Stage::Finished, Move::Respond(r)) => {
            ends_request(pre, cur) && answers(db, asked, cur.connection_pool, r)
        },
        _ => false,
    }
}

/// How many answers of the build store a request at the stage `stage` may still take.
pub open spec fn steps_left(stage: Stage) -> nat {
    match stage {
        Stage::Begin(_) => 5,
        Stage::AwaitsLatestBuild { .. } => 4,
        Stage::AwaitsVersion { .. } => 3,
        Stage::AwaitsExactBuild { .. } => 3,
        Stage::AwaitsNote { .. } => 2,
        Stage::AwaitsCount => 2,
        Stage::AwaitsEntry => 2,
        Stage::Closing { .. } => 1,
        Stage::Finished => 0,
    }
}

/// Takes the request `asked` through its exchange with the build store of the session
/// `store`, and gives its answer.
pub fn serve(store: &mut AppStore, asked: Asked) -> (r: Result<Answer, (u16, String)>)
    ensures
        ends_request(*old(store), *final(store)),
        answers(old(store).connection_pool, asked, final(store).connection_pool, r),
{
    let (first_stage, first_move) = step(Stage::Begin(asked), None);
    let mut stage = first_stage;
    let mut next = first_move;
    loop
        invariant
            on_track(*old(store), asked, stage, next, *store),
        decreases steps_left(stage),
    {
        match next {
            Move::Respond(r) => {
                return r;
            },
            Move::Ask(query) => {
                let ghost before = *store;
                let ghost was = stage;
                let reply = perform(store, query);
                let (s, n) = step(stage, Some(reply));
                proof {
                    lemma_stays_on_track(*old(store), asked, was, query, before, reply, *store, s, n);
                }
                stage = s;
                next = n;
            },
        }
    }
}

/// What a request comes to depends on the tables alone: an answer that is right for one
/// database is right for every database with the same rows.
proof fn lemma_answers_by_tables(
    pre: Database,
    asked: Asked,
    post: Database,
    other: Database,
    r: Result<Answer, (u16, String)>,
)
    requires
        answers(pre, asked, post, r),
        post.same_tables(other),
    ensures
        answers(pre, asked, other, r),
{
    match asked {
        Asked::Latest(p) => {
            let current = p.current_running_version@;
            if r is Ok {
                let now = choose|now: i64| client_noted(pre, p.client_id, current, now, post);
                assert(client_noted(pre, p.client_id, current, now, other));
            }
        },
        Asked::Report { params, healthy } => {},
        Asked::Create(c) => {
            match r {
                Ok(Answer::Created(a)) => {
                    let (id, now) = choose|id: u128, now: i64|
                        answers_creation(pre, c, id, now, post, Ok(a));
                    assert(answers_creation(pre, c, id, now, other, Ok(a)));
                },
                Ok(_) => {},
                Err(e) => {
                    let (id, now) = choose|id: u128, now: i64|
                        answers_creation(pre, c, id, now, post, Err(e));
                    assert(answers_creation(pre, c, id, now, other, Err(e)));
                },
            }
        },
    }
}

/// A request that is on its way stays on its way through a question to the build store
/// and the step on its answer, and is one answer nearer to its end.
proof fn lemma_stays_on_track(
    pre: AppStore,
    asked: Asked,
    stage: Stage,
    query: StoreQuery,
    before: AppStore,
    reply: StoreReply,
    after: AppStore,
    next_stage: Stage,
    next: Move,
)
    requires
        on_track(pre, asked, stage, Move::Ask(query), before),
        performs(before, query, after, reply),
        steps(stage, Some(reply), next_stage, next),
    ensures
        on_track(pre, asked, next_stage, next, after),
        steps_left(next_stage) < steps_left(stage),
{
    let db = pre.connection_pool;
    match (asked, stage) {
        (Asked::Latest(p), Stage::AwaitsLatestBuild { params }) => {
            let tag = p.architecture.tag();
            lemma_first_offer(db, p.app_id, None, tag);
            lemma_first_offer(before.connection_pool, p.app_id, None, tag);
            lemma_offers_by_tables(db, before.connection_pool, p.app_id, None, tag);
            if !db.offers_nothing(p.app_id, None, tag) {
                assert(db.is_first_offer(
                    before.connection_pool.first_offer(p.app_id, None, tag),
                    p.app_id,
                    None,
                    tag,
                ));
            }
        },
        (Asked::Latest(p), Stage::AwaitsVersion { params, build }) => {
            let tag = p.architecture.tag();
            lemma_first_offer(db, p.app_id, None, tag);
            let i = db.first_offer(p.app_id, None, tag);
            assert(db.offers(db.builds@[i], p.app_id, None, tag));
            lemma_place_of(db.versions@, build.app_version_id);
            assert(has_id(db.versions@, build.app_version_id));
        },
        (Asked::Latest(p), Stage::AwaitsNote { answer }) => {
            let now = choose|now: i64|
                client_noted(
                    before.connection_pool,
                    p.client_id,
                    p.current_running_version@,
                    now,
                    after.connection_pool,
                );
            assert(client_noted(
                db,
                p.client_id,
                p.current_running_version@,
                now,
                after.connection_pool,
            ));
        },
        (Asked::Report { params: p, healthy }, Stage::AwaitsExactBuild { healthy: h }) => {
            let tag = p.architecture.tag();
            let current = p.current_running_version@;
            lemma_first_offer(db, p.app_id, Some(current), tag);
            lemma_first_offer(before.connection_pool, p.app_id, Some(current), tag);
            lemma_offers_by_tables(db, before.connection_pool, p.app_id, Some(current), tag);
            if !db.offers_nothing(p.app_id, Some(current), tag) {
                assert(db.is_first_offer(
                    before.connection_pool.first_offer(p.app_id, Some(current), tag),
                    p.app_id,
                    Some(current),
                    tag,
                ));
            }
        },
        (Asked::Report { params: p, healthy }, Stage::AwaitsCount) => {
            let tag = p.architecture.tag();
            let current = p.current_running_version@;
            lemma_first_offer(db, p.app_id, Some(current), tag);
            let i = db.first_offer(p.app_id, Some(current), tag);
            assert(db.builds@[i].row_id() == db.builds@[i].id);
            assert(has_id(db.builds@, db.builds@[i].id));
        },
        (Asked::Create(c), Stage::AwaitsEntry) => {
            let r = reply->Application_0;
            let (id, now) = choose|id: u128, now: i64|
                application_entered(
                    before.connection_pool,
                    id,
                    now,
                    c.name@,
                    c.description@,
                    after.connection_pool,
                    r,
                );
            if r is Ok {
                assert(after.connection_pool.applications@.drop_last() =~= db.applications@);
            }
            match next_stage {
                Stage::Closing { outcome } => {
                    match outcome {
                        Ok(Answer::Created(a)) => {
                            assert(answers_creation(
                                db,
                                c,
                                id,
                                now,
                                after.connection_pool,
                                Ok(a),
                            ));
                        },
                        Ok(_) => {},
                        Err(e) => {
                            assert(answers_creation(
                                db,
                                c,
                                id,
                                now,
                                after.connection_pool,
                                Err(e),
                            ));
                        },
                    }
                },
                _ => {},
            }
        },
        (_, Stage::Closing { outcome }) => {
            lemma_answers_by_tables(
                db,
                asked,
                before.connection_pool,
                after.connection_pool,
                outcome,
            );
        },
        _ => {},
    }
}

/// What is offered depends on the tables alone.
proof fn lemma_offers_by_tables(
    db: Database,
    other: Database,
    app_id: u128,
    version: Option<Seq<char>>,
    architecture: Seq<char>,
)
    requires
        db.same_tables(other),
    ensures
        db.offers_nothing(app_id, version, architecture) == other.offers_nothing(
            app_id,
            version,
            architecture,
        ),
        forall|i: int|
            db.is_first_offer(i, app_id, version, architecture) == other.is_first_offer(
                i,
                app_id,
                version,
                architecture,
            ),
{
    assert forall|b: ApplicationBuild|
        db.offers(b, app_id, version, architecture) == other.offers(
            b,
            app_id,
            version,
            architecture,
        ) by {}
}

/// Enters the application that `params` describes, and answers with it.
pub fn create_application(store: &mut AppStore, params: CreateApplication) -> (r: Result<
    CreatedApplication,
    (u16, String),
>)
    ensures
        ends_request(*old(store), *final(store)),
        exists|id: u128, now: i64|
            answers_creation(
                old(store).connection_pool,
                params,
                id,
                now,
                final(store).connection_pool,
                r,
            ),
{
    match serve(store, Asked::Create(params)) {
        Ok(Answer::Created(answer)) => Ok(answer),
        Ok(_) => {
            proof {
                assert(false);
            }
            Err(internal_error(String::new()))
        },
        Err(e) => Err(e),
    }
}

/// Answers the client `params` with the latest build for it, and notes the version that
/// it says it runs.
pub fn get_latest_version(store: &mut AppStore, params: ClientDetails) -> (r: Result<
    LatestVersion,
    (u16, String),
>)
    ensures
        ends_request(*old(store), *final(store)),
        answers_latest(old(store).connection_pool, params, final(store).connection_pool, r),
{
    match serve(store, Asked::Latest(params)) {
        Ok(Answer::Latest(answer)) => Ok(answer),
        Ok(_) => {
            proof {
                assert(false);
            }
            Err(internal_error(String::new()))
        },
        Err(e) => Err(e),
    }
}

/// Takes the report of the client `params` that the build it runs has started.
pub fn report_build_success(store: &mut AppStore, params: ClientDetails) -> (r: Result<
    (),
    (u16, String),
>)
    ensures
        ends_request(*old(store), *final(store)),
        answers_report(old(store).connection_pool, params, true, final(store).connection_pool, r),
{
    match serve(store, Asked::Report { params, healthy: true }) {
        Ok(_) => Ok(()),
        Err(e) => Err(e),
    }
}

/// Takes the report of the client `params` that the build it runs has failed to start.
pub fn report_build_failure(store: &mut AppStore, params: ClientDetails) -> (r: Result<
    (),
    (u16, String),
>)
    ensures
        ends_request(*old(store), *final(store)),
        answers_report(
            old(store).connection_pool,
            params,
            false,
            final(store).connection_pool,
            r,
        ),
{
    match serve(store, Asked::Report { params, healthy: false }) {
        Ok(_) => Ok(()),
        Err(e) => Err(e),
    }
}

} // verus!
