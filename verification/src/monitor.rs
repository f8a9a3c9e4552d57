//! The supervisor: a state machine that owns one child process at a time.
//!
//! The machine decides; its host acts. Each step takes what the host's last action came
//! to (an [`Event`]) and gives the next thing to do (an [`Action`]). The host performs
//! the action, whatever waiting it takes, and comes back with the event that answers it.

use crate::bridge::now_millis;
use crate::config::{Config, VERSION_ZERO};
use crate::errors::CvmError;
use crate::http_client::{
    endpoints_exist, is_client_of, CvmHttpClient, LatestVersionResponse, Request,
};
use crate::text::{after_last, text_after_last};
use vstd::prelude::*;
use vstd::string::*;

verus! {

/// How often a child is looked at before it counts as started.
pub const STARTUP_CHECKS: u8 = 3;

/// The pause after each look at a starting child, in milliseconds.
pub const STARTUP_PAUSE_MILLIS: u64 = 1000;

/// What one supervisor cycle came to.
#[derive(Debug)]
pub struct RunResult {
    pub last_version_ran: String,
    pub latest_version_detected: String,
    pub life_time_duration_reached: bool,
}

/// What a look at the child process showed.
#[derive(Debug)]
pub enum ProcessStatus {
    /// It runs.
    Running,
    /// It has ended; `status` is its exit status in the operating system's words.
    Exited { status: String },
    /// The look itself failed.
    Unknown { message: String },
}

/// What the host's last action came to.
#[derive(Debug)]
pub enum Event {
    /// Answers `CheckLatest`.
    Latest(Result<LatestVersionResponse, CvmError>),
    /// Answers `LocateArtifact`: whether the file is in the working directory.
    Located(bool),
    /// Answers `Download`, with the name the file was kept under.
    Downloaded(Result<String, CvmError>),
    /// Answers `Launch`.
    Launched(Result<(), CvmError>),
    /// Answers `CheckProcess`.
    ProcessChecked(ProcessStatus),
    /// Answers `Pause`.
    Paused,
    /// Answers `ReportHealthy` and `ReportFailure`.
    Reported(Result<(), CvmError>),
    /// Answers `Poll`.
    Polled(Result<LatestVersionResponse, CvmError>),
    /// Answers `Terminate`: the child has ended, or it could not be told to.
    Terminated(Result<(), CvmError>),
}

/// What the host is to do next.
#[derive(Debug)]
pub enum Action {
    /// Ask the rollout authority for the latest build, with `request`.
    CheckLatest { request: Request },
    /// See whether `file_name` is in the working directory.
    LocateArtifact { file_name: String },
    /// Fetch the artifact at `url` into the working directory.
    Download { url: String },
    /// Make `file_name` executable and start it as the child.
    Launch { file_name: String },
    /// Look at the child without waiting for it.
    CheckProcess,
    /// Wait for `millis` milliseconds.
    Pause { millis: u64 },
    /// Tell the rollout authority that the build started, with `request`.
    ReportHealthy { request: Request },
    /// Tell the rollout authority that the build failed, with `request`.
    ReportFailure { request: Request },
    /// Wait for `wait_millis` milliseconds, then ask the rollout authority for the
    /// latest build, with `request`.
    Poll { wait_millis: u64, request: Request },
    /// Ask the child to end, gracefully, and wait until it has.
    Terminate,
    /// The run is over.
    Done(Result<RunResult, CvmError>),
    /// The event answers no action that is open, or a run was asked of a supervisor that
    /// is not idle; nothing has changed.
    Rejected,
}

/// Where in its cycle a supervisor stands, named by the answer it waits for.
#[derive(Debug)]
pub enum Phase {
    Idle,
    Resolving,
    Locating { file_name: String, url: String },
    Downloading,
    Launching,
    Verifying { checks_left: u8 },
    Pausing { checks_left: u8 },
    ReportingHealthy,
    ReportingFailure { error: CvmError },
    Polling,
    ShuttingDown,
    Stopped,
}

/// The supervisor of one application on one machine.
#[derive(Debug)]
pub struct CvmClientMonitor {
    pub http_client: CvmHttpClient,
    /// Milliseconds between two requests for the latest build.
    pub version_check_poll_interval: u64,
    /// How long polling may last, in milliseconds; `None` for as long as it takes.
    pub life_time_duration: Option<i64>,
    pub life_time_duration_reached: bool,
    pub phase: Phase,
    /// Whether a cycle that ended in a shutdown is followed by the next.
    pub remain_alive: bool,
    /// The version in the name of the artifact that this cycle started.
    pub last_version_ran: String,
    /// The clock's reading when this cycle began to poll.
    pub poll_started_at: i64,
}

/// Whether a budget of `life_time` milliseconds is used up once `elapsed` have passed.
pub open spec fn life_time_over(life_time: Option<i64>, elapsed: int) -> bool {
    life_time matches Some(budget) && budget <= elapsed
}

/// Whether `post` is `pre` but for the version it reports as running, which is `version`.
pub open spec fn reports_version(
    pre: CvmHttpClient,
    post: CvmHttpClient,
    version: Seq<char>,
) -> bool {
    &&& post.client_details.current_running_version@ == version
    &&& post.client_details.client_id == pre.client_details.client_id
    &&& post.client_details.app_id == pre.client_details.app_id
    &&& post.client_details.architecture == pre.client_details.architecture
    &&& post.latest_version_url == pre.latest_version_url
    &&& post.report_success_url == pre.report_success_url
    &&& post.report_failure_url == pre.report_failure_url
}

/// What an answer of the rollout authority does to the client: the version it names is
/// the one that counts as running from then on; a failed request changes nothing.
pub open spec fn takes_answer(
    pre: CvmHttpClient,
    outcome: Result<LatestVersionResponse, CvmError>,
    post: CvmHttpClient,
) -> bool {
    match outcome {
        Ok(response) => reports_version(pre, post, response.version@),
        Err(_) => post == pre,
    }
}

/// Whether `result` sums up the cycle of `m`.
pub open spec fn sums_up(result: RunResult, m: CvmClientMonitor) -> bool {
    &&& result.last_version_ran@ == m.last_version_ran@
    &&& result.latest_version_detected@ == m.http_client.client_details.current_running_version@
    &&& result.life_time_duration_reached == m.life_time_duration_reached
}

/// Whether `post` is `pre` in another phase.
pub open spec fn moves_to(pre: CvmClientMonitor, post: CvmClientMonitor, phase: Phase) -> bool {
    post == (CvmClientMonitor { phase, ..pre })
}

/// Whether `post` is `pre` once it has started the artifact `file_name`: the version in
/// the name is noted, and the answer to the launch is awaited.
pub open spec fn launches(
    pre: CvmClientMonitor,
    post: CvmClientMonitor,
    file_name: Seq<char>,
) -> bool {
    &&& post.phase is Launching
    &&& post.last_version_ran@ == after_last(file_name, '_')
    &&& post.http_client == pre.http_client
    &&& post.version_check_poll_interval == pre.version_check_poll_interval
    &&& post.life_time_duration == pre.life_time_duration
    &&& post.life_time_duration_reached == pre.life_time_duration_reached
    &&& post.remain_alive == pre.remain_alive
    &&& post.poll_started_at == pre.poll_started_at
}

/// What is decided when polling may go on, `elapsed` milliseconds after it began: over
/// budget the run ends, untouched child and all, and says so in its result; else the
/// authority is asked again after `wait_millis`.
pub open spec fn polls_on(
    pre: CvmClientMonitor,
    elapsed: int,
    wait_millis: u64,
    post: CvmClientMonitor,
    action: Action,
) -> bool {
    if life_time_over(pre.life_time_duration, elapsed) {
        &&& post == (CvmClientMonitor {
            phase: Phase::Stopped,
            life_time_duration_reached: true,
            ..pre
        })
        &&& action matches Action::Done(Ok(result))
        &&& sums_up(result, post)
    } else {
        &&& moves_to(pre, post, Phase::Polling)
        &&& action == (Action::Poll { wait_millis, request: pre.http_client.asks_latest() })
    }
}

/// The step of a supervisor that waits for the answer to a request for the latest build
/// before it starts anything.
pub open spec fn resolving_step(
    pre: CvmClientMonitor,
    outcome: Result<LatestVersionResponse, CvmError>,
    post: CvmClientMonitor,
    action: Action,
) -> bool {
    match outcome {
        Ok(response) => {
            &&& post.phase matches Phase::Locating { file_name, url }
            &&& file_name@ == after_last(response.url@, '/')
            &&& url == response.url
            &&& reports_version(pre.http_client, post.http_client, response.version@)
            &&& post.version_check_poll_interval == pre.version_check_poll_interval
            &&& post.life_time_duration == pre.life_time_duration
            &&& post.life_time_duration_reached == pre.life_time_duration_reached
            &&& post.remain_alive == pre.remain_alive
            &&& post.last_version_ran == pre.last_version_ran
            &&& post.poll_started_at == pre.poll_started_at
            &&& action matches Action::LocateArtifact { file_name: asked }
            &&& asked@ == after_last(response.url@, '/')
        },
        Err(e) => moves_to(pre, post, Phase::Stopped) && action == Action::Done(Err(e)),
    }
}

/// The step of a supervisor that looks at a starting child: one that runs is looked at
/// again after a pause, until the looks are used up; one that has ended, or that cannot
/// be looked at, is a failure that the authority is told of.
pub open spec fn verifying_step(
    pre: CvmClientMonitor,
    checks_left: u8,
    status: ProcessStatus,
    post: CvmClientMonitor,
    action: Action,
) -> bool {
    match start_process_outcome(checks_left, status) {
        Ok(left) => {
            &&& moves_to(pre, post, Phase::Pausing { checks_left: left })
            &&& action == (Action::Pause { millis: STARTUP_PAUSE_MILLIS })
        },
        Err(error) => {
            &&& moves_to(pre, post, Phase::ReportingFailure { error })
            &&& action == (Action::ReportFailure { request: pre.http_client.says_failed() })
        },
    }
}

/// What one look at a starting child comes to: the looks that are left, or the failure.
pub open spec fn start_process_outcome(checks_left: u8, status: ProcessStatus) -> Result<
    u8,
    CvmError,
> {
    match status {
        ProcessStatus::Running => Ok(
            if checks_left > 0 {
                (checks_left - 1) as u8
            } else {
                0
            },
        ),
        ProcessStatus::Exited { status } => Err(CvmError::ProcessExitEarly { status }),
        ProcessStatus::Unknown { message } => Err(CvmError::ProcessFailedToStart { message }),
    }
}

/// The step of a supervisor that polls, on the answer to a request made at `now`: the
/// answer is taken in; one that asks for an update ends the polling and has the child
/// asked to end; after any other, polling goes on while the budget lasts.
pub open spec fn polling_step(
    pre: CvmClientMonitor,
    outcome: Result<LatestVersionResponse, CvmError>,
    now: i64,
    post: CvmClientMonitor,
    action: Action,
) -> bool {
    let heard = CvmClientMonitor { http_client: post.http_client, ..pre };
    &&& takes_answer(pre.http_client, outcome, post.http_client)
    &&& if outcome matches Ok(response) && response.update_required {
        moves_to(heard, post, Phase::ShuttingDown) && action == Action::Terminate
    } else {
        polls_on(
            heard,
            now - pre.poll_started_at,
            pre.version_check_poll_interval,
            post,
            action,
        )
    }
}

/// The step of a supervisor whose child was asked to end.
pub open spec fn shutting_down_step(
    pre: CvmClientMonitor,
    outcome: Result<(), CvmError>,
    post: CvmClientMonitor,
    action: Action,
) -> bool {
    match outcome {
        Ok(_) => if pre.remain_alive {
            moves_to(pre, post, Phase::Resolving) && action == (Action::CheckLatest {
                request: pre.http_client.asks_latest(),
            })
        } else {
            &&& moves_to(pre, post, Phase::Idle)
            &&& action matches Action::Done(Ok(result))
            &&& sums_up(result, pre)
        },
        Err(e) => moves_to(pre, post, Phase::Stopped) && action == Action::Done(Err(e)),
    }
}

/// One step of the supervisor: from `pre`, on `event` at the clock's reading `now`, to
/// `post` and the `action` it asks for.
pub open spec fn transition(
    pre: CvmClientMonitor,
    event: Event,
    now: i64,
    post: CvmClientMonitor,
    action: Action,
) -> bool {
    match (pre.phase, event) {
        (Phase::Resolving, Event::Latest(outcome)) => resolving_step(pre, outcome, post, action),
        (Phase::Locating { file_name, url }, Event::Located(found)) => if found {
            &&& launches(pre, post, file_name@)
            &&& action == (Action::Launch { file_name })
        } else {
            moves_to(pre, post, Phase::Downloading) && action == (Action::Download { url })
        },
        (Phase::Downloading, Event::Downloaded(Ok(file_name))) => {
            &&& launches(pre, post, file_name@)
            &&& action == (Action::Launch { file_name })
        },
        (Phase::Downloading, Event::Downloaded(Err(e))) => {
            moves_to(pre, post, Phase::Stopped) && action == Action::Done(Err(e))
        },
        (Phase::Launching, Event::Launched(Ok(_))) => {
            &&& moves_to(pre, post, Phase::Verifying { checks_left: STARTUP_CHECKS })
            &&& action == Action::CheckProcess
        },
        (Phase::Launching, Event::Launched(Err(error))) => {
            &&& moves_to(pre, post, Phase::ReportingFailure { error })
            &&& action == (Action::ReportFailure { request: pre.http_client.says_failed() })
        },
        (Phase::Verifying { checks_left }, Event::ProcessChecked(status)) => verifying_step(
            pre,
            checks_left,
            status,
            post,
            action,
        ),
        (Phase::Pausing { checks_left }, Event::Paused) => if checks_left == 0 {
            moves_to(pre, post, Phase::ReportingHealthy) && action == (Action::ReportHealthy {
                request: pre.http_client.says_healthy(),
            })
        } else {
            &&& moves_to(pre, post, Phase::Verifying { checks_left })
            &&& action == Action::CheckProcess
        },
        (Phase::ReportingHealthy, Event::Reported(_)) => polls_on(
            CvmClientMonitor { poll_started_at: now, ..pre },
            0,
            0,
            post,
            action,
        ),
        (Phase::ReportingFailure { error }, Event::Reported(Ok(_))) => {
            moves_to(pre, post, Phase::Stopped) && action == Action::Done(Err(error))
        },
        (Phase::ReportingFailure { error }, Event::Reported(Err(e))) => {
            moves_to(pre, post, Phase::Stopped) && action == Action::Done(Err(e))
        },
        (Phase::Polling, Event::Polled(outcome)) => polling_step(pre, outcome, now, post, action),
        (Phase::ShuttingDown, Event::Terminated(outcome)) => shutting_down_step(
            pre,
            outcome,
            post,
            action,
        ),
        _ => post == pre && action == Action::Rejected,
    }
}

/// What the request for a run does: an idle supervisor goes to `phase` and asks for
/// `first`; any other stays as it is and rejects the request.
pub open spec fn starts_run(
    pre: CvmClientMonitor,
    remain_alive: bool,
    phase: Phase,
    first: Action,
    post: CvmClientMonitor,
    action: Action,
) -> bool {
    if pre.phase is Idle {
        post == (CvmClientMonitor { phase, remain_alive, ..pre }) && action == first
    } else {
        post == pre && action == Action::Rejected
    }
}

/// The version in the name of an artifact: what stands behind its last underscore.
pub fn strip_version_from_file_name(file_name: &str) -> (r: String)
    ensures
        r@ == after_last(file_name@, '_'),
{
    text_after_last(file_name, '_')
}

/// What one look at a starting child comes to, with `checks_left` looks still to be
/// taken, this one among them: the looks left after it, or the failure.
pub fn start_process(checks_left: u8, status: ProcessStatus) -> (r: Result<u8, CvmError>)
    ensures
        r == start_process_outcome(checks_left, status),
{
    match status {
        ProcessStatus::Running => Ok(
            if checks_left > 0 {
                checks_left - 1
            } else {
                0
            },
        ),
        ProcessStatus::Exited { status } => Err(CvmError::ProcessExitEarly { status }),
        ProcessStatus::Unknown { message } => Err(CvmError::ProcessFailedToStart { message }),
    }
}

impl CvmClientMonitor {
    /// Whether this is an idle supervisor for `config` that has run nothing yet.
    pub open spec fn is_fresh(
        self,
        config: Config,
        version_check_poll_interval: u64,
        life_time_duration: Option<i64>,
    ) -> bool {
        &&& is_client_of(self.http_client, config, VERSION_ZERO@)
        &&& self.version_check_poll_interval == version_check_poll_interval
        &&& self.life_time_duration == life_time_duration
        &&& !self.life_time_duration_reached
        &&& self.phase is Idle
        &&& !self.remain_alive
        &&& self.last_version_ran@ == Seq::<char>::empty()
        &&& self.poll_started_at == 0
    }

    /// An idle supervisor for `config`; `None` where the configured authority makes no
    /// URL with one of the request paths.
    pub fn try_new(
        config: Config,
        version_check_poll_interval: u64,
        life_time_duration: Option<i64>,
    ) -> (r: Option<CvmClientMonitor>)
        ensures
            r is Some <==> endpoints_exist(config.cvm_server_url@),
            r matches Some(m) ==> m.is_fresh(
                config,
                version_check_poll_interval,
                life_time_duration,
            ),
    {
        if CvmHttpClient::endpoints_parse(config.cvm_server_url.as_str()) {
            Some(CvmClientMonitor::new(config, version_check_poll_interval, life_time_duration))
        } else {
            None
        }
    }

    /// An idle supervisor for `config`.
    pub fn new(
        config: Config,
        version_check_poll_interval: u64,
        life_time_duration: Option<i64>,
    ) -> (r: CvmClientMonitor)
        requires
            endpoints_exist(config.cvm_server_url@),
        ensures
            r.is_fresh(config, version_check_poll_interval, life_time_duration),
    {
        CvmClientMonitor {
            http_client: CvmHttpClient::new(config, VERSION_ZERO),
            version_check_poll_interval,
            life_time_duration,
            life_time_duration_reached: false,
            phase: Phase::Idle,
            remain_alive: false,
            last_version_ran: String::new(),
            poll_started_at: 0,
        }
    }

    /// Begins to run the latest build, and the one after it, for as long as newer builds
    /// come and nothing fails.
    pub fn run_and_remain_alive(&mut self) -> (action: Action)
        ensures
            starts_run(
                *old(self),
                true,
                Phase::Resolving,
                Action::CheckLatest { request: old(self).http_client.asks_latest() },
                *final(self),
                action,
            ),
    {
        if let Phase::Idle = self.phase {
            self.phase = Phase::Resolving;
            self.remain_alive = true;
            Action::CheckLatest { request: self.http_client.latest_request() }
        } else {
            Action::Rejected
        }
    }

    /// Begins one cycle on the artifact at `version_url`, whatever the latest build is.
    pub fn run_specified_version_until_outdated(&mut self, version_url: &str) -> (action: Action)
        ensures
            old(self).phase is Idle ==> (action matches Action::Download { url } && url@
                == version_url@ && *final(self) == (CvmClientMonitor {
                phase: Phase::Downloading,
                remain_alive: false,
                ..*old(self)
            })),
            !(old(self).phase is Idle) ==> action == Action::Rejected && *final(self) == *old(self),
    {
        if let Phase::Idle = self.phase {
            self.phase = Phase::Downloading;
            self.remain_alive = false;
            Action::Download { url: String::from_str(version_url) }
        } else {
            Action::Rejected
        }
    }

    /// Begins one cycle on the latest build.
    pub fn run_latest_until_version_outdated(&mut self) -> (action: Action)
        ensures
            starts_run(
                *old(self),
                false,
                Phase::Resolving,
                Action::CheckLatest { request: old(self).http_client.asks_latest() },
                *final(self),
                action,
            ),
    {
        if let Phase::Idle = self.phase {
            self.phase = Phase::Resolving;
            self.remain_alive = false;
            Action::CheckLatest { request: self.http_client.latest_request() }
        } else {
            Action::Rejected
        }
    }

    /// What this cycle came to, as it stands.
    fn run_result(&self) -> (r: RunResult)
        ensures
            sums_up(r, *self),
    {
        RunResult {
            last_version_ran: self.last_version_ran.clone(),
            latest_version_detected: self.http_client.client_details.current_running_version.clone(),
            life_time_duration_reached: self.life_time_duration_reached,
        }
    }

    /// Decides whether polling goes on, `elapsed` milliseconds after it began.
    fn poll_on(&mut self, elapsed: i128, wait_millis: u64) -> (action: Action)
        ensures
            polls_on(*old(self), elapsed as int, wait_millis, *final(self), action),
    {
        let over = match self.life_time_duration {
            Some(budget) => budget as i128 <= elapsed,
            None => false,
        };
        if over {
            self.life_time_duration_reached = true;
            self.phase = Phase::Stopped;
            Action::Done(Ok(self.run_result()))
        } else {
            self.phase = Phase::Polling;
            Action::Poll { wait_millis, request: self.http_client.latest_request() }
        }
    }

    /// Notes the artifact that is started now, and asks for its launch.
    fn launch(&mut self, file_name: String) -> (action: Action)
        ensures
            launches(*old(self), *final(self), file_name@),
            action == (Action::Launch { file_name }),
    {
        self.last_version_ran = strip_version_from_file_name(file_name.as_str());
        self.phase = Phase::Launching;
        Action::Launch { file_name }
    }

    /// The polling step: takes in the authority's answer to a request made at the
    /// clock's reading `now`, and decides whether to shut the child down, to poll on, or
    /// to end the run because its time is up. Outside polling, the answer is rejected.
    pub fn poll_until_new_version(
        &mut self,
        outcome: Result<LatestVersionResponse, CvmError>,
        now: i64,
    ) -> (action: Action)
        ensures
            transition(*old(self), Event::Polled(outcome), now, *final(self), action),
    {
        if let Phase::Polling = self.phase {
            let wait: u64 = self.version_check_poll_interval;
            let elapsed: i128 = now as i128 - self.poll_started_at as i128;
            match self.http_client.check_latest(outcome) {
                Ok(response) => {
                    if response.update_required {
                        self.phase = Phase::ShuttingDown;
                        Action::Terminate
                    } else {
                        self.poll_on(elapsed, wait)
                    }
                },
                Err(_) => self.poll_on(elapsed, wait),
            }
        } else {
            Action::Rejected
        }
    }

    /// One step, at the clock's reading `now`.
    pub fn advance_at(&mut self, event: Event, now: i64) -> (action: Action)
        ensures
            transition(*old(self), event, now, *final(self), action),
    {
        match event {
            Event::Latest(outcome) => {
                if let Phase::Resolving = self.phase {
                    match self.http_client.check_latest(outcome) {
                        Ok(response) => {
                            let file_name = response.get_file_name();
                            let asked = file_name.clone();
                            self.phase = Phase::Locating { file_name, url: response.url };
                            Action::LocateArtifact { file_name: asked }
                        },
                        Err(e) => {
                            self.phase = Phase::Stopped;
                            Action::Done(Err(e))
                        },
                    }
                } else {
                    Action::Rejected
                }
            },
            Event::Located(found) => {
                let held = match &self.phase {
                    Phase::Locating { file_name, url } => Some((file_name.clone(), url.clone())),
                    _ => None,
                };
                match held {
                    Some((file_name, url)) => {
                        if found {
                            self.launch(file_name)
                        } else {
                            self.phase = Phase::Downloading;
                            Action::Download { url }
                        }
                    },
                    None => Action::Rejected,
                }
            },
            Event::Downloaded(outcome) => {
                if let Phase::Downloading = self.phase {
                    match outcome {
                        Ok(file_name) => self.launch(file_name),
                        Err(e) => {
                            self.phase = Phase::Stopped;
                            Action::Done(Err(e))
                        },
                    }
                } else {
                    Action::Rejected
                }
            },
            Event::Launched(outcome) => {
                if let Phase::Launching = self.phase {
                    match outcome {
                        Ok(_) => {
                            self.phase = Phase::Verifying { checks_left: STARTUP_CHECKS };
                            Action::CheckProcess
                        },
                        Err(error) => {
                            self.phase = Phase::ReportingFailure { error };
                            Action::ReportFailure { request: self.http_client.report_failure() }
                        },
                    }
                } else {
                    Action::Rejected
                }
            },
            Event::ProcessChecked(status) => {
                let looks = match &self.phase {
                    Phase::Verifying { checks_left } => Some(*checks_left),
                    _ => None,
                };
                match looks {
                    Some(checks_left) => match start_process(checks_left, status) {
                        Ok(left) => {
                            self.phase = Phase::Pausing { checks_left: left };
                            Action::Pause { millis: STARTUP_PAUSE_MILLIS }
                        },
                        Err(error) => {
                            self.phase = Phase::ReportingFailure { error };
                            Action::ReportFailure { request: self.http_client.report_failure() }
                        },
                    },
                    None => Action::Rejected,
                }
            },
            Event::Paused => {
                let looks = match &self.phase {
                    Phase::Pausing { checks_left } => Some(*checks_left),
                    _ => None,
                };
                match looks {
                    Some(checks_left) => {
                        if checks_left == 0 {
                            self.phase = Phase::ReportingHealthy;
                            Action::ReportHealthy { request: self.http_client.report_healthy() }
                        } else {
                            self.phase = Phase::Verifying { checks_left };
                            Action::CheckProcess
                        }
                    },
                    None => Action::Rejected,
                }
            },
            Event::Reported(outcome) => {
                if let Phase::ReportingHealthy = self.phase {
                    self.poll_started_at = now;
                    self.poll_on(0, 0)
                } else {
                    let failure = match &self.phase {
                        Phase::ReportingFailure { error } => true,
                        _ => false,
                    };
                    if failure {
                        let mut was = Phase::Stopped;
                        std::mem::swap(&mut self.phase, &mut was);
                        match (was, outcome) {
                            (Phase::ReportingFailure { error }, Ok(_)) => Action::Done(Err(error)),
                            (_, Err(e)) => Action::Done(Err(e)),
                            (_, Ok(_)) => Action::Rejected,
                        }
                    } else {
                        Action::Rejected
                    }
                }
            },
            Event::Polled(outcome) => self.poll_until_new_version(outcome, now),
            Event::Terminated(outcome) => {
                if let Phase::ShuttingDown = self.phase {
                    match outcome {
                        Ok(_) => {
                            if self.remain_alive {
                                self.phase = Phase::Resolving;
                                Action::CheckLatest { request: self.http_client.latest_request() }
                            } else {
                                let result = self.run_result();
                                self.phase = Phase::Idle;
                                Action::Done(Ok(result))
                            }
                        },
                        Err(e) => {
                            self.phase = Phase::Stopped;
                            Action::Done(Err(e))
                        },
                    }
                } else {
                    Action::Rejected
                }
            },
        }
    }

    /// One step, at the time the clock shows when it is taken.
    pub fn advance(&mut self, event: Event) -> (action: Action)
        ensures
            exists|now: i64| transition(*old(self), event, now, *final(self), action),
    {
        let now = now_millis();
        self.advance_at(event, now)
    }
}

} // verus!
