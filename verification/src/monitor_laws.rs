//! What holds of every step of the supervisor, whatever its host sends it.

use crate::errors::CvmError;
use crate::monitor::{
    life_time_over, transition, Action, CvmClientMonitor, Event, Phase, ProcessStatus, RunResult,
};
use vstd::prelude::*;

verus! {

/// A child that ends while its start is verified fails the cycle, and the rollout
/// authority is told before the failure is handed out: the step on the look that finds
/// the child ended asks for the failure report and nothing else, and only the step on
/// the answer to that report ends the run, with the early exit as its error.
pub proof fn lemma_early_exit_is_reported_before_it_ends_the_run(
    pre: CvmClientMonitor,
    status: String,
    now: i64,
    reporting: CvmClientMonitor,
    first: Action,
    answer: Result<(), CvmError>,
    later: i64,
    post: CvmClientMonitor,
    second: Action,
)
    requires
        pre.phase is Verifying,
        transition(
            pre,
            Event::ProcessChecked(ProcessStatus::Exited { status }),
            now,
            reporting,
            first,
        ),
        answer is Ok,
        transition(reporting, Event::Reported(answer), later, post, second),
    ensures
        first == (Action::ReportFailure { request: pre.http_client.says_failed() }),
        reporting.phase == (Phase::ReportingFailure {
            error: CvmError::ProcessExitEarly { status },
        }),
        second == Action::Done(Err(CvmError::ProcessExitEarly { status })),
        post.phase is Stopped,
{
}

/// A failure of the start is never handed out by the step that finds it: whatever a
/// look at a starting child shows, the step on it does not end the run.
pub proof fn lemma_no_look_ends_the_run(
    pre: CvmClientMonitor,
    status: ProcessStatus,
    now: i64,
    post: CvmClientMonitor,
    action: Action,
)
    requires
        transition(pre, Event::ProcessChecked(status), now, post, action),
    ensures
        !(action is Done),
{
}

/// The child is asked to end only by a polling supervisor, on an answer that asks for an
/// update.
pub proof fn lemma_shutdown_follows_a_poll(
    pre: CvmClientMonitor,
    event: Event,
    now: i64,
    post: CvmClientMonitor,
    action: Action,
)
    requires
        transition(pre, event, now, post, action),
        action is Terminate,
    ensures
        pre.phase is Polling,
        event matches Event::Polled(Ok(response)) && response.update_required,
        post.phase is ShuttingDown,
{
}

/// The rollout authority is polled only once the start was reported and the report was
/// answered, or as the next poll of a supervisor that polls already.
pub proof fn lemma_poll_follows_the_report(
    pre: CvmClientMonitor,
    event: Event,
    now: i64,
    post: CvmClientMonitor,
    action: Action,
)
    requires
        transition(pre, event, now, post, action),
        action is Poll,
    ensures
        (pre.phase is ReportingHealthy && event is Reported) || (pre.phase is Polling
            && event is Polled),
        post.phase is Polling,
{
}

/// The start is reported as healthy only after the last of the looks at the child, each
/// of which found it running.
pub proof fn lemma_healthy_follows_the_last_look(
    pre: CvmClientMonitor,
    event: Event,
    now: i64,
    post: CvmClientMonitor,
    action: Action,
)
    requires
        transition(pre, event, now, post, action),
        action is ReportHealthy,
    ensures
        pre.phase == (Phase::Pausing { checks_left: 0 }),
        event is Paused,
        post.phase is ReportingHealthy,
{
}

/// Within a run, the next cycle starts only when the shutdown of the last is complete.
pub proof fn lemma_next_cycle_follows_the_shutdown(
    pre: CvmClientMonitor,
    event: Event,
    now: i64,
    post: CvmClientMonitor,
    action: Action,
)
    requires
        transition(pre, event, now, post, action),
        action is CheckLatest,
    ensures
        pre.phase is ShuttingDown,
        event matches Event::Terminated(Ok(_)),
        pre.remain_alive,
        post.phase is Resolving,
{
}

/// The version that a supervisor reports as running changes only on an answer of the
/// rollout authority, and then to the version that the answer names.
pub proof fn lemma_version_follows_the_answers(
    pre: CvmClientMonitor,
    event: Event,
    now: i64,
    post: CvmClientMonitor,
    action: Action,
)
    requires
        transition(pre, event, now, post, action),
    ensures
        post.http_client.client_details.client_id == pre.http_client.client_details.client_id,
        post.http_client.client_details.app_id == pre.http_client.client_details.app_id,
        post.http_client.client_details.architecture
            == pre.http_client.client_details.architecture,
        post.http_client.client_details.current_running_version@
            != pre.http_client.client_details.current_running_version@ ==> {
            &&& (event is Latest || event is Polled)
            &&& match event {
                Event::Latest(Ok(response)) => response.version@
                    == post.http_client.client_details.current_running_version@,
                Event::Polled(Ok(response)) => response.version@
                    == post.http_client.client_details.current_running_version@,
                _ => false,
            }
        },
{
}

/// The life time counts as reached only when a budget was set and polling has lasted
/// that long; the step that finds it so ends the run with a result that says so, and
/// does not touch the child.
pub proof fn lemma_life_time_ends_the_run_untouched(
    pre: CvmClientMonitor,
    event: Event,
    now: i64,
    post: CvmClientMonitor,
    action: Action,
)
    requires
        transition(pre, event, now, post, action),
        !pre.life_time_duration_reached,
        post.life_time_duration_reached,
    ensures
        pre.life_time_duration matches Some(budget) && (if pre.phase is Polling {
            budget <= now - pre.poll_started_at
        } else {
            budget <= 0
        }),
        action matches Action::Done(Ok(result)) && result.life_time_duration_reached,
        post.phase is Stopped,
{
}

/// A supervisor without a budget never ends a run for its life time.
pub proof fn lemma_no_budget_no_end(
    pre: CvmClientMonitor,
    event: Event,
    now: i64,
    post: CvmClientMonitor,
    action: Action,
)
    requires
        transition(pre, event, now, post, action),
        pre.life_time_duration is None,
    ensures
        post.life_time_duration_reached == pre.life_time_duration_reached,
{
}

/// A poll that fails does not end the polling: the supervisor asks again at the next
/// tick, unless its time is up.
pub proof fn lemma_failed_poll_is_retried(
    pre: CvmClientMonitor,
    error: CvmError,
    now: i64,
    post: CvmClientMonitor,
    action: Action,
)
    requires
        pre.phase is Polling,
        transition(pre, Event::Polled(Err(error)), now, post, action),
        !life_time_over(pre.life_time_duration, now - pre.poll_started_at),
    ensures
        action == (Action::Poll {
            wait_millis: pre.version_check_poll_interval,
            request: pre.http_client.asks_latest(),
        }),
        post == pre,
{
}

/// A stopped supervisor stays stopped, and an idle one stays idle until a run is asked
/// of it: the step on any event rejects it.
pub proof fn lemma_stopped_and_idle_reject(
    pre: CvmClientMonitor,
    event: Event,
    now: i64,
    post: CvmClientMonitor,
    action: Action,
)
    requires
        pre.phase is Stopped || pre.phase is Idle,
        transition(pre, event, now, post, action),
    ensures
        post == pre,
        action == Action::Rejected,
{
}

/// Every step is decided: two steps from one state on one event at one time ask for the
/// same kind of action and leave the supervisor in the same kind of phase.
pub proof fn lemma_steps_agree(
    pre: CvmClientMonitor,
    event: Event,
    now: i64,
    post: CvmClientMonitor,
    action: Action,
    other_post: CvmClientMonitor,
    other_action: Action,
)
    requires
        transition(pre, event, now, post, action),
        transition(pre, event, now, other_post, other_action),
    ensures
        post.life_time_duration_reached == other_post.life_time_duration_reached,
        post.http_client.client_details.current_running_version@
            == other_post.http_client.client_details.current_running_version@,
        post.last_version_ran@ == other_post.last_version_ran@,
        post.phase is Stopped <==> other_post.phase is Stopped,
        post.phase is Polling <==> other_post.phase is Polling,
        post.phase is ShuttingDown <==> other_post.phase is ShuttingDown,
        action is Terminate <==> other_action is Terminate,
        action is Done <==> other_action is Done,
        action is Rejected <==> other_action is Rejected,
{
}

/// A supervisor stops for a reason: the step that stops it ends the run, either with an
/// error or with a result that says that the life time was reached.
pub proof fn lemma_stopping_has_a_reason(
    pre: CvmClientMonitor,
    event: Event,
    now: i64,
    post: CvmClientMonitor,
    action: Action,
)
    requires
        transition(pre, event, now, post, action),
        !(pre.phase is Stopped),
        post.phase is Stopped,
    ensures
        action matches Action::Done(result) && match result {
            Ok(summary) => summary.life_time_duration_reached && post.life_time_duration_reached,
            Err(_) => true,
        },
{
}

/// A run that ends well after a shutdown says what ran and what was found: the version
/// in the name of the artifact that was started, and the version that the rollout
/// authority named last.
pub proof fn lemma_result_sums_up_the_cycle(
    pre: CvmClientMonitor,
    outcome: Result<(), CvmError>,
    now: i64,
    post: CvmClientMonitor,
    summary: RunResult,
)
    requires
        pre.phase is ShuttingDown,
        transition(pre, Event::Terminated(outcome), now, post, Action::Done(Ok(summary))),
    ensures
        outcome is Ok,
        !pre.remain_alive,
        summary.last_version_ran@ == pre.last_version_ran@,
        summary.latest_version_detected@
            == pre.http_client.client_details.current_running_version@,
        summary.life_time_duration_reached == pre.life_time_duration_reached,
        post.phase is Idle,
{
}

} // verus!
