//! The execution controller: what the agent does before and after each
//! check, in its main loop and in its two launch strategies. Every function
//! here decides; the host verifies, sleeps, kills and exits as it is told.

use crate::config::{Config, KillMethod};
use crate::health::{record_of, HealthMonitor, HealthStatus};
use crate::network::VerifyResponse;
use crate::text::{lowercase, name_of};
use vstd::prelude::*;

verus! {

/// Milliseconds after which a check that runs beside the workload is given
/// up.
pub const VERIFICATION_TIMEOUT_MS: u64 = 30000;

/// Milliseconds between two looks at the workload and the check.
pub const POLL_MS: u64 = 100;

/// The part of the settings that the server may replace while the agent
/// runs.
#[derive(Debug, Clone, Copy, PartialEq, Eq, Structural)]
pub struct RuntimePolicy {
    /// Milliseconds between two checks; 0 asks for one check only.
    pub check_interval_ms: u64,
    /// What is done to the guarded program when the license is refused.
    pub kill_method: KillMethod,
}

impl RuntimePolicy {
    /// The policy with the kill method that the server names. A name that
    /// stands for no method changes nothing.
    pub open spec fn with_method(self, parsed: Option<KillMethod>) -> RuntimePolicy {
        match parsed {
            Some(method) => RuntimePolicy { kill_method: method, ..self },
            None => self,
        }
    }

    /// The policy after an answer that sets `interval` or names `method`,
    /// or both, or neither. What the answer sets replaces what was in
    /// force; what it leaves out stays.
    pub open spec fn patched(self, interval: Option<u64>, method: Option<Seq<char>>)
        -> RuntimePolicy {
        let timed = match interval {
            Some(millis) => RuntimePolicy { check_interval_ms: millis, ..self },
            None => self,
        };
        match method {
            Some(name) => timed.with_method(KillMethod::named(lowercase(name))),
            None => timed,
        }
    }

    /// The policy that the settings start the agent with.
    pub fn from_config(config: &Config) -> (policy: RuntimePolicy)
        ensures
            policy.check_interval_ms == config.check_interval_ms,
            policy.kill_method == config.kill_method,
    {
        RuntimePolicy {
            check_interval_ms: config.check_interval_ms,
            kill_method: config.kill_method,
        }
    }

    /// Takes the kill method that the server named, once its name was read.
    pub fn set_method(&mut self, parsed: Option<KillMethod>)
        ensures
            *final(self) == old(self).with_method(parsed),
    {
        if let Some(method) = parsed {
            self.kill_method = method;
        }
    }

    /// Takes over what an answer of the server sets.
    pub fn apply(&mut self, response: &VerifyResponse)
        ensures
            *final(self) == old(self).patched(
                response.check_interval_ms,
                name_of(response.kill_method),
            ),
    {
        if let Some(millis) = response.check_interval_ms {
            self.check_interval_ms = millis;
        }
        match &response.kill_method {
            Some(name) => {
                self.set_method(KillMethod::from_str(name.as_str()));
            },
            None => {},
        }
    }
}

/// What a check came to.
pub enum Outcome {
    /// The server lets the machine run, and may set the policy.
    Authorized { interval: Option<u64>, method: Option<Seq<char>> },
    /// The server refuses.
    Denied,
    /// No judgement was had: the server was out of reach, or its answer
    /// could not be read.
    Unreachable,
}

/// What the result of a check comes to.
pub open spec fn outcome_of(result: Result<VerifyResponse, String>) -> Outcome {
    match result {
        Ok(response) => if response.authorized {
            Outcome::Authorized {
                interval: response.check_interval_ms,
                method: name_of(response.kill_method),
            }
        } else {
            Outcome::Denied
        },
        Err(_) => Outcome::Unreachable,
    }
}

/// What the host is to do next.
#[derive(Debug, Clone, Copy, PartialEq, Eq, Structural)]
pub enum Directive {
    /// Check the license, and come back with the result.
    Verify { first_check: bool },
    /// Run the kill engine with `method` on the supervising process, then
    /// leave with `code`, or with 1 where the kill failed.
    Kill { method: KillMethod, code: i32 },
    /// Sleep, then begin the next round.
    Sleep { millis: u64 },
    /// Leave with `code`.
    Exit { code: i32 },
}

/// The main loop between two steps of the host.
#[derive(Debug, Clone, Copy, PartialEq, Eq, Structural)]
pub struct Controller {
    /// The policy in force.
    pub policy: RuntimePolicy,
    /// Whether no check was answered or failed yet.
    pub first_check: bool,
}

impl Controller {
    /// What opens a round, given the shared record as the round finds it:
    /// the kill that the supervisor asks for, or the check.
    pub open spec fn begun(self, record: Option<HealthStatus>) -> Directive {
        match record {
            Some(record) => if record.kill_requested() {
                Directive::Kill { method: self.policy.kill_method, code: 0 }
            } else {
                Directive::Verify { first_check: self.first_check }
            },
            None => Directive::Verify { first_check: self.first_check },
        }
    }

    /// The loop after a check, and what closes the round.
    ///
    /// An authorization first sets the policy as far as the server says,
    /// then ends the loop with success where one check only is asked for,
    /// and else sleeps for the interval now in force. A refusal kills by
    /// the method in force and ends the loop with failure. A check
    /// without judgement never kills: it ends the loop with failure where
    /// one check only is asked for, and else sleeps and tries again.
    pub open spec fn concluded(self, outcome: Outcome) -> (Controller, Directive) {
        match outcome {
            Outcome::Authorized { interval, method } => {
                let policy = self.policy.patched(interval, method);
                if policy.check_interval_ms == 0 {
                    (Controller { policy, ..self }, Directive::Exit { code: 0 })
                } else {
                    (
                        Controller { policy, first_check: false },
                        Directive::Sleep { millis: policy.check_interval_ms },
                    )
                }
            },
            Outcome::Denied => (
                self,
                Directive::Kill { method: self.policy.kill_method, code: 1 },
            ),
            Outcome::Unreachable => if self.policy.check_interval_ms == 0 {
                (self, Directive::Exit { code: 1 })
            } else {
                (
                    Controller { first_check: false, ..self },
                    Directive::Sleep { millis: self.policy.check_interval_ms },
                )
            },
        }
    }

    /// The loop before its first round, under the policy of the settings.
    pub fn new(config: &Config) -> (controller: Controller)
        ensures
            controller.first_check,
            controller.policy.check_interval_ms == config.check_interval_ms,
            controller.policy.kill_method == config.kill_method,
    {
        Controller { policy: RuntimePolicy::from_config(config), first_check: true }
    }

    /// Opens a round: shows in the shared record that the agent runs, and
    /// tells whether to check the license or to kill at the supervisor's
    /// request. Without a monitor, or with an inert one, the check it is.
    pub fn begin(&self, health: &mut Option<HealthMonitor>) -> (directive: Directive)
        ensures
            (*final(health)) is Some <==> (*old(health)) is Some,
            record_of(*final(health)) == recorded_begin(record_of(*old(health))),
            directive == self.begun(record_of(*old(health))),
    {
        match *health {
            Some(monitor) => {
                let mut monitor = monitor;
                monitor.heartbeat();
                let requested = monitor.is_kill_requested();
                *health = Some(monitor);
                if requested {
                    Directive::Kill { method: self.policy.kill_method, code: 0 }
                } else {
                    Directive::Verify { first_check: self.first_check }
                }
            },
            None => Directive::Verify { first_check: self.first_check },
        }
    }

    /// Closes a round on the result of its check, at the second `now` since
    /// the epoch: sets the policy, writes the shared record, and tells what
    /// to do next.
    pub fn conclude(
        &mut self,
        health: &mut Option<HealthMonitor>,
        result: &Result<VerifyResponse, String>,
        now: i64,
    ) -> (directive: Directive)
        ensures
            (*final(health)) is Some <==> (*old(health)) is Some,
            record_of(*final(health)) == recorded_conclusion(
                record_of(*old(health)),
                outcome_of(*result),
                now,
            ),
            (*final(self), directive) == old(self).concluded(outcome_of(*result)),
    {
        match result {
            Ok(response) => {
                if response.authorized {
                    self.policy.apply(response);
                    record(health, true, false, now);
                    if self.policy.check_interval_ms == 0 {
                        Directive::Exit { code: 0 }
                    } else {
                        self.first_check = false;
                        Directive::Sleep { millis: self.policy.check_interval_ms }
                    }
                } else {
                    record(health, false, true, now);
                    Directive::Kill { method: self.policy.kill_method, code: 1 }
                }
            },
            Err(_) => {
                record(health, false, false, now);
                if self.policy.check_interval_ms == 0 {
                    Directive::Exit { code: 1 }
                } else {
                    self.first_check = false;
                    Directive::Sleep { millis: self.policy.check_interval_ms }
                }
            },
        }
    }
}

/// The shared record after the opening of a round.
pub open spec fn recorded_begin(record: Option<HealthStatus>) -> Option<HealthStatus> {
    match record {
        Some(record) => Some(record.beaten()),
        None => None,
    }
}

/// The shared record after a check: a success or a failure is written, and
/// after a refusal the supervisor is asked to end the guarded program.
pub open spec fn recorded_conclusion(record: Option<HealthStatus>, outcome: Outcome, now: i64)
    -> Option<HealthStatus> {
    match record {
        Some(record) => Some(
            match outcome {
                Outcome::Authorized { .. } => record.updated(true, now),
                Outcome::Denied => record.updated(false, now).kill_base_requested(),
                Outcome::Unreachable => record.updated(false, now),
            },
        ),
        None => None,
    }
}

fn record(health: &mut Option<HealthMonitor>, success: bool, kill_base: bool, now: i64)
    ensures
        (*final(health)) is Some <==> (*old(health)) is Some,
        record_of(*final(health)) == match record_of(*old(health)) {
            Some(record) => Some(
                if kill_base {
                    record.updated(success, now).kill_base_requested()
                } else {
                    record.updated(success, now)
                },
            ),
            None => None,
        },
{
    match *health {
        Some(monitor) => {
            let mut monitor = monitor;
            monitor.update(success, now);
            if kill_base {
                monitor.request_kill_base();
            }
            *health = Some(monitor);
        },
        None => {},
    }
}

/// The code to leave with after a kill that was to be followed by `code`:
/// `code` where the kill went well, 1 where it failed.
pub fn exit_after_kill(code: i32, ok: bool) -> (left: i32)
    ensures
        left == if ok {
            code
        } else {
            1
        },
{
    if ok {
        code
    } else {
        1
    }
}

/// What the synchronous strategy does once the check is over.
#[derive(Debug, Clone, Copy, PartialEq, Eq, Structural)]
pub enum SyncAction {
    /// Leave with 0: the loader goes on to the guarded program.
    Proceed,
    /// Remove the agent's own binary and settings, and leave with 1.
    SelfDestruct,
    /// Leave with 1: the loader stops.
    Abort,
}

impl SyncAction {
    /// The code the agent leaves with: 0 lets the loader go on, anything
    /// else stops it.
    pub open spec fn spec_exit_code(self) -> i32 {
        if self is Proceed {
            0
        } else {
            1
        }
    }

    /// The code the agent leaves with.
    #[verifier::when_used_as_spec(spec_exit_code)]
    pub fn exit_code(self) -> (code: i32)
        ensures
            code == self.spec_exit_code(),
    {
        match self {
            SyncAction::Proceed => 0,
            _ => 1,
        }
    }
}

/// What is done where the guarded program may not run: the agent removes
/// itself where it is set to, and else leaves.
pub open spec fn refusal(self_destruct: bool) -> SyncAction {
    if self_destruct {
        SyncAction::SelfDestruct
    } else {
        SyncAction::Abort
    }
}

/// The synchronous strategy: the guarded program runs only after an
/// authorization; a refusal and a check without judgement both stop it.
pub fn execute_sync(result: &Result<VerifyResponse, String>, self_destruct: bool) -> (action:
    SyncAction)
    ensures
        action == if outcome_of(*result) is Authorized {
            SyncAction::Proceed
        } else {
            refusal(self_destruct)
        },
        action.exit_code() == 0 <==> outcome_of(*result) is Authorized,
{
    let authorized = match result {
        Ok(response) => response.authorized,
        Err(_) => false,
    };
    if authorized {
        SyncAction::Proceed
    } else if self_destruct {
        SyncAction::SelfDestruct
    } else {
        SyncAction::Abort
    }
}

/// How far the check that runs beside the workload has come.
#[derive(Debug, Clone, Copy, PartialEq, Eq, Structural)]
pub enum Verification {
    /// No result yet.
    Pending,
    /// The server lets the machine run.
    Granted,
    /// The server refuses, or no judgement was had, or the check broke
    /// down.
    Refused,
}

/// What the host found of the workload it started.
#[derive(Debug, Clone, Copy, PartialEq, Eq, Structural)]
pub enum Workload {
    /// It runs.
    Running,
    /// It has ended, with this code where it left one.
    Exited { code: Option<i32> },
    /// It cannot be looked at.
    Lost,
}

/// What the asynchronous strategy does next.
#[derive(Debug, Clone, Copy, PartialEq, Eq, Structural)]
pub enum AsyncAction {
    /// Wait for the workload to end, and leave with its code, or with 0
    /// where it left none.
    Follow,
    /// End the workload; then remove the agent itself where `self_destruct`
    /// says so, and leave with 1.
    KillBase { self_destruct: bool },
    /// Look at the workload, and come back with what was found.
    Watch,
    /// Sleep, then look at the check again.
    Sleep { millis: u64 },
    /// Leave with `code`.
    Exit { code: i32 },
}

/// How the result of a check reads to the asynchronous strategy.
pub fn verdict(result: &Result<VerifyResponse, String>) -> (verification: Verification)
    ensures
        verification == if outcome_of(*result) is Authorized {
            Verification::Granted
        } else {
            Verification::Refused
        },
{
    match result {
        Ok(response) => if response.authorized {
            Verification::Granted
        } else {
            Verification::Refused
        },
        Err(_) => Verification::Refused,
    }
}

/// The asynchronous strategy with a workload of its own, on each look at
/// the check: a grant lets the workload run to its end; a refusal ends it,
/// and so does a check that is still pending `elapsed_ms` milliseconds
/// after it began, once that is more than the timeout. Else the workload is
/// looked at.
pub fn execute_async(verification: Verification, elapsed_ms: u64, self_destruct: bool) -> (action:
    AsyncAction)
    ensures
        action == match verification {
            Verification::Granted => AsyncAction::Follow,
            Verification::Refused => AsyncAction::KillBase { self_destruct },
            Verification::Pending => if elapsed_ms > VERIFICATION_TIMEOUT_MS {
                AsyncAction::KillBase { self_destruct }
            } else {
                AsyncAction::Watch
            },
        },
{
    match verification {
        Verification::Granted => AsyncAction::Follow,
        Verification::Refused => AsyncAction::KillBase { self_destruct },
        Verification::Pending => if elapsed_ms > VERIFICATION_TIMEOUT_MS {
            AsyncAction::KillBase { self_destruct }
        } else {
            AsyncAction::Watch
        },
    }
}

/// The asynchronous strategy after a look at the workload while the check
/// is pending: a workload that has ended ends the agent with its code, or
/// with 1 where it left none; one that cannot be looked at ends the agent
/// with 1; one that runs is left to run until the next look.
pub fn watch_base(workload: Workload) -> (action: AsyncAction)
    ensures
        action == match workload {
            Workload::Running => AsyncAction::Sleep { millis: POLL_MS },
            Workload::Exited { code: Some(code) } => AsyncAction::Exit { code },
            Workload::Exited { code: None } => AsyncAction::Exit { code: 1 },
            Workload::Lost => AsyncAction::Exit { code: 1 },
        },
{
    match workload {
        Workload::Running => AsyncAction::Sleep { millis: POLL_MS },
        Workload::Exited { code } => match code {
            Some(code) => AsyncAction::Exit { code },
            None => AsyncAction::Exit { code: 1 },
        },
        Workload::Lost => AsyncAction::Exit { code: 1 },
    }
}

/// The asynchronous strategy that hands control back to its loader at once:
/// whether, the check being over, the loader's process tree is to be ended.
/// It is unless the server lets the machine run.
pub fn kills_loader(result: &Result<VerifyResponse, String>) -> (kill: bool)
    ensures
        kill == !(outcome_of(*result) is Authorized),
{
    match result {
        Ok(response) => !response.authorized,
        Err(_) => true,
    }
}

/// With one check asked for, an authorization that leaves the interval as
/// it is ends the loop with success: nothing is slept, nothing repeated.
pub proof fn lemma_single_check_exits(controller: Controller, method: Option<Seq<char>>)
    requires
        controller.policy.check_interval_ms == 0,
    ensures
        controller.concluded(Outcome::Authorized { interval: None, method }).1
            == (Directive::Exit { code: 0 }),
        controller.concluded(Outcome::Authorized { interval: Some(0), method }).1
            == (Directive::Exit { code: 0 }),
{
}

/// A check without judgement never kills and never changes the policy;
/// with an interval in force the loop sleeps for it and goes on.
pub proof fn lemma_network_error_never_kills(controller: Controller)
    ensures
        !(controller.concluded(Outcome::Unreachable).1 is Kill),
        controller.concluded(Outcome::Unreachable).0.policy == controller.policy,
        controller.policy.check_interval_ms > 0 ==> controller.concluded(Outcome::Unreachable).1
            == (Directive::Sleep { millis: controller.policy.check_interval_ms }),
{
}

/// Only the first check of a loop is marked as the first: whenever a round
/// ends in a sleep, the checks after it are not.
pub proof fn lemma_first_check_only_once(controller: Controller, outcome: Outcome)
    requires
        controller.concluded(outcome).1 is Sleep,
    ensures
        !controller.concluded(outcome).0.first_check,
{
}

/// The loop ends a round with success only on an authorization.
pub proof fn lemma_success_only_when_authorized(controller: Controller, outcome: Outcome)
    requires
        controller.concluded(outcome).1 == (Directive::Exit { code: 0 }),
    ensures
        outcome is Authorized,
        controller.concluded(outcome).0.policy.check_interval_ms == 0,
{
}

/// The kill engine is called on a refusal, or at the supervisor's request,
/// and on nothing else.
pub proof fn lemma_kill_only_on_refusal_or_request(
    controller: Controller,
    record: Option<HealthStatus>,
    outcome: Outcome,
)
    ensures
        controller.concluded(outcome).1 is Kill <==> outcome is Denied,
        controller.begun(record) is Kill <==> (record matches Some(found)
            && found.kill_requested()),
{
}

/// The directives that close the rounds of a loop whose checks come to
/// `outcomes`, one after the other. The loop goes on after a sleep only.
pub open spec fn closings(controller: Controller, outcomes: Seq<Outcome>) -> Seq<Directive>
    decreases outcomes.len(),
{
    if outcomes.len() == 0 {
        Seq::empty()
    } else {
        let (next, directive) = controller.concluded(outcomes[0]);
        if directive is Sleep {
            seq![directive] + closings(next, outcomes.drop_first())
        } else {
            seq![directive]
        }
    }
}

/// A loop that meets no refusal never calls the kill engine, however
/// many of its checks are without judgement.
pub proof fn lemma_no_refusal_no_kill(controller: Controller, outcomes: Seq<Outcome>, round: int)
    requires
        forall|i: int| 0 <= i < outcomes.len() ==> !(#[trigger] outcomes[i] is Denied),
        0 <= round < closings(controller, outcomes).len(),
    ensures
        !(closings(controller, outcomes)[round] is Kill),
    decreases outcomes.len(),
{
    let (next, directive) = controller.concluded(outcomes[0]);
    assert(!(outcomes[0] is Denied));
    if round > 0 {
        let rest = outcomes.drop_first();
        assert forall|i: int| 0 <= i < rest.len() implies !(#[trigger] rest[i] is Denied) by {
            assert(rest[i] == outcomes[i + 1]);
        }
        lemma_no_refusal_no_kill(next, rest, round - 1);
    }
}

/// With an interval in force, two checks without judgement and then an
/// authorization that sets nothing make three rounds that each end in a
/// sleep of that interval; where the authorization asks for one check
/// only, the third round ends the loop with success instead.
pub proof fn lemma_errors_then_authorized(controller: Controller, single: bool)
    requires
        controller.policy.check_interval_ms > 0,
    ensures
        ({
            let millis = controller.policy.check_interval_ms;
            let interval = if single {
                Some(0u64)
            } else {
                None
            };
            let last = if single {
                Directive::Exit { code: 0 }
            } else {
                Directive::Sleep { millis }
            };
            closings(
                controller,
                seq![
                    Outcome::Unreachable,
                    Outcome::Unreachable,
                    Outcome::Authorized { interval, method: None },
                ],
            ) == seq![Directive::Sleep { millis }, Directive::Sleep { millis }, last]
        }),
{
    let millis = controller.policy.check_interval_ms;
    let interval = if single {
        Some(0u64)
    } else {
        None
    };
    let third = Outcome::Authorized { interval, method: None };
    let o0 = seq![Outcome::Unreachable, Outcome::Unreachable, third];
    let o1 = o0.drop_first();
    let o2 = o1.drop_first();
    let o3 = o2.drop_first();
    let c1 = controller.concluded(o0[0]).0;
    let c2 = c1.concluded(o1[0]).0;
    let c3 = c2.concluded(o2[0]).0;
    assert(o1[0] == Outcome::Unreachable && o2[0] == third && o3.len() == 0);
    assert(closings(c3, o3) =~= Seq::empty());
    let last = c2.concluded(third).1;
    assert(closings(c2, o2) =~= seq![last]);
    assert(closings(c1, o1) =~= seq![Directive::Sleep { millis }, last]);
    assert(closings(controller, o0) =~= seq![
        Directive::Sleep { millis },
        Directive::Sleep { millis },
        last,
    ]);
}

/// An interval that the server sets is the one slept next, and the one in
/// force from then on, whatever was in force before.
pub proof fn lemma_override_rules_next_sleep(
    controller: Controller,
    millis: u64,
    method: Option<Seq<char>>,
)
    requires
        millis > 0,
    ensures
        controller.concluded(Outcome::Authorized { interval: Some(millis), method }).1
            == (Directive::Sleep { millis }),
        controller.concluded(
            Outcome::Authorized { interval: Some(millis), method },
        ).0.policy.check_interval_ms == millis,
{
}

/// A channel that is absent and one with no record behind it are one to
/// the loop: a round opens on the check and writes nothing, and closes as
/// it would on any record, writing nothing.
pub proof fn lemma_absent_channel_is_inert(
    controller: Controller,
    monitor: HealthMonitor,
    record: Option<HealthStatus>,
    outcome: Outcome,
    now: i64,
)
    requires
        monitor@ is None,
    ensures
        record_of(Some(monitor)) == record_of(None),
        controller.begun(record_of(None)) == (Directive::Verify {
            first_check: controller.first_check,
        }),
        recorded_begin(record_of(None)) is None,
        recorded_conclusion(record_of(None), outcome, now) is None,
{
}

} // verus!
