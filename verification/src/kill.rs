//! The kill engine: what is done to the guarded program's process and
//! binary under each kill method. The process is always brought to an end
//! first; only once it has ended is its binary touched.

use crate::config::KillMethod;
use crate::destruct::{Scheme, Wipe};
use crate::process::{Escalation, Report, Signal, Step, Terminate, GRACE_MS};
use vstd::prelude::*;

verus! {

/// Milliseconds left to an ended process to let go of its binary.
pub const SETTLE_MS: u64 = 200;

/// What the search for a process's binary came to.
#[derive(Debug, Clone)]
pub enum BinaryPath {
    /// The binary lies here.
    Found(String),
    /// The process, or its binary, is not there any more.
    Missing,
    /// The path could not be read.
    Unreadable,
}

/// What the search for a process's binary came to, without the path.
#[derive(Debug, Clone, Copy, PartialEq, Eq, Structural)]
pub enum Lookup {
    Found,
    Missing,
    Unreadable,
}

impl BinaryPath {
    /// What the search came to.
    pub open spec fn spec_lookup(&self) -> Lookup {
        match self {
            BinaryPath::Found(_) => Lookup::Found,
            BinaryPath::Missing => Lookup::Missing,
            BinaryPath::Unreadable => Lookup::Unreadable,
        }
    }

    /// What the search came to.
    #[verifier::when_used_as_spec(spec_lookup)]
    pub fn lookup(&self) -> (found: Lookup)
        ensures
            found == self.spec_lookup(),
    {
        match self {
            BinaryPath::Found(_) => Lookup::Found,
            BinaryPath::Missing => Lookup::Missing,
            BinaryPath::Unreadable => Lookup::Unreadable,
        }
    }
}

/// Whom a kill is aimed at: a process, and the binary it is running. Both
/// are looked up when the kill begins, never before.
#[derive(Debug, Clone)]
pub struct KillTarget {
    pub process_id: u32,
    pub binary_path: BinaryPath,
}

/// Which part of the work is under way.
#[derive(Debug, Clone, Copy, PartialEq, Eq, Structural)]
pub enum Phase {
    /// The process is being brought to an end.
    Stopping,
    /// The process has ended and is given time to let go of its binary.
    Settling,
    /// The binary is being overwritten or removed.
    Removing,
    /// Nothing is left to do.
    Finished,
}

/// One kill, as far as it has come.
#[derive(Debug, Clone, Copy, PartialEq, Eq, Structural)]
pub struct KillEngine {
    /// The method asked for.
    pub method: KillMethod,
    /// What the search for the binary came to.
    pub path: Lookup,
    /// The part of the work under way.
    pub phase: Phase,
    /// Where the ending of the process stands.
    pub stop: Terminate,
    /// Where the deletion of the binary stands.
    pub wipe: Wipe,
    /// Whether the kill went well, once it is over.
    pub ok: bool,
}

/// How the binary is deleted under `method`: in three passes of patterns
/// under `Shred`, without a pass else.
pub open spec fn scheme_of(method: KillMethod) -> Scheme {
    if method is Shred {
        Scheme::Patterns
    } else {
        Scheme::Plain
    }
}

impl KillEngine {
    /// Whether the state is one that the steps lead to.
    pub open spec fn wf(self) -> bool {
        &&& self.wipe.wf()
        &&& self.wipe.scheme == scheme_of(self.method)
        &&& !self.wipe.with_settings
        &&& self.phase is Stopping || self.phase is Settling ==> self.wipe.stage is Ready
        &&& self.phase is Stopping <==> !self.stop.over()
        &&& self.phase is Settling || self.phase is Removing ==> self.stop.ended()
            && self.deletes()
    }

    /// Whether the binary is deleted once the process has ended: the method
    /// asks for it, and the binary was found.
    pub open spec fn deletes(self) -> bool {
        self.path is Found && !(self.method is Stop)
    }

    /// Whether the process has ended.
    pub open spec fn stopped(self) -> bool {
        self.stop.ended()
    }

    /// What a kill comes to that ends with the ending of the process: under
    /// `Stop`, whether the process has ended without a signal failing,
    /// whatever is known of the binary. Under `Delete` and `Shred` the same
    /// where the binary is not there any more, for then nothing is left
    /// to remove; but a failure where its path could not be read.
    pub open spec fn outcome(self, stop: Terminate) -> bool {
        stop.ended() && stop.clean && (self.method is Stop || !(self.path is Unreadable))
    }

    /// The state after `report`, and the step to take from there.
    ///
    /// The process is ended first, by the graceful signal, the grace period,
    /// a probe and, where the probe finds it alive, the forceful signal.
    /// Where the forceful signal fails the process may live on: the kill
    /// is over, it has failed, and the binary is left alone. Under `Stop`,
    /// and where the binary was not found, the kill is over once the process
    /// has ended. Under `Delete` and `Shred` the ended process is left a
    /// moment to let go of its binary, which is then removed, under `Shred`
    /// after three passes of patterns. A graceful signal that fails shows
    /// in the outcome but holds nothing up, for the probe tells whether the
    /// process lives; a pass that fails does not end the work either. The
    /// last step tells whether the kill went well: the process has ended,
    /// no signal failed, and the binary is gone where it was to be
    /// removed.
    pub open spec fn after(self, report: Report) -> (KillEngine, Step) {
        match self.phase {
            Phase::Stopping => {
                let (stop, step) = self.stop.after(report);
                if !stop.over() {
                    (KillEngine { stop, ..self }, step)
                } else if stop.ended() && self.deletes() {
                    (
                        KillEngine { stop, phase: Phase::Settling, ..self },
                        Step::Wait { millis: SETTLE_MS },
                    )
                } else {
                    let ok = self.outcome(stop);
                    (KillEngine { stop, ok, phase: Phase::Finished, ..self }, Step::Finish { ok })
                }
            },
            Phase::Settling | Phase::Removing => {
                let (wipe, step) = self.wipe.after(report);
                match step {
                    Step::Finish { ok } => {
                        let ok = ok && self.stop.clean;
                        (
                            KillEngine { wipe, ok, phase: Phase::Finished, ..self },
                            Step::Finish { ok },
                        )
                    },
                    _ => (KillEngine { wipe, phase: Phase::Removing, ..self }, step),
                }
            },
            Phase::Finished => (self, Step::Finish { ok: self.ok }),
        }
    }

    /// A kill that has not begun.
    pub open spec fn fresh(method: KillMethod, path: Lookup) -> KillEngine {
        KillEngine {
            method,
            path,
            phase: Phase::Stopping,
            stop: Terminate::fresh(),
            wipe: Wipe::fresh(scheme_of(method), false),
            ok: false,
        }
    }

    /// A kill of `target` by `method` that has not begun.
    pub fn new(method: KillMethod, target: &KillTarget) -> (engine: KillEngine)
        ensures
            engine.wf(),
            engine == KillEngine::fresh(method, target.binary_path.lookup()),
    {
        let scheme = match method {
            KillMethod::Shred => Scheme::Patterns,
            _ => Scheme::Plain,
        };
        KillEngine {
            method,
            path: target.binary_path.lookup(),
            phase: Phase::Stopping,
            stop: Terminate::new(),
            wipe: Wipe::new(scheme),
            ok: false,
        }
    }

    fn settle_or_finish(&mut self) -> (step: Step)
        requires
            old(self).stop.over(),
        ensures
            (*final(self), step) == if old(self).stop.ended() && old(self).deletes() {
                (
                    KillEngine { phase: Phase::Settling, ..*old(self) },
                    Step::Wait { millis: SETTLE_MS },
                )
            } else {
                let ok = old(self).outcome(old(self).stop);
                (KillEngine { ok, phase: Phase::Finished, ..*old(self) }, Step::Finish { ok })
            },
    {
        let ended = match self.stop.stage {
            Escalation::Ended => true,
            _ => false,
        };
        let stop_only = match self.method {
            KillMethod::Stop => true,
            _ => false,
        };
        match self.path {
            Lookup::Found => {
                if ended && !stop_only {
                    self.phase = Phase::Settling;
                    return Step::Wait { millis: SETTLE_MS };
                }
                self.ok = ended && self.stop.clean;
            },
            Lookup::Missing => {
                self.ok = ended && self.stop.clean;
            },
            Lookup::Unreadable => {
                self.ok = ended && self.stop.clean && stop_only;
            },
        }
        self.phase = Phase::Finished;
        Step::Finish { ok: self.ok }
    }

    /// Takes the report on the step before and gives the next step. The
    /// first call's report is not read.
    pub fn next(&mut self, report: Report) -> (step: Step)
        ensures
            (*final(self), step) == old(self).after(report),
            old(self).wf() ==> final(self).wf(),
            old(self).wf() && step.touches_file() ==> old(self).stopped(),
    {
        match self.phase {
            Phase::Stopping => {
                let step = self.stop.next(report);
                match self.stop.stage {
                    Escalation::Ended | Escalation::Survived => {
                        self.settle_or_finish()
                    },
                    _ => step,
                }
            },
            Phase::Settling | Phase::Removing => {
                let step = self.wipe.next(report);
                match step {
                    Step::Finish { ok } => {
                        self.ok = ok && self.stop.clean;
                        self.phase = Phase::Finished;
                        Step::Finish { ok: self.ok }
                    },
                    _ => {
                        self.phase = Phase::Removing;
                        step
                    },
                }
            },
            Phase::Finished => Step::Finish { ok: self.ok },
        }
    }
}

/// The steps given in answer to `reports`, one after the other, from the
/// state `engine` on.
pub open spec fn steps(engine: KillEngine, reports: Seq<Report>) -> Seq<Step>
    decreases reports.len(),
{
    if reports.len() == 0 {
        Seq::empty()
    } else {
        let (next, step) = engine.after(reports[0]);
        seq![step] + steps(next, reports.drop_first())
    }
}

proof fn lemma_steps_at(engine: KillEngine, reports: Seq<Report>, i: int)
    requires
        0 <= i < reports.len(),
    ensures
        steps(engine, reports).len() == reports.len(),
        steps(engine, reports)[i] == if i == 0 {
            engine.after(reports[0]).1
        } else {
            steps(engine.after(reports[0]).0, reports.drop_first())[i - 1]
        },
    decreases reports.len(),
{
    let next = engine.after(reports[0]).0;
    let rest = reports.drop_first();
    if rest.len() > 0 {
        lemma_steps_at(next, rest, 0);
    }
    assert(steps(next, rest).len() == rest.len());
}

/// A kill that is over, or that is not to delete, never touches the
/// binary, whatever is reported from then on.
pub proof fn lemma_spared(engine: KillEngine, reports: Seq<Report>, i: int)
    requires
        engine.wf(),
        !engine.deletes() || engine.phase is Finished,
        0 <= i < reports.len(),
    ensures
        !steps(engine, reports)[i].touches_file(),
    decreases reports.len(),
{
    lemma_steps_at(engine, reports, i);
    if i > 0 {
        lemma_spared(engine.after(reports[0]).0, reports.drop_first(), i - 1);
    }
}

/// Where the forceful signal does not go through, the kill is over at
/// once and has failed; the binary is not read, written or removed, then
/// or later, under any method.
pub proof fn lemma_failed_kill_spares_file(engine: KillEngine, reports: Seq<Report>, i: int)
    requires
        engine.wf(),
        engine.phase is Stopping,
        engine.stop.stage is Forced,
        0 <= i < reports.len(),
        !reports[0].delivered(),
    ensures
        steps(engine, reports)[0] == (Step::Finish { ok: false }),
        !steps(engine, reports)[i].touches_file(),
        !engine.after(reports[0]).0.stopped(),
{
    lemma_steps_at(engine, reports, 0);
    lemma_steps_at(engine, reports, i);
    if i > 0 {
        lemma_spared(engine.after(reports[0]).0, reports.drop_first(), i - 1);
    }
}

/// In every kill the binary is touched only after the whole of the
/// termination: the graceful signal comes first, then the grace period and
/// the probe; a probe that finds the process alive is answered by the
/// forceful signal, which must have reached the process or found it gone;
/// the ended process is left to settle; and no step before these reads,
/// writes or removes the binary, whatever the host reports.
pub proof fn lemma_termination_precedes_file(
    method: KillMethod,
    path: Lookup,
    reports: Seq<Report>,
    at: int,
)
    requires
        0 <= at < reports.len(),
        steps(KillEngine::fresh(method, path), reports)[at].touches_file(),
    ensures
        at >= 4,
        path is Found,
        !(method is Stop),
        steps(KillEngine::fresh(method, path), reports)[0] == (Step::Signal {
            signal: Signal::Terminate,
            group: false,
        }),
        steps(KillEngine::fresh(method, path), reports)[1] == (Step::Wait { millis: GRACE_MS }),
        steps(KillEngine::fresh(method, path), reports)[2] == Step::Probe,
        reports[3] is Alive ==> at >= 5 && reports[4].delivered() && steps(
            KillEngine::fresh(method, path),
            reports,
        )[3] == (Step::Signal { signal: Signal::Kill, group: false }) && steps(
            KillEngine::fresh(method, path),
            reports,
        )[4] == (Step::Wait { millis: SETTLE_MS }),
        !(reports[3] is Alive) ==> steps(KillEngine::fresh(method, path), reports)[3] == (
        Step::Wait { millis: SETTLE_MS }),
{
    let e0 = KillEngine::fresh(method, path);
    if !e0.deletes() {
        lemma_spared(e0, reports, at);
    }
    lemma_steps_at(e0, reports, 0);
    lemma_steps_at(e0, reports, at);
    let e1 = e0.after(reports[0]).0;
    let r1 = reports.drop_first();
    if at >= 1 {
        lemma_steps_at(e0, reports, 1);
        lemma_steps_at(e1, r1, 0);
        lemma_steps_at(e1, r1, at - 1);
        let e2 = e1.after(r1[0]).0;
        let r2 = r1.drop_first();
        if at >= 2 {
            lemma_steps_at(e0, reports, 2);
            lemma_steps_at(e1, r1, 1);
            lemma_steps_at(e2, r2, 0);
            lemma_steps_at(e2, r2, at - 2);
            let e3 = e2.after(r2[0]).0;
            let r3 = r2.drop_first();
            if at >= 3 {
                lemma_steps_at(e0, reports, 3);
                lemma_steps_at(e1, r1, 2);
                lemma_steps_at(e2, r2, 1);
                lemma_steps_at(e3, r3, 0);
                lemma_steps_at(e3, r3, at - 3);
                assert(r3[0] == reports[3]);
                let e4 = e3.after(r3[0]).0;
                let r4 = r3.drop_first();
                if at >= 4 {
                    lemma_steps_at(e0, reports, 4);
                    lemma_steps_at(e1, r1, 3);
                    lemma_steps_at(e2, r2, 2);
                    lemma_steps_at(e3, r3, 1);
                    lemma_steps_at(e4, r4, 0);
                    lemma_steps_at(e4, r4, at - 4);
                    assert(r4[0] == reports[4]);
                    if reports[3] is Alive && !reports[4].delivered() {
                        lemma_failed_kill_spares_file(e4, r4, at - 4);
                    }
                }
            }
        }
    }
}

/// The binary is read, written or removed only once the process has
/// ended; and a process that has ended stays so.
pub proof fn lemma_file_after_termination(engine: KillEngine, report: Report)
    requires
        engine.wf(),
    ensures
        engine.after(report).1.touches_file() ==> engine.stopped(),
        engine.stopped() ==> engine.after(report).0.stopped(),
{
}

/// A probe that finds the process alive is answered by the forceful signal,
/// before anything else.
pub proof fn lemma_alive_is_forced(engine: KillEngine)
    requires
        engine.wf(),
        engine.stop.stage is Probed,
    ensures
        engine.after(Report::Alive).1 == (Step::Signal { signal: Signal::Kill, group: false }),
        engine.after(Report::Alive).0.stop.stage is Forced,
        !engine.after(Report::Alive).0.stopped(),
{
}

/// Under `Stop` the binary is never touched, and what is known of its path
/// changes nothing: the kill went well exactly if the process has ended
/// without a signal failing.
pub proof fn lemma_stop_only_terminates(engine: KillEngine, report: Report)
    requires
        engine.wf(),
        engine.method is Stop,
    ensures
        !engine.after(report).1.touches_file(),
        engine.after(report).1 == (KillEngine { path: Lookup::Found, ..engine }).after(report).1,
        engine.phase is Stopping && engine.after(report).0.phase is Finished ==> engine.after(
            report,
        ).1 == (Step::Finish {
            ok: engine.after(report).0.stop.ended() && engine.after(report).0.stop.clean,
        }),
{
}

/// A binary that is not there any more is no failure: once the process has
/// ended, the kill is over without a step on the binary, and it went well
/// if no signal failed. A path that could not be read is a failure under
/// `Delete` and `Shred`.
pub proof fn lemma_missing_binary_is_no_failure(engine: KillEngine, report: Report)
    requires
        engine.wf(),
        engine.phase is Stopping,
        !(engine.path is Found),
        engine.after(report).0.stop.ended(),
    ensures
        engine.path is Missing ==> engine.after(report).1 == (Step::Finish {
            ok: engine.after(report).0.stop.clean,
        }),
        engine.path is Unreadable && !(engine.method is Stop) ==> engine.after(report).1 == (
        Step::Finish { ok: false }),
        engine.after(report).0.phase is Finished,
{
}

} // verus!
