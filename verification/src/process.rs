//! Process control: the steps by which a process is brought to an end, and
//! the places where a process is looked up. The steps are decided here and
//! carried out by the host, which reports how each one went.

use crate::text::{decimal, u64_to_string};
use vstd::prelude::*;
use vstd::string::StringExecFns;

verus! {

/// Milliseconds a single process is given to end by itself.
pub const GRACE_MS: u64 = 100;

/// Milliseconds a process group is given to end by itself.
pub const TREE_GRACE_MS: u64 = 1000;

/// Milliseconds a started workload is given to end by itself.
pub const WORKLOAD_GRACE_MS: u64 = 2000;

/// A request to end: one that the process may answer, or one it cannot
/// refuse.
#[derive(Debug, Clone, Copy, PartialEq, Eq, Structural)]
pub enum Signal {
    Terminate,
    Kill,
}

/// How a fill is made for one pass over a file.
#[derive(Debug, Clone, Copy, PartialEq, Eq, Structural)]
pub enum Fill {
    /// Bytes drawn at random.
    Random,
    /// One byte, repeated.
    Pattern(u8),
}

/// One thing for the host to do.
#[derive(Debug, Clone, Copy, PartialEq, Eq, Structural)]
pub enum Step {
    /// Send `signal` to the target process, or to its whole group.
    Signal { signal: Signal, group: bool },
    /// Let `millis` milliseconds pass.
    Wait { millis: u64 },
    /// Find out whether the target process is still there.
    Probe,
    /// Collect the ended workload.
    Reap,
    /// Read the length of the target file.
    Measure,
    /// Open the target file for writing.
    Open,
    /// Go back to the start of the file.
    Rewind,
    /// Write `len` bytes of `fill` at the current position.
    Write { len: usize, fill: Fill },
    /// Have what was written reach storage.
    Sync,
    /// Remove the file.
    Unlink,
    /// Remove the settings file that lies beside the file.
    UnlinkSettings,
    /// Nothing is left to do; `ok` tells whether all went well.
    Finish { ok: bool },
}

impl Step {
    /// Whether the step reads or changes the target file.
    pub open spec fn touches_file(self) -> bool {
        self is Measure || self is Open || self is Rewind || self is Write || self is Sync
            || self is Unlink || self is UnlinkSettings
    }
}

/// How the step before went, as the host saw it.
#[derive(Debug, Clone, Copy, PartialEq, Eq, Structural)]
pub enum Report {
    /// The step was carried out.
    Done,
    /// The step failed.
    Failed,
    /// What the step was to act on is not there any more.
    Missing,
    /// The probe found the process alive.
    Alive,
    /// The measure found a file of this many bytes.
    Size(u64),
}

impl Report {
    /// Whether a signal reported so has done its work: it reached its
    /// process, or found none to reach.
    pub open spec fn delivered(self) -> bool {
        self is Done || self is Missing
    }

    /// Whether a signal reported so has done its work.
    #[verifier::when_used_as_spec(delivered)]
    pub fn is_delivered(self) -> (delivered: bool)
        ensures
            delivered == self.delivered(),
    {
        match self {
            Report::Done | Report::Missing => true,
            _ => false,
        }
    }

    /// Whether the step reported so failed.
    pub open spec fn failed(self) -> bool {
        self is Failed
    }

    /// Whether the step reported so failed.
    #[verifier::when_used_as_spec(failed)]
    pub fn is_failed(self) -> (failed: bool)
        ensures
            failed == self.failed(),
    {
        match self {
            Report::Failed => true,
            _ => false,
        }
    }
}

/// How far the ending of a process has come.
#[derive(Debug, Clone, Copy, PartialEq, Eq, Structural)]
pub enum Escalation {
    /// Nothing was done yet.
    Ready,
    /// The graceful signal was sent.
    Signalled,
    /// The grace period is over.
    Waited,
    /// The process was looked for.
    Probed,
    /// The forceful signal was sent.
    Forced,
    /// The process has ended.
    Ended,
    /// The forceful signal did not go through: the process may live on.
    Survived,
}

/// The ending of one process, as far as it has come.
#[derive(Debug, Clone, Copy, PartialEq, Eq, Structural)]
pub struct Terminate {
    /// How far the ending has come.
    pub stage: Escalation,
    /// Whether no signal failed so far.
    pub clean: bool,
}

impl Terminate {
    /// An ending that has not begun.
    pub open spec fn fresh() -> Terminate {
        Terminate { stage: Escalation::Ready, clean: true }
    }

    /// An ending that has not begun.
    pub fn new() -> (start: Terminate)
        ensures
            start == Terminate::fresh(),
    {
        Terminate { stage: Escalation::Ready, clean: true }
    }

    /// Whether the process has ended: it was looked for after the grace
    /// period and not found alive, or the forceful signal went through.
    pub open spec fn ended(self) -> bool {
        self.stage is Ended
    }

    /// Whether the ending is over, the process ended or not.
    pub open spec fn over(self) -> bool {
        self.stage is Ended || self.stage is Survived
    }

    /// The state after `report`, and the step to take from there: the
    /// graceful signal, the grace period, a probe, and the forceful signal
    /// where the probe found the process alive. A graceful signal that
    /// fails does not stop the sequence, but the ending is no longer
    /// clean. A forceful signal that neither reaches the process nor
    /// finds it gone leaves the process alive for all that is known: the
    /// ending is over, and has failed. The last step tells whether the
    /// process has ended without a signal failing.
    pub open spec fn after(self, report: Report) -> (Terminate, Step) {
        match self.stage {
            Escalation::Ready => (
                Terminate { stage: Escalation::Signalled, ..self },
                Step::Signal { signal: Signal::Terminate, group: false },
            ),
            Escalation::Signalled => (
                Terminate { stage: Escalation::Waited, clean: self.clean && !report.failed() },
                Step::Wait { millis: GRACE_MS },
            ),
            Escalation::Waited => (Terminate { stage: Escalation::Probed, ..self }, Step::Probe),
            Escalation::Probed => if report is Alive {
                (
                    Terminate { stage: Escalation::Forced, ..self },
                    Step::Signal { signal: Signal::Kill, group: false },
                )
            } else {
                (Terminate { stage: Escalation::Ended, ..self }, Step::Finish { ok: self.clean })
            },
            Escalation::Forced => if report.delivered() {
                (Terminate { stage: Escalation::Ended, ..self }, Step::Finish { ok: self.clean })
            } else {
                (
                    Terminate { stage: Escalation::Survived, clean: false },
                    Step::Finish { ok: false },
                )
            },
            Escalation::Ended => (self, Step::Finish { ok: self.clean }),
            Escalation::Survived => (self, Step::Finish { ok: false }),
        }
    }

    /// Takes the report on the step before and gives the next step. The
    /// first call's report is not read.
    pub fn next(&mut self, report: Report) -> (step: Step)
        ensures
            (*final(self), step) == old(self).after(report),
    {
        match self.stage {
            Escalation::Ready => {
                self.stage = Escalation::Signalled;
                Step::Signal { signal: Signal::Terminate, group: false }
            },
            Escalation::Signalled => {
                self.stage = Escalation::Waited;
                self.clean = self.clean && !report.is_failed();
                Step::Wait { millis: GRACE_MS }
            },
            Escalation::Waited => {
                self.stage = Escalation::Probed;
                Step::Probe
            },
            Escalation::Probed => match report {
                Report::Alive => {
                    self.stage = Escalation::Forced;
                    Step::Signal { signal: Signal::Kill, group: false }
                },
                _ => {
                    self.stage = Escalation::Ended;
                    Step::Finish { ok: self.clean }
                },
            },
            Escalation::Forced => {
                if report.is_delivered() {
                    self.stage = Escalation::Ended;
                    Step::Finish { ok: self.clean }
                } else {
                    self.stage = Escalation::Survived;
                    self.clean = false;
                    Step::Finish { ok: false }
                }
            },
            Escalation::Ended => Step::Finish { ok: self.clean },
            Escalation::Survived => Step::Finish { ok: false },
        }
    }
}

/// The graceful signal always comes first, and the forceful one only after
/// the grace period and a probe that found the process alive.
pub proof fn lemma_two_phases(machine: Terminate, report: Report)
    ensures
        machine.after(report).1 == (Step::Signal { signal: Signal::Kill, group: false })
            <==> machine.stage is Probed && report is Alive,
        machine.stage is Ready ==> machine.after(report).1 == (Step::Signal {
            signal: Signal::Terminate,
            group: false,
        }),
{
}

/// The process counts as ended in two cases only: the probe did not find it
/// alive, or the forceful signal reached it or found it gone. A forceful
/// signal that failed never counts.
pub proof fn lemma_ended_means_ended(machine: Terminate, report: Report)
    requires
        !machine.ended(),
        machine.after(report).0.ended(),
    ensures
        (machine.stage is Probed && !(report is Alive)) || (machine.stage is Forced
            && report.delivered()),
        machine.after(report).1 == (Step::Finish { ok: machine.clean }),
{
}

/// How far the ending of a process group has come.
#[derive(Debug, Clone, Copy, PartialEq, Eq, Structural)]
pub enum TreeStage {
    /// Nothing was done yet.
    Ready,
    /// The graceful signal was sent to the group.
    Signalled,
    /// The grace period is over.
    Waited,
    /// The forceful signal was sent to the group.
    GroupForced,
    /// The forceful signal was sent to the process itself.
    Forced,
    /// Nothing is left to do.
    Over,
}

/// The ending of a process group, as far as it has come.
#[derive(Debug, Clone, Copy, PartialEq, Eq, Structural)]
pub struct TerminateTree {
    /// How far the ending has come.
    pub stage: TreeStage,
    /// Whether no signal failed so far.
    pub clean: bool,
}

impl TerminateTree {
    /// An ending that has not begun.
    pub open spec fn fresh() -> TerminateTree {
        TerminateTree { stage: TreeStage::Ready, clean: true }
    }

    /// The ending of a group that has not begun.
    pub fn new() -> (start: TerminateTree)
        ensures
            start == TerminateTree::fresh(),
    {
        TerminateTree { stage: TreeStage::Ready, clean: true }
    }

    /// The state after `report`, and the step to take from there: the
    /// graceful signal to the group, the longer grace period, then the
    /// forceful signal to the group and to the process itself, which may
    /// have left the group. No failure stops the sequence; the last step
    /// tells whether the graceful signal did not fail and both forceful
    /// signals reached their aim or found it gone.
    pub open spec fn after(self, report: Report) -> (TerminateTree, Step) {
        match self.stage {
            TreeStage::Ready => (
                TerminateTree { stage: TreeStage::Signalled, ..self },
                Step::Signal { signal: Signal::Terminate, group: true },
            ),
            TreeStage::Signalled => (
                TerminateTree { stage: TreeStage::Waited, clean: self.clean && !report.failed() },
                Step::Wait { millis: TREE_GRACE_MS },
            ),
            TreeStage::Waited => (
                TerminateTree { stage: TreeStage::GroupForced, ..self },
                Step::Signal { signal: Signal::Kill, group: true },
            ),
            TreeStage::GroupForced => (
                TerminateTree {
                    stage: TreeStage::Forced,
                    clean: self.clean && report.delivered(),
                },
                Step::Signal { signal: Signal::Kill, group: false },
            ),
            TreeStage::Forced => (
                TerminateTree { stage: TreeStage::Over, clean: self.clean && report.delivered() },
                Step::Finish { ok: self.clean && report.delivered() },
            ),
            TreeStage::Over => (self, Step::Finish { ok: self.clean }),
        }
    }

    /// Takes the report on the step before and gives the next step. The
    /// first call's report is not read.
    pub fn next(&mut self, report: Report) -> (step: Step)
        ensures
            (*final(self), step) == old(self).after(report),
    {
        match self.stage {
            TreeStage::Ready => {
                self.stage = TreeStage::Signalled;
                Step::Signal { signal: Signal::Terminate, group: true }
            },
            TreeStage::Signalled => {
                self.stage = TreeStage::Waited;
                self.clean = self.clean && !report.is_failed();
                Step::Wait { millis: TREE_GRACE_MS }
            },
            TreeStage::Waited => {
                self.stage = TreeStage::GroupForced;
                Step::Signal { signal: Signal::Kill, group: true }
            },
            TreeStage::GroupForced => {
                self.stage = TreeStage::Forced;
                self.clean = self.clean && report.is_delivered();
                Step::Signal { signal: Signal::Kill, group: false }
            },
            TreeStage::Forced => {
                self.stage = TreeStage::Over;
                self.clean = self.clean && report.is_delivered();
                Step::Finish { ok: self.clean }
            },
            TreeStage::Over => Step::Finish { ok: self.clean },
        }
    }
}

/// How far the ending of a workload has come.
#[derive(Debug, Clone, Copy, PartialEq, Eq, Structural)]
pub enum BaseStage {
    /// Nothing was done yet.
    Ready,
    /// The graceful signal was sent.
    Signalled,
    /// The grace period is over.
    Waited,
    /// The forceful signal was sent.
    Forced,
    /// The ended process was collected.
    Reaped,
    /// Nothing is left to do.
    Over,
}

/// The ending of a workload that the agent started, as far as it has come.
#[derive(Debug, Clone, Copy, PartialEq, Eq, Structural)]
pub struct KillBase {
    /// How far the ending has come.
    pub stage: BaseStage,
    /// Whether no signal failed so far.
    pub clean: bool,
}

impl KillBase {
    /// An ending that has not begun.
    pub open spec fn fresh() -> KillBase {
        KillBase { stage: BaseStage::Ready, clean: true }
    }

    /// The ending of a workload that has not begun.
    pub fn new() -> (start: KillBase)
        ensures
            start == KillBase::fresh(),
    {
        KillBase { stage: BaseStage::Ready, clean: true }
    }

    /// The state after `report`, and the step to take from there: the
    /// graceful signal; the grace period where that signal went through;
    /// the forceful signal in any case; and the collecting of the process.
    /// The last step tells whether the graceful signal did not fail and the
    /// forceful one reached the process or found it gone.
    pub open spec fn after(self, report: Report) -> (KillBase, Step) {
        match self.stage {
            BaseStage::Ready => (
                KillBase { stage: BaseStage::Signalled, ..self },
                Step::Signal { signal: Signal::Terminate, group: false },
            ),
            BaseStage::Signalled => if report is Done {
                (
                    KillBase { stage: BaseStage::Waited, ..self },
                    Step::Wait { millis: WORKLOAD_GRACE_MS },
                )
            } else {
                (
                    KillBase { stage: BaseStage::Forced, clean: self.clean && !report.failed() },
                    Step::Signal { signal: Signal::Kill, group: false },
                )
            },
            BaseStage::Waited => (
                KillBase { stage: BaseStage::Forced, ..self },
                Step::Signal { signal: Signal::Kill, group: false },
            ),
            BaseStage::Forced => (
                KillBase { stage: BaseStage::Reaped, clean: self.clean && report.delivered() },
                Step::Reap,
            ),
            BaseStage::Reaped => (
                KillBase { stage: BaseStage::Over, ..self },
                Step::Finish { ok: self.clean },
            ),
            BaseStage::Over => (self, Step::Finish { ok: self.clean }),
        }
    }

    /// Takes the report on the step before and gives the next step. The
    /// first call's report is not read.
    pub fn next(&mut self, report: Report) -> (step: Step)
        ensures
            (*final(self), step) == old(self).after(report),
    {
        match self.stage {
            BaseStage::Ready => {
                self.stage = BaseStage::Signalled;
                Step::Signal { signal: Signal::Terminate, group: false }
            },
            BaseStage::Signalled => match report {
                Report::Done => {
                    self.stage = BaseStage::Waited;
                    Step::Wait { millis: WORKLOAD_GRACE_MS }
                },
                _ => {
                    self.stage = BaseStage::Forced;
                    self.clean = self.clean && !report.is_failed();
                    Step::Signal { signal: Signal::Kill, group: false }
                },
            },
            BaseStage::Waited => {
                self.stage = BaseStage::Forced;
                Step::Signal { signal: Signal::Kill, group: false }
            },
            BaseStage::Forced => {
                self.stage = BaseStage::Reaped;
                self.clean = self.clean && report.is_delivered();
                Step::Reap
            },
            BaseStage::Reaped => {
                self.stage = BaseStage::Over;
                Step::Finish { ok: self.clean }
            },
            BaseStage::Over => Step::Finish { ok: self.clean },
        }
    }
}

/// The directory that stands for process `pid` in the process table.
pub open spec fn proc_dir(pid: u32) -> Seq<char> {
    "/proc/"@ + decimal(pid as nat)
}

/// The directory under which a running process `pid` is found; the process
/// is alive while it exists.
pub fn process_dir(pid: u32) -> (path: String)
    ensures
        path@ == proc_dir(pid),
{
    let digits = u64_to_string(pid as u64);
    "/proc/".to_owned().concat(digits.as_str())
}

/// The link that leads to the image process `pid` is running now.
pub fn image_link(pid: u32) -> (path: String)
    ensures
        path@ == proc_dir(pid) + "/exe"@,
{
    process_dir(pid).concat("/exe")
}

} // verus!
