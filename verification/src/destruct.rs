//! Secure deletion: a file is overwritten over its whole length in a fixed
//! number of passes and then removed. The steps are decided here; the host
//! carries them out on the file and reports how each one went. A pass that
//! fails is given up, the passes after it are still made, and the file is
//! removed in any case once its length is known.

use crate::process::{Fill, Report, Step};
use vstd::prelude::*;

verus! {

/// Number of passes over the file.
pub const PASSES: u8 = 3;

/// Most bytes written in one step.
pub const CHUNK: u64 = 8192;

/// What the passes write.
#[derive(Debug, Clone, Copy, PartialEq, Eq, Structural)]
pub enum Scheme {
    /// No pass: the file is only removed.
    Plain,
    /// Random bytes in every pass.
    Random,
    /// The bytes `0x00`, `0xFF` and `0xAA`, one to a pass.
    Patterns,
}

/// Which step was given last.
#[derive(Debug, Clone, Copy, PartialEq, Eq, Structural)]
pub enum Stage {
    Ready,
    Measuring,
    Opening,
    Rewinding,
    Writing,
    Syncing,
    Unlinking,
    Forgetting,
    Finished,
}

/// The deletion of one file, as far as it has come.
#[derive(Debug, Clone, Copy, PartialEq, Eq, Structural)]
pub struct Wipe {
    /// What the passes write.
    pub scheme: Scheme,
    /// Whether the settings file beside the file is removed with it.
    pub with_settings: bool,
    /// The step given last.
    pub stage: Stage,
    /// The pass under way, counted from 0.
    pub pass: u8,
    /// Length of the file in bytes, once measured.
    pub size: u64,
    /// Bytes of the pass under way that are still to be written.
    pub remaining: u64,
    /// Whether every step so far went well.
    pub clean: bool,
    /// Whether the file is gone.
    pub removed: bool,
}

/// The byte that pass `pass` repeats under the scheme of patterns.
pub open spec fn pattern(pass: u8) -> u8 {
    if pass == 0 {
        0x00
    } else if pass == 1 {
        0xFF
    } else {
        0xAA
    }
}

/// Number of steps that write `n` bytes.
pub open spec fn chunks(n: nat) -> nat {
    (n + CHUNK - 1) as nat / (CHUNK as nat)
}

impl Wipe {
    /// Whether the state is one that the steps lead to.
    pub open spec fn wf(self) -> bool {
        &&& self.pass < PASSES
        &&& self.remaining <= self.size
        &&& self.stage is Ready || self.stage is Measuring ==> self.size == 0 && self.pass == 0
        &&& self.stage is Opening ==> self.pass == 0
        &&& self.stage is Opening || self.stage is Rewinding ==> self.remaining == self.size
        &&& self.scheme is Plain ==> self.stage is Ready || self.stage is Unlinking
            || self.stage is Forgetting || self.stage is Finished
        &&& self.removed ==> self.stage is Forgetting || self.stage is Finished
    }

    /// Whether the file's length is known and the file not yet removed: the
    /// passes are under way, or about to begin.
    pub open spec fn in_passes(self) -> bool {
        self.stage is Opening || self.stage is Rewinding || self.stage is Writing
            || self.stage is Syncing
    }

    /// What pass `self.pass` writes.
    pub open spec fn fill(self) -> Fill {
        if self.scheme is Patterns {
            Fill::Pattern(pattern(self.pass))
        } else {
            Fill::Random
        }
    }

    /// The state and step that go on with the writing of a pass of which
    /// `left` bytes are still to be written: one more chunk, or the sync
    /// that closes the pass.
    pub open spec fn write_on(self, left: u64) -> (Wipe, Step) {
        if left > 0 {
            let len = if left < CHUNK {
                left
            } else {
                CHUNK
            };
            (
                Wipe { stage: Stage::Writing, remaining: (left - len) as u64, ..self },
                Step::Write { len: len as usize, fill: self.fill() },
            )
        } else {
            (Wipe { stage: Stage::Syncing, remaining: 0, ..self }, Step::Sync)
        }
    }

    /// The state and step that follow the end of a pass: the next pass, or
    /// the removal after the last one.
    pub open spec fn pass_over(self) -> (Wipe, Step) {
        if self.pass + 1 < PASSES {
            (
                Wipe {
                    stage: Stage::Rewinding,
                    pass: (self.pass + 1) as u8,
                    remaining: self.size,
                    ..self
                },
                Step::Rewind,
            )
        } else {
            (Wipe { stage: Stage::Unlinking, ..self }, Step::Unlink)
        }
    }

    /// The state after `report`, and the step to take from there.
    ///
    /// The file is measured and opened; each pass goes back to the start,
    /// writes the file's length in chunks and syncs; then the file is
    /// removed. Without passes the file is removed at once. A file that
    /// cannot be measured is left alone, and counts as removed where it is
    /// missing. A file that cannot be opened is removed without a pass. A
    /// rewind that fails gives the pass up; a write that fails ends the
    /// pass with its sync. The removal counts as done where the file is
    /// missing. Where the settings file goes with the file, it is removed
    /// after the file, whether or not the file could be; how that goes does
    /// not change the outcome.
    pub open spec fn after(self, report: Report) -> (Wipe, Step) {
        let failed = Wipe { clean: false, ..self };
        match self.stage {
            Stage::Ready => if self.scheme is Plain {
                (Wipe { stage: Stage::Unlinking, ..self }, Step::Unlink)
            } else {
                (Wipe { stage: Stage::Measuring, ..self }, Step::Measure)
            },
            Stage::Measuring => match report {
                Report::Size(n) => (
                    Wipe { stage: Stage::Opening, size: n, remaining: n, ..self },
                    Step::Open,
                ),
                Report::Missing => (
                    Wipe { stage: Stage::Finished, removed: true, ..self },
                    Step::Finish { ok: true },
                ),
                _ => (Wipe { stage: Stage::Finished, ..failed }, Step::Finish { ok: false }),
            },
            Stage::Opening => if report is Done {
                (Wipe { stage: Stage::Rewinding, ..self }, Step::Rewind)
            } else {
                (Wipe { stage: Stage::Unlinking, ..failed }, Step::Unlink)
            },
            Stage::Rewinding => if report is Done {
                self.write_on(self.size)
            } else {
                failed.pass_over()
            },
            Stage::Writing => if report is Done {
                self.write_on(self.remaining)
            } else {
                (Wipe { stage: Stage::Syncing, ..failed }, Step::Sync)
            },
            Stage::Syncing => if report is Done {
                self.pass_over()
            } else {
                failed.pass_over()
            },
            Stage::Unlinking => {
                let gone = report is Done || report is Missing;
                let unlinked = if gone {
                    Wipe { removed: true, ..self }
                } else {
                    failed
                };
                if self.with_settings {
                    (Wipe { stage: Stage::Forgetting, ..unlinked }, Step::UnlinkSettings)
                } else {
                    (Wipe { stage: Stage::Finished, ..unlinked }, Step::Finish { ok: gone })
                }
            },
            Stage::Forgetting => (
                Wipe { stage: Stage::Finished, ..self },
                Step::Finish { ok: self.removed },
            ),
            Stage::Finished => (self, Step::Finish { ok: self.removed }),
        }
    }

    /// Most steps that can still be given before the removal is.
    pub open spec fn steps_to_unlink(self) -> nat {
        let pass = chunks(self.size as nat) + 2;
        let later = (PASSES - 1 - self.pass) as nat * pass;
        match self.stage {
            Stage::Opening => 1 + PASSES as nat * pass,
            Stage::Rewinding => chunks(self.size as nat) + 1 + later,
            Stage::Writing => chunks(self.remaining as nat) + 1 + later,
            Stage::Syncing => later,
            _ => 0,
        }
    }

    /// The deletion of a file, not yet begun.
    pub open spec fn fresh(scheme: Scheme, with_settings: bool) -> Wipe {
        Wipe {
            scheme,
            with_settings,
            stage: Stage::Ready,
            pass: 0,
            size: 0,
            remaining: 0,
            clean: true,
            removed: false,
        }
    }

    /// A deletion that has not begun.
    pub fn new(scheme: Scheme) -> (wipe: Wipe)
        ensures
            wipe.wf(),
            wipe == Wipe::fresh(scheme, false),
    {
        Wipe {
            scheme,
            with_settings: false,
            stage: Stage::Ready,
            pass: 0,
            size: 0,
            remaining: 0,
            clean: true,
            removed: false,
        }
    }

    /// The deletion of the agent's own binary, not yet begun: random bytes
    /// in every pass, and the settings file removed after the binary.
    pub fn of_self() -> (wipe: Wipe)
        ensures
            wipe.wf(),
            wipe == Wipe::fresh(Scheme::Random, true),
    {
        Wipe {
            scheme: Scheme::Random,
            with_settings: true,
            stage: Stage::Ready,
            pass: 0,
            size: 0,
            remaining: 0,
            clean: true,
            removed: false,
        }
    }

    fn fill_now(&self) -> (fill: Fill)
        ensures
            fill == self.fill(),
    {
        match self.scheme {
            Scheme::Patterns => if self.pass == 0 {
                Fill::Pattern(0x00)
            } else if self.pass == 1 {
                Fill::Pattern(0xFF)
            } else {
                Fill::Pattern(0xAA)
            },
            _ => Fill::Random,
        }
    }

    fn go_on_writing(&mut self, left: u64) -> (step: Step)
        ensures
            (*final(self), step) == old(self).write_on(left),
    {
        if left > 0 {
            let len = if left < CHUNK {
                left
            } else {
                CHUNK
            };
            self.stage = Stage::Writing;
            self.remaining = left - len;
            Step::Write { len: len as usize, fill: self.fill_now() }
        } else {
            self.stage = Stage::Syncing;
            self.remaining = 0;
            Step::Sync
        }
    }

    fn close_pass(&mut self) -> (step: Step)
        ensures
            (*final(self), step) == old(self).pass_over(),
    {
        if self.pass < PASSES - 1 {
            self.stage = Stage::Rewinding;
            self.pass = self.pass + 1;
            self.remaining = self.size;
            Step::Rewind
        } else {
            self.stage = Stage::Unlinking;
            Step::Unlink
        }
    }

    /// Takes the report on the step before and gives the next step. The
    /// first call's report is not read.
    pub fn next(&mut self, report: Report) -> (step: Step)
        ensures
            (*final(self), step) == old(self).after(report),
            old(self).wf() ==> final(self).wf(),
    {
        match self.stage {
            Stage::Ready => match self.scheme {
                Scheme::Plain => {
                    self.stage = Stage::Unlinking;
                    Step::Unlink
                },
                _ => {
                    self.stage = Stage::Measuring;
                    Step::Measure
                },
            },
            Stage::Measuring => match report {
                Report::Size(n) => {
                    self.stage = Stage::Opening;
                    self.size = n;
                    self.remaining = n;
                    Step::Open
                },
                Report::Missing => {
                    self.stage = Stage::Finished;
                    self.removed = true;
                    Step::Finish { ok: true }
                },
                _ => {
                    self.stage = Stage::Finished;
                    self.clean = false;
                    Step::Finish { ok: false }
                },
            },
            Stage::Opening => match report {
                Report::Done => {
                    self.stage = Stage::Rewinding;
                    Step::Rewind
                },
                _ => {
                    self.stage = Stage::Unlinking;
                    self.clean = false;
                    Step::Unlink
                },
            },
            Stage::Rewinding => match report {
                Report::Done => {
                    let size = self.size;
                    self.go_on_writing(size)
                },
                _ => {
                    self.clean = false;
                    self.close_pass()
                },
            },
            Stage::Writing => match report {
                Report::Done => {
                    let left = self.remaining;
                    self.go_on_writing(left)
                },
                _ => {
                    self.stage = Stage::Syncing;
                    self.clean = false;
                    Step::Sync
                },
            },
            Stage::Syncing => {
                match report {
                    Report::Done => {},
                    _ => {
                        self.clean = false;
                    },
                }
                self.close_pass()
            },
            Stage::Unlinking => {
                let gone = match report {
                    Report::Done | Report::Missing => true,
                    _ => false,
                };
                if gone {
                    self.removed = true;
                } else {
                    self.clean = false;
                }
                if self.with_settings {
                    self.stage = Stage::Forgetting;
                    Step::UnlinkSettings
                } else {
                    self.stage = Stage::Finished;
                    Step::Finish { ok: gone }
                }
            },
            Stage::Forgetting => {
                self.stage = Stage::Finished;
                Step::Finish { ok: self.removed }
            },
            Stage::Finished => Step::Finish { ok: self.removed },
        }
    }
}

/// `rand::random::<u8>` of the crate rand: one byte drawn from the thread's
/// generator. Nothing is claimed of the byte.
#[verifier::external_body]
fn random_byte() -> (byte: u8) {
    rand::random::<u8>()
}

/// A block of `len` bytes to write in one step: the pattern's byte repeated,
/// or bytes drawn at random, of which nothing but their number is known.
pub fn fill_block(fill: Fill, len: usize) -> (block: Vec<u8>)
    ensures
        block@.len() == len,
        fill matches Fill::Pattern(byte) ==> forall|i: int| 0 <= i < len ==> block@[i] == byte,
{
    let mut block: Vec<u8> = Vec::new();
    let mut i: usize = 0;
    while i < len
        invariant
            i <= len,
            block@.len() == i,
            fill matches Fill::Pattern(byte) ==> forall|j: int| 0 <= j < i ==> block@[j] == byte,
        decreases len - i,
    {
        let byte = match fill {
            Fill::Pattern(byte) => byte,
            Fill::Random => random_byte(),
        };
        block.push(byte);
        i += 1;
    }
    block
}

/// The steps given in answer to `reports`, one after the other, from the
/// state `wipe` on.
pub open spec fn steps(wipe: Wipe, reports: Seq<Report>) -> Seq<Step>
    decreases reports.len(),
{
    if reports.len() == 0 {
        Seq::empty()
    } else {
        let (next, step) = wipe.after(reports[0]);
        seq![step] + steps(next, reports.drop_first())
    }
}

/// The steps lead from well-formed states to well-formed states.
pub proof fn lemma_after_wf(wipe: Wipe, report: Report)
    requires
        wipe.wf(),
    ensures
        wipe.after(report).0.wf(),
{
}

/// Each write is of at least one byte and of at most a chunk, and takes
/// its length off what the pass has left to write. A pass is synced
/// after a write that went well only once nothing is left to write.
pub proof fn lemma_write_accounts(wipe: Wipe, report: Report)
    requires
        wipe.wf(),
    ensures
        wipe.after(report).1 matches Step::Write { len, .. } ==> 0 < len <= CHUNK
            && wipe.after(report).0.remaining + len == wipe.remaining,
        wipe.after(report).1 is Sync && report is Done ==> wipe.remaining == 0,
{
}

proof fn lemma_passes_cost(passes: nat, per_pass: nat)
    requires
        passes <= PASSES,
    ensures
        passes * per_pass == if passes == 0 {
            0
        } else if passes == 1 {
            per_pass
        } else if passes == 2 {
            2 * per_pass
        } else {
            3 * per_pass
        },
{
    assert(passes <= 3 ==> passes * per_pass == if passes == 0 {
        0
    } else if passes == 1 {
        per_pass
    } else if passes == 2 {
        2 * per_pass
    } else {
        3 * per_pass
    }) by (nonlinear_arith);
}

/// Once the file's length is known, no failure ends the deletion before the
/// removal: whatever is reported, the next step belongs to the passes, or
/// it is the removal itself.
pub proof fn lemma_passes_lead_to_unlink(wipe: Wipe, report: Report)
    requires
        wipe.wf(),
        wipe.in_passes(),
    ensures
        ({
            let (next, step) = wipe.after(report);
            if step is Unlink {
                next.stage is Unlinking
            } else {
                next.in_passes() && !(step is Finish) && next.steps_to_unlink()
                    < wipe.steps_to_unlink()
            }
        }),
{
    let per_pass = chunks(wipe.size as nat) + 2;
    let next = wipe.after(report).0;
    assert(chunks(0) == 0);
    lemma_passes_cost((PASSES - 1 - wipe.pass) as nat, per_pass);
    lemma_passes_cost((PASSES - 1 - next.pass) as nat, per_pass);
    lemma_passes_cost(PASSES as nat, per_pass);
}

/// Once the file's length is known, the removal is reached, whatever is
/// reported on the way: among the first steps, as many as `steps_to_unlink`
/// counts and one more, one is the removal, and none before it ends the
/// deletion.
pub proof fn lemma_unlink_is_reached(wipe: Wipe, reports: Seq<Report>) -> (at: int)
    requires
        wipe.wf(),
        wipe.in_passes(),
        reports.len() > wipe.steps_to_unlink(),
    ensures
        steps(wipe, reports).len() == reports.len(),
        0 <= at <= wipe.steps_to_unlink(),
        steps(wipe, reports)[at] is Unlink,
        forall|i: int| 0 <= i < at ==> !(#[trigger] steps(wipe, reports)[i] is Finish),
    decreases wipe.steps_to_unlink(),
{
    lemma_steps_len(wipe, reports);
    lemma_passes_lead_to_unlink(wipe, reports[0]);
    lemma_after_wf(wipe, reports[0]);
    let (next, step) = wipe.after(reports[0]);
    let rest = steps(next, reports.drop_first());
    assert(steps(wipe, reports) == seq![step] + rest);
    if step is Unlink {
        0
    } else {
        let later = lemma_unlink_is_reached(next, reports.drop_first());
        assert forall|i: int| 0 <= i < later + 1 implies !(#[trigger] steps(wipe, reports)[i]
            is Finish) by {
            if i > 0 {
                assert(steps(wipe, reports)[i] == rest[i - 1]);
            }
        }
        assert(steps(wipe, reports)[later + 1] == rest[later]);
        later + 1
    }
}

/// A file whose length could be read is removed, whatever fails
/// afterwards: in a deletion with passes, begun anew, whose measure finds a
/// file of `size` bytes, one of the steps is the removal, and none before
/// it ends the deletion.
pub proof fn lemma_measured_file_is_unlinked(
    scheme: Scheme,
    with_settings: bool,
    size: u64,
    reports: Seq<Report>,
) -> (at: int)
    requires
        !(scheme is Plain),
        reports.len() > 3 + PASSES * (chunks(size as nat) + 2),
        reports[1] == Report::Size(size),
    ensures
        0 <= at < reports.len(),
        steps(Wipe::fresh(scheme, with_settings), reports)[at] is Unlink,
        forall|i: int|
            0 <= i < at ==> !(#[trigger] steps(Wipe::fresh(scheme, with_settings), reports)[i]
                is Finish),
{
    let fresh = Wipe::fresh(scheme, with_settings);
    let measuring = fresh.after(reports[0]).0;
    let opening = measuring.after(reports[1]).0;
    let r1 = reports.drop_first();
    let r2 = r1.drop_first();
    assert(r1[0] == reports[1]);
    lemma_passes_cost(PASSES as nat, chunks(size as nat) + 2);
    let later = lemma_unlink_is_reached(opening, r2);
    let all = steps(fresh, reports);
    let tail = steps(measuring, r1);
    let rest = steps(opening, r2);
    lemma_steps_len(opening, r2);
    lemma_steps_len(measuring, r1);
    assert(tail == seq![Step::Open] + rest);
    assert(all == seq![Step::Measure] + tail);
    assert forall|i: int| 0 <= i < later + 2 implies !(#[trigger] all[i] is Finish) by {
        if i >= 1 {
            assert(all[i] == tail[i - 1]);
            if i >= 2 {
                assert(tail[i - 1] == rest[i - 2]);
            }
        }
    }
    assert(all[later + 2] == tail[later + 1]);
    assert(tail[later + 1] == rest[later]);
    later + 2
}

/// There is one step for each report.
pub proof fn lemma_steps_len(wipe: Wipe, reports: Seq<Report>)
    ensures
        steps(wipe, reports).len() == reports.len(),
    decreases reports.len(),
{
    if reports.len() > 0 {
        lemma_steps_len(wipe.after(reports[0]).0, reports.drop_first());
    }
}

} // verus!
