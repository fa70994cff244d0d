use killer::process::{
    image_link, process_dir, BaseStage, Escalation, KillBase, Report, Signal, Step, Terminate,
    TerminateTree, TreeStage, GRACE_MS, TREE_GRACE_MS, WORKLOAD_GRACE_MS,
};

const TERM: Step = Step::Signal { signal: Signal::Terminate, group: false };
const KILL: Step = Step::Signal { signal: Signal::Kill, group: false };
const TERM_GROUP: Step = Step::Signal { signal: Signal::Terminate, group: true };
const KILL_GROUP: Step = Step::Signal { signal: Signal::Kill, group: true };
const OK: Step = Step::Finish { ok: true };
const FAILED: Step = Step::Finish { ok: false };

fn terminate(reports: &[Report]) -> (Vec<Step>, Terminate) {
    let mut machine = Terminate::new();
    let steps = reports.iter().map(|report| machine.next(*report)).collect();
    (steps, machine)
}

fn tree(reports: &[Report]) -> Vec<Step> {
    let mut machine = TerminateTree::new();
    reports.iter().map(|report| machine.next(*report)).collect()
}

fn kill_base(reports: &[Report]) -> Vec<Step> {
    let mut machine = KillBase::new();
    reports.iter().map(|report| machine.next(*report)).collect()
}

#[test]
fn terminate_stops_at_the_probe_when_the_process_is_gone() {
    let (steps, machine) =
        terminate(&[Report::Done, Report::Done, Report::Done, Report::Done, Report::Done]);
    assert_eq!(steps, vec![TERM, Step::Wait { millis: 100 }, Step::Probe, OK, OK]);
    assert_eq!(machine, Terminate { stage: Escalation::Ended, clean: true });
    assert_eq!(GRACE_MS, 100);
}

#[test]
fn terminate_escalates_when_the_process_is_alive() {
    let (steps, machine) = terminate(&[
        Report::Done,
        Report::Done,
        Report::Done,
        Report::Alive,
        Report::Done,
        Report::Done,
    ]);
    assert_eq!(steps, vec![TERM, Step::Wait { millis: 100 }, Step::Probe, KILL, OK, OK]);
    assert_eq!(machine.stage, Escalation::Ended);
}

#[test]
fn terminate_never_skips_the_graceful_signal() {
    for first in [Report::Done, Report::Failed, Report::Missing, Report::Alive, Report::Size(4)] {
        let mut machine = Terminate::new();
        assert_eq!(machine.next(first), TERM);
        assert_eq!(machine, Terminate { stage: Escalation::Signalled, clean: true });
    }
}

#[test]
fn terminate_fails_when_the_forceful_signal_fails() {
    let (steps, machine) = terminate(&[
        Report::Done,
        Report::Done,
        Report::Done,
        Report::Alive,
        Report::Failed,
        Report::Done,
        Report::Missing,
    ]);
    assert_eq!(
        steps,
        vec![TERM, Step::Wait { millis: 100 }, Step::Probe, KILL, FAILED, FAILED, FAILED]
    );
    assert_eq!(machine, Terminate { stage: Escalation::Survived, clean: false });
}

#[test]
fn terminate_ends_when_the_forceful_signal_finds_no_process() {
    let (steps, machine) =
        terminate(&[Report::Done, Report::Done, Report::Done, Report::Alive, Report::Missing]);
    assert_eq!(steps, vec![TERM, Step::Wait { millis: 100 }, Step::Probe, KILL, OK]);
    assert_eq!(machine.stage, Escalation::Ended);
}

#[test]
fn terminate_goes_on_after_a_graceful_signal_that_failed() {
    let (steps, machine) =
        terminate(&[Report::Done, Report::Failed, Report::Done, Report::Alive, Report::Done]);
    assert_eq!(steps, vec![TERM, Step::Wait { millis: 100 }, Step::Probe, KILL, FAILED]);
    assert_eq!(machine, Terminate { stage: Escalation::Ended, clean: false });

    let (steps, _) = terminate(&[Report::Done, Report::Failed, Report::Done, Report::Done]);
    assert_eq!(steps, vec![TERM, Step::Wait { millis: 100 }, Step::Probe, FAILED]);
}

#[test]
fn terminate_takes_a_missing_process_for_no_failure() {
    let (steps, machine) = terminate(&[Report::Done, Report::Missing, Report::Done, Report::Done]);
    assert_eq!(steps, vec![TERM, Step::Wait { millis: 100 }, Step::Probe, OK]);
    assert_eq!(machine, Terminate { stage: Escalation::Ended, clean: true });
}

#[test]
fn terminate_reads_alive_only_from_the_probe() {
    let (steps, _) = terminate(&[Report::Alive, Report::Alive, Report::Alive, Report::Missing]);
    assert_eq!(steps, vec![TERM, Step::Wait { millis: 100 }, Step::Probe, OK]);
}

#[test]
fn tree_is_signalled_waited_for_and_forced() {
    let steps = tree(&[Report::Done; 6]);
    assert_eq!(
        steps,
        vec![TERM_GROUP, Step::Wait { millis: 1000 }, KILL_GROUP, KILL, OK, OK]
    );
    assert_eq!(TREE_GRACE_MS, 1000);
}

#[test]
fn tree_is_forced_whatever_failed() {
    for fail in 1..5 {
        let mut machine = TerminateTree::new();
        let mut steps = Vec::new();
        for at in 0..6 {
            let report = if at == fail { Report::Failed } else { Report::Done };
            steps.push(machine.next(report));
        }
        let fine = fail == 2;
        let last = Step::Finish { ok: fine };
        assert_eq!(
            steps,
            vec![TERM_GROUP, Step::Wait { millis: 1000 }, KILL_GROUP, KILL, last, last]
        );
        assert_eq!(machine, TerminateTree { stage: TreeStage::Over, clean: fine });
    }
}

#[test]
fn tree_takes_a_process_already_gone_for_no_failure() {
    let steps = tree(&[Report::Done, Report::Missing, Report::Done, Report::Done, Report::Missing]);
    assert_eq!(steps, vec![TERM_GROUP, Step::Wait { millis: 1000 }, KILL_GROUP, KILL, OK]);
}

#[test]
fn workload_is_given_time_when_the_signal_went_through() {
    let steps = kill_base(&[Report::Done; 6]);
    assert_eq!(steps, vec![TERM, Step::Wait { millis: 2000 }, KILL, Step::Reap, OK, OK]);
    assert_eq!(WORKLOAD_GRACE_MS, 2000);
}

#[test]
fn workload_is_forced_at_once_when_the_signal_did_not_go_through() {
    let steps = kill_base(&[Report::Done, Report::Missing, Report::Done, Report::Done, Report::Done]);
    assert_eq!(steps, vec![TERM, KILL, Step::Reap, OK, OK]);
    let steps = kill_base(&[Report::Done, Report::Failed, Report::Done, Report::Done, Report::Done]);
    assert_eq!(steps, vec![TERM, KILL, Step::Reap, FAILED, FAILED]);
}

#[test]
fn workload_that_resists_the_forceful_signal_is_a_failure() {
    let mut machine = KillBase::new();
    assert_eq!(machine.next(Report::Done), TERM);
    assert_eq!(machine.next(Report::Done), Step::Wait { millis: 2000 });
    assert_eq!(machine.next(Report::Done), KILL);
    assert_eq!(machine.next(Report::Failed), Step::Reap);
    assert_eq!(machine.next(Report::Done), FAILED);
    assert_eq!(machine, KillBase { stage: BaseStage::Over, clean: false });
}

#[test]
fn reports_on_signals() {
    assert!(Report::Done.is_delivered());
    assert!(Report::Missing.is_delivered());
    assert!(!Report::Failed.is_delivered());
    assert!(!Report::Alive.is_delivered());
    assert!(!Report::Size(0).is_delivered());
    assert!(Report::Failed.is_failed());
    assert!(!Report::Done.is_failed());
    assert!(!Report::Missing.is_failed());
    assert!(!Report::Alive.is_failed());
}

#[test]
fn process_paths() {
    assert_eq!(process_dir(1), "/proc/1");
    assert_eq!(process_dir(0), "/proc/0");
    assert_eq!(process_dir(4242), "/proc/4242");
    assert_eq!(process_dir(u32::MAX), "/proc/4294967295");
    assert_eq!(image_link(1), "/proc/1/exe");
    assert_eq!(image_link(31337), "/proc/31337/exe");
}
