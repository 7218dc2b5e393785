//! The progress probe as a state machine: halt the core, read the PC,
//! single-step, read the PC again, then resume the core whatever happened.
//! The caller performs each action and hands back what came of it.
use vstd::prelude::*;
use crate::status::{verdict_text, ProbeOutcome};

verus! {

/// Where the probe stands.
#[derive(Clone, Copy, Debug, PartialEq, Eq)]
pub enum ProbeStage {
    Halting,
    ReadingFirst,
    Stepping { before: u32 },
    ReadingSecond { before: u32 },
    Resuming { outcome: ProbeOutcome },
    Finished { outcome: ProbeOutcome },
    /// Resuming the core failed.
    Aborted,
}

/// What came of the last action.
#[derive(Clone, Copy, Debug, PartialEq, Eq)]
pub enum ProbeEvent {
    /// A halt, step or run succeeded.
    Done,
    /// A read of the program counter returned this value.
    Value(u32),
    /// The action failed.
    Failed,
}

/// What the caller does next.
#[derive(Clone, Copy, Debug, PartialEq, Eq)]
pub enum ProbeAction {
    Halt,
    ReadPc,
    Step,
    Run,
    /// The probe is over with this outcome; the core was resumed.
    Report(ProbeOutcome),
    /// Resuming the core failed: the report fails.
    Abort,
}

/// The first stage and action of the probe.
pub open spec fn probe_begin() -> (ProbeStage, ProbeAction) {
    (ProbeStage::Halting, ProbeAction::Halt)
}

/// The transition of the probe on `e` in stage `s`: any failure before the
/// resume ends the sampling as `Failed` and resumes the core.
pub open spec fn probe_next(s: ProbeStage, e: ProbeEvent) -> (ProbeStage, ProbeAction) {
    let failed = (ProbeStage::Resuming { outcome: ProbeOutcome::Failed }, ProbeAction::Run);
    match s {
        ProbeStage::Halting => match e {
            ProbeEvent::Done => (ProbeStage::ReadingFirst, ProbeAction::ReadPc),
            _ => failed,
        },
        ProbeStage::ReadingFirst => match e {
            ProbeEvent::Value(v) => (ProbeStage::Stepping { before: v }, ProbeAction::Step),
            _ => failed,
        },
        ProbeStage::Stepping { before } => match e {
            ProbeEvent::Done => (ProbeStage::ReadingSecond { before }, ProbeAction::ReadPc),
            _ => failed,
        },
        ProbeStage::ReadingSecond { before } => match e {
            ProbeEvent::Value(after) => (
                ProbeStage::Resuming { outcome: ProbeOutcome::Sampled { before, after } },
                ProbeAction::Run,
            ),
            _ => failed,
        },
        ProbeStage::Resuming { outcome } => match e {
            ProbeEvent::Failed => (ProbeStage::Aborted, ProbeAction::Abort),
            _ => (ProbeStage::Finished { outcome }, ProbeAction::Report(outcome)),
        },
        ProbeStage::Finished { outcome } => (s, ProbeAction::Report(outcome)),
        ProbeStage::Aborted => (s, ProbeAction::Abort),
    }
}

/// Starts the probe.
pub fn begin() -> (r: (ProbeStage, ProbeAction))
    ensures
        r == probe_begin(),
{
    (ProbeStage::Halting, ProbeAction::Halt)
}

/// Advances the probe on what came of its last action.
pub fn next(s: ProbeStage, e: ProbeEvent) -> (r: (ProbeStage, ProbeAction))
    ensures
        r == probe_next(s, e),
{
    let failed = (ProbeStage::Resuming { outcome: ProbeOutcome::Failed }, ProbeAction::Run);
    match s {
        ProbeStage::Halting => match e {
            ProbeEvent::Done => (ProbeStage::ReadingFirst, ProbeAction::ReadPc),
            _ => failed,
        },
        ProbeStage::ReadingFirst => match e {
            ProbeEvent::Value(v) => (ProbeStage::Stepping { before: v }, ProbeAction::Step),
            _ => failed,
        },
        ProbeStage::Stepping { before } => match e {
            ProbeEvent::Done => (ProbeStage::ReadingSecond { before }, ProbeAction::ReadPc),
            _ => failed,
        },
        ProbeStage::ReadingSecond { before } => match e {
            ProbeEvent::Value(after) => (
                ProbeStage::Resuming { outcome: ProbeOutcome::Sampled { before, after } },
                ProbeAction::Run,
            ),
            _ => failed,
        },
        ProbeStage::Resuming { outcome } => match e {
            ProbeEvent::Failed => (ProbeStage::Aborted, ProbeAction::Abort),
            _ => (ProbeStage::Finished { outcome }, ProbeAction::Report(outcome)),
        },
        ProbeStage::Finished { outcome } => (s, ProbeAction::Report(outcome)),
        ProbeStage::Aborted => (s, ProbeAction::Abort),
    }
}

/// The stage and last action after the events `es`, from the start.
pub open spec fn probe_after(es: Seq<ProbeEvent>) -> (ProbeStage, ProbeAction)
    decreases es.len(),
{
    if es.len() == 0 {
        probe_begin()
    } else {
        probe_next(probe_after(es.drop_last()).0, es.last())
    }
}

/// The probe reports the sampled program counters when the halt, both reads
/// and the step succeed and the core resumes; its verdict is "not
/// progressing" exactly when the two reads agree. When the halt, the first
/// read, the step or the second read fails instead, it resumes the core and
/// reports "unable to step".
pub proof fn lemma_probe_outcomes(before: u32, after: u32)
    ensures
        probe_after(
            seq![
                ProbeEvent::Done,
                ProbeEvent::Value(before),
                ProbeEvent::Done,
                ProbeEvent::Value(after),
                ProbeEvent::Done,
            ],
        ).1 == ProbeAction::Report(ProbeOutcome::Sampled { before, after }),
        verdict_text(ProbeOutcome::Sampled { before, after }) == (if before == after {
            "not progressing"@
        } else {
            "progressing"@
        }),
        probe_after(seq![ProbeEvent::Failed]).1 == ProbeAction::Run,
        probe_after(seq![ProbeEvent::Failed, ProbeEvent::Done]).1 == ProbeAction::Report(
            ProbeOutcome::Failed,
        ),
        probe_after(seq![ProbeEvent::Done, ProbeEvent::Value(before), ProbeEvent::Failed]).1
            == ProbeAction::Run,
        probe_after(
            seq![ProbeEvent::Done, ProbeEvent::Value(before), ProbeEvent::Failed, ProbeEvent::Done],
        ).1 == ProbeAction::Report(ProbeOutcome::Failed),
        verdict_text(ProbeOutcome::Failed) == "unable to step"@,
{
    let e0 = Seq::<ProbeEvent>::empty();
    let e1 = e0.push(ProbeEvent::Done);
    let e2 = e1.push(ProbeEvent::Value(before));
    let e3 = e2.push(ProbeEvent::Done);
    let e4 = e3.push(ProbeEvent::Value(after));
    let e5 = e4.push(ProbeEvent::Done);
    assert(e1.drop_last() =~= e0);
    assert(e2.drop_last() =~= e1);
    assert(e3.drop_last() =~= e2);
    assert(e4.drop_last() =~= e3);
    assert(e5.drop_last() =~= e4);
    assert(probe_after(e0) == probe_begin());
    assert(probe_after(e1).0 == ProbeStage::ReadingFirst);
    assert(probe_after(e2).0 == ProbeStage::Stepping { before });
    assert(probe_after(e3).0 == ProbeStage::ReadingSecond { before });
    assert(probe_after(e4).0 == ProbeStage::Resuming {
        outcome: ProbeOutcome::Sampled { before, after },
    });
    assert(probe_after(e5).1 == ProbeAction::Report(ProbeOutcome::Sampled { before, after }));
    assert(e5 =~= seq![
        ProbeEvent::Done,
        ProbeEvent::Value(before),
        ProbeEvent::Done,
        ProbeEvent::Value(after),
        ProbeEvent::Done,
    ]);
    let f1 = e0.push(ProbeEvent::Failed);
    let f2 = f1.push(ProbeEvent::Done);
    assert(f1.drop_last() =~= e0);
    assert(f2.drop_last() =~= f1);
    assert(probe_after(f1).1 == ProbeAction::Run);
    assert(probe_after(f2).1 == ProbeAction::Report(ProbeOutcome::Failed));
    assert(f1 =~= seq![ProbeEvent::Failed]);
    assert(f2 =~= seq![ProbeEvent::Failed, ProbeEvent::Done]);
    let g3 = e2.push(ProbeEvent::Failed);
    let g4 = g3.push(ProbeEvent::Done);
    assert(g3.drop_last() =~= e2);
    assert(g4.drop_last() =~= g3);
    assert(probe_after(g3).1 == ProbeAction::Run);
    assert(probe_after(g4).1 == ProbeAction::Report(ProbeOutcome::Failed));
    assert(g3 =~= seq![ProbeEvent::Done, ProbeEvent::Value(before), ProbeEvent::Failed]);
    assert(g4 =~= seq![
        ProbeEvent::Done,
        ProbeEvent::Value(before),
        ProbeEvent::Failed,
        ProbeEvent::Done,
    ]);
}

/// Before the resume, any failure leads straight to resuming the core; the
/// probe finishes only out of the resume, so it never finishes with the core
/// left halted by it.
pub proof fn lemma_probe_always_resumes(s: ProbeStage, e: ProbeEvent)
    ensures
        !(s is Resuming) && !(s is Finished) && !(s is Aborted) && e == ProbeEvent::Failed ==> probe_next(s, e) == (
        ProbeStage::Resuming { outcome: ProbeOutcome::Failed }, ProbeAction::Run),
        probe_next(s, e).0 is Resuming ==> probe_next(s, e).1 == ProbeAction::Run,
        probe_next(s, e).0 is Finished ==> (s is Resuming || s is Finished),
{
}

/// Whether the core is halted after action `a` succeeded, from `halted`.
pub open spec fn action_effect(halted: bool, a: ProbeAction) -> bool {
    match a {
        ProbeAction::Halt => true,
        ProbeAction::Run => false,
        _ => halted,
    }
}

/// Whether the core is halted after the probe's actions with the results
/// `es`, from `halted`; a failed action is taken to change nothing.
pub open spec fn probe_state(halted: bool, es: Seq<ProbeEvent>) -> bool
    decreases es.len(),
{
    if es.len() == 0 {
        halted
    } else {
        let prev = probe_state(halted, es.drop_last());
        if es.last() is Failed {
            prev
        } else {
            action_effect(prev, probe_after(es.drop_last()).1)
        }
    }
}

proof fn lemma_probe_state_by_stage(halted: bool, es: Seq<ProbeEvent>)
    ensures
        probe_after(es).0 is Halting ==> probe_state(halted, es) == halted,
        (probe_after(es).0 is ReadingFirst || probe_after(es).0 is Stepping
            || probe_after(es).0 is ReadingSecond) ==> probe_state(halted, es),
        probe_after(es).0 is Finished ==> !probe_state(halted, es),
        probe_after(es).1 is Report ==> probe_after(es).0 is Finished,
    decreases es.len(),
{
    if es.len() > 0 {
        lemma_probe_state_by_stage(halted, es.drop_last());
    }
}

/// Whenever the probe reports, the core is running again: the probe halts
/// only a running core and resumes it on every path to a report.
pub proof fn lemma_probe_leaves_core_running(es: Seq<ProbeEvent>)
    ensures
        probe_after(es).1 is Report ==> !probe_state(false, es),
{
    lemma_probe_state_by_stage(false, es);
}

} // verus!
