//! Run/halt control over one report: the bracket that halts a running core
//! for the register dump and resumes it after, and the model of the core's
//! run state under the controls a report issues.
use vstd::prelude::*;
use crate::progress::{probe_after, probe_state, lemma_probe_leaves_core_running, ProbeEvent};
use crate::status::{any_flag, core_halted, StatusRegisters};

verus! {

/// A run-control request sent to the core.
#[derive(Clone, Copy, Debug, PartialEq, Eq, Structural)]
pub enum Control {
    Halt,
    Step,
    Run,
}

/// Whether the core is halted after `c`, from `halted`: a halt halts it, a
/// run resumes it, a single step leaves it as it was.
pub open spec fn after_control(halted: bool, c: Control) -> bool {
    match c {
        Control::Halt => true,
        Control::Run => false,
        Control::Step => halted,
    }
}

/// Whether the core is halted after each of `cs` in turn, from `halted`.
pub open spec fn after_controls(halted: bool, cs: Seq<Control>) -> bool
    decreases cs.len(),
{
    if cs.len() == 0 {
        halted
    } else {
        after_control(after_controls(halted, cs.drop_last()), cs.last())
    }
}

/// Halts a running core for the register dump, and on leaving resumes the
/// core only if it was halted here.
#[derive(Clone, Copy, Debug, PartialEq, Eq)]
pub struct HaltBracket {
    pub halted_here: bool,
}

impl HaltBracket {
    /// Enters the bracket on a core that `already_halted` describes; the
    /// caller halts the core when `halt_needed` says so.
    pub fn enter(already_halted: bool) -> (r: HaltBracket)
        ensures
            r.halted_here == !already_halted,
    {
        HaltBracket { halted_here: !already_halted }
    }

    /// Whether the core must be halted on entry.
    pub fn halt_needed(&self) -> (r: bool)
        ensures
            r == self.halted_here,
    {
        self.halted_here
    }

    /// Whether the core must be resumed on leaving, on every path out,
    /// a failed read included.
    pub fn resume_needed(&self) -> (r: bool)
        ensures
            r == self.halted_here,
    {
        self.halted_here
    }
}

/// The controls of a bracket entered on a core whose halt state is `halted`:
/// a halt before the register dump and a run after it, on every path out.
pub open spec fn bracket_controls(halted: bool) -> Seq<Control> {
    let b = HaltBracket { halted_here: !halted };
    if b.halted_here {
        seq![Control::Halt, Control::Run]
    } else {
        Seq::empty()
    }
}

/// Whether the core is halted at the end of a report on a core whose status
/// registers are `regs`: the progress probe runs, with results `es`, when no
/// status predicate holds; then the bracket around the register dump.
pub open spec fn report_run_state(regs: StatusRegisters, es: Seq<ProbeEvent>) -> bool {
    let h = core_halted(regs);
    let s = if any_flag(regs) {
        h
    } else {
        probe_state(h, es)
    };
    after_controls(s, bracket_controls(h))
}

/// A report leaves the core running or halted exactly as it found it,
/// whether it was halted or running at the start, whenever the report gets
/// past its status line.
pub proof fn lemma_report_keeps_run_state(regs: StatusRegisters, es: Seq<ProbeEvent>)
    requires
        any_flag(regs) || probe_after(es).1 is Report,
    ensures
        report_run_state(regs, es) == core_halted(regs),
{
    let h = core_halted(regs);
    if !any_flag(regs) {
        assert(!h) by {
            assert(!(0 <= 4 < 10 && crate::status::flag_set(regs, 4)));
        }
        lemma_probe_leaves_core_running(es);
    }
    if !h {
        let b2 = seq![Control::Halt, Control::Run];
        assert(b2.drop_last() =~= seq![Control::Halt]);
        assert(seq![Control::Halt].drop_last() =~= Seq::<Control>::empty());
    }
}

/// Applying `a` then `b` is applying their concatenation.
proof fn lemma_after_concat(h: bool, a: Seq<Control>, b: Seq<Control>)
    ensures
        after_controls(h, a + b) == after_controls(after_controls(h, a), b),
    decreases b.len(),
{
    if b.len() == 0 {
        assert(a + b =~= a);
    } else {
        assert((a + b).drop_last() =~= a + b.drop_last());
        lemma_after_concat(h, a, b.drop_last());
    }
}

} // verus!
