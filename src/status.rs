//! Classification of the debug halting control/status register (DHCSR) and
//! the debug fault status register (DFSR), with the fallback progress probe.
use vstd::prelude::*;
use crate::text::{join, join_strings};

verus! {

/// The raw status registers, read fresh once per report.
#[derive(Clone, Copy, Debug, PartialEq, Eq)]
pub struct StatusRegisters {
    pub dhcsr: u32,
    pub dfsr: u32,
}

/// Number of named status predicates.
pub const FLAG_COUNT: usize = 10;

/// Whether bit `n` of `x` is set.
pub open spec fn bit_set(x: u32, n: u32) -> bool {
    (x >> n) & 1u32 == 1u32
}

/// Predicate `i` of the fixed evaluation order: DHCSR's S_RESTART_ST (26),
/// S_RESET_ST (25), S_RETIRE_ST (24), S_LOCKUP (19), S_HALT (17), then
/// DFSR's EXTERNAL (4), VCATCH (3), DWTTRAP (2), BKPT (1), HALTED (0).
pub open spec fn flag_set(regs: StatusRegisters, i: int) -> bool {
    if i == 0 {
        bit_set(regs.dhcsr, 26)
    } else if i == 1 {
        bit_set(regs.dhcsr, 25)
    } else if i == 2 {
        bit_set(regs.dhcsr, 24)
    } else if i == 3 {
        bit_set(regs.dhcsr, 19)
    } else if i == 4 {
        bit_set(regs.dhcsr, 17)
    } else if i == 5 {
        bit_set(regs.dfsr, 4)
    } else if i == 6 {
        bit_set(regs.dfsr, 3)
    } else if i == 7 {
        bit_set(regs.dfsr, 2)
    } else if i == 8 {
        bit_set(regs.dfsr, 1)
    } else if i == 9 {
        bit_set(regs.dfsr, 0)
    } else {
        false
    }
}

/// The name reported for predicate `i`.
pub open spec fn flag_label(i: int) -> Seq<char> {
    if i == 0 {
        "restarting"@
    } else if i == 1 {
        "resetting"@
    } else if i == 2 {
        "executing"@
    } else if i == 3 {
        "locked up"@
    } else if i == 4 {
        "halted"@
    } else if i == 5 {
        "external halt"@
    } else if i == 6 {
        "vector catch"@
    } else if i == 7 {
        "watchpoint"@
    } else if i == 8 {
        "breakpoint"@
    } else {
        "debug halt"@
    }
}

/// The names of the predicates among the first `n` that hold, in order.
pub open spec fn labels_upto(regs: StatusRegisters, n: nat) -> Seq<Seq<char>>
    decreases n,
{
    if n == 0 {
        Seq::empty()
    } else {
        let prev = labels_upto(regs, (n - 1) as nat);
        if flag_set(regs, n - 1) {
            prev.push(flag_label(n - 1))
        } else {
            prev
        }
    }
}

/// The names of all predicates that hold, in evaluation order.
pub open spec fn status_labels(regs: StatusRegisters) -> Seq<Seq<char>> {
    labels_upto(regs, FLAG_COUNT as nat)
}

/// Whether any predicate holds.
pub open spec fn any_flag(regs: StatusRegisters) -> bool {
    exists|i: int| 0 <= i < FLAG_COUNT && flag_set(regs, i)
}

/// The status text when some predicate holds.
pub open spec fn status_text(regs: StatusRegisters) -> Seq<char> {
    join(status_labels(regs), ", "@)
}

/// Whether the core reports itself halted (DHCSR's S_HALT).
pub open spec fn core_halted(regs: StatusRegisters) -> bool {
    flag_set(regs, 4)
}

proof fn lemma_labels_empty(regs: StatusRegisters, n: nat)
    requires
        n <= FLAG_COUNT,
    ensures
        (labels_upto(regs, n).len() == 0) <==> !(exists|i: int| 0 <= i < n && flag_set(regs, i)),
    decreases n,
{
    if n > 0 {
        lemma_labels_empty(regs, (n - 1) as nat);
    }
}

/// Different predicates have different names.
proof fn lemma_labels_distinct(i: int, j: int)
    requires
        0 <= i < FLAG_COUNT,
        0 <= j < FLAG_COUNT,
        i != j,
    ensures
        flag_label(i) != flag_label(j),
{
    reveal_strlit("restarting");
    reveal_strlit("resetting");
    reveal_strlit("executing");
    reveal_strlit("locked up");
    reveal_strlit("halted");
    reveal_strlit("external halt");
    reveal_strlit("vector catch");
    reveal_strlit("watchpoint");
    reveal_strlit("breakpoint");
    reveal_strlit("debug halt");
    assert(flag_label(i).len() != flag_label(j).len() || flag_label(i)[0] != flag_label(j)[0]);
}

proof fn lemma_labels_upto_contains(regs: StatusRegisters, n: nat, i: int)
    requires
        n <= FLAG_COUNT,
        0 <= i < FLAG_COUNT,
    ensures
        labels_upto(regs, n).contains(flag_label(i)) <==> (i < n && flag_set(regs, i)),
    decreases n,
{
    if n > 0 {
        let m = (n - 1) as nat;
        lemma_labels_upto_contains(regs, m, i);
        let prev = labels_upto(regs, m);
        if i != m {
            lemma_labels_distinct(i, m as int);
        }
        if flag_set(regs, m as int) {
            let cur = prev.push(flag_label(m as int));
            if i == m {
                assert(cur[prev.len() as int] == flag_label(i));
            } else if prev.contains(flag_label(i)) {
                let k = choose|k: int| 0 <= k < prev.len() && prev[k] == flag_label(i);
                assert(cur[k] == flag_label(i));
            } else {
                assert forall|k: int| 0 <= k < cur.len() implies cur[k] != flag_label(i) by {
                    if k < prev.len() {
                        assert(cur[k] == prev[k]);
                    }
                }
            }
        }
    }
}

/// The status names are those of the predicates that hold: a predicate's
/// name is among them exactly when it holds, and they come in evaluation
/// order, joined by ", ".
pub proof fn lemma_status_names_exact(regs: StatusRegisters, i: int)
    requires
        0 <= i < FLAG_COUNT,
    ensures
        status_labels(regs).contains(flag_label(i)) <==> flag_set(regs, i),
        any_flag(regs) ==> status_line_text(regs, ProbeOutcome::Failed) == join(
            status_labels(regs),
            ", "@,
        ),
{
    lemma_labels_upto_contains(regs, FLAG_COUNT as nat, i);
}

impl StatusRegisters {
    /// Whether predicate `i` holds.
    pub fn flag(&self, i: usize) -> (r: bool)
        requires
            i < FLAG_COUNT,
        ensures
            r == flag_set(*self, i as int),
    {
        let (x, n): (u32, u32) = if i == 0 {
            (self.dhcsr, 26)
        } else if i == 1 {
            (self.dhcsr, 25)
        } else if i == 2 {
            (self.dhcsr, 24)
        } else if i == 3 {
            (self.dhcsr, 19)
        } else if i == 4 {
            (self.dhcsr, 17)
        } else if i == 5 {
            (self.dfsr, 4)
        } else if i == 6 {
            (self.dfsr, 3)
        } else if i == 7 {
            (self.dfsr, 2)
        } else if i == 8 {
            (self.dfsr, 1)
        } else {
            (self.dfsr, 0)
        };
        (x >> n) & 1u32 == 1u32
    }

    /// Whether the core reports itself halted.
    pub fn halted(&self) -> (r: bool)
        ensures
            r == core_halted(*self),
    {
        self.flag(4)
    }

    /// The names of the predicates that hold, in evaluation order.
    pub fn labels(&self) -> (r: Vec<String>)
        ensures
            r.deep_view() == status_labels(*self),
    {
        let mut r: Vec<String> = Vec::new();
        let mut i: usize = 0;
        while i < FLAG_COUNT
            invariant
                i <= FLAG_COUNT,
                r.deep_view() == labels_upto(*self, i as nat),
            decreases FLAG_COUNT - i,
        {
            if self.flag(i) {
                let s = flag_name(i);
                r.push(s);
                assert(r.deep_view() =~= labels_upto(*self, (i + 1) as nat));
            }
            i = i + 1;
        }
        r
    }

    /// Classifies the registers: `Some` with every predicate that holds,
    /// joined by ", " in evaluation order; `None` when none holds, and the
    /// progress probe must decide.
    pub fn classify(&self) -> (r: Option<String>)
        ensures
            r is None <==> !any_flag(*self),
            r matches Some(s) ==> s@ == status_text(*self),
    {
        let labels = self.labels();
        proof {
            lemma_labels_empty(*self, FLAG_COUNT as nat);
        }
        if labels.len() == 0 {
            None
        } else {
            Some(join_strings(&labels, ", "))
        }
    }
}

/// The name of predicate `i`.
fn flag_name(i: usize) -> (r: String)
    requires
        i < FLAG_COUNT,
    ensures
        r@ == flag_label(i as int),
{
    let s = if i == 0 {
        "restarting"
    } else if i == 1 {
        "resetting"
    } else if i == 2 {
        "executing"
    } else if i == 3 {
        "locked up"
    } else if i == 4 {
        "halted"
    } else if i == 5 {
        "external halt"
    } else if i == 6 {
        "vector catch"
    } else if i == 7 {
        "watchpoint"
    } else if i == 8 {
        "breakpoint"
    } else {
        "debug halt"
    };
    String::from_str(s)
}

/// What the progress probe observed: the program counter before and after
/// one single step, or a failure at any of its steps.
#[derive(Clone, Copy, Debug, PartialEq, Eq)]
pub enum ProbeOutcome {
    Sampled { before: u32, after: u32 },
    Failed,
}

/// The verdict of the progress probe.
pub open spec fn verdict_text(o: ProbeOutcome) -> Seq<char> {
    match o {
        ProbeOutcome::Sampled { before, after } => if before == after {
            "not progressing"@
        } else {
            "progressing"@
        },
        ProbeOutcome::Failed => "unable to step"@,
    }
}

/// Renders the verdict of the progress probe.
pub fn progress_verdict(o: &ProbeOutcome) -> (r: String)
    ensures
        r@ == verdict_text(*o),
{
    match o {
        ProbeOutcome::Sampled { before, after } => if *before == *after {
            String::from_str("not progressing")
        } else {
            String::from_str("progressing")
        },
        ProbeOutcome::Failed => String::from_str("unable to step"),
    }
}

/// The status line: the predicates that hold, or else the probe's verdict.
pub open spec fn status_line_text(regs: StatusRegisters, o: ProbeOutcome) -> Seq<char> {
    if any_flag(regs) {
        status_text(regs)
    } else {
        verdict_text(o)
    }
}

/// The status line, given what the progress probe observed; `probe` is
/// consulted only when no predicate holds.
pub fn status_line(regs: &StatusRegisters, probe: &ProbeOutcome) -> (r: String)
    ensures
        r@ == status_line_text(*regs, *probe),
{
    match regs.classify() {
        Some(s) => s,
        None => progress_verdict(probe),
    }
}


/// When no predicate holds the progress probe decides: "not progressing"
/// when the program counter did not move across the single step,
/// "progressing" when it did, "unable to step" when the probe failed.
pub proof fn lemma_fallback_verdicts(regs: StatusRegisters, before: u32, after: u32)
    requires
        !any_flag(regs),
    ensures
        before == after ==> status_line_text(regs, ProbeOutcome::Sampled { before, after })
            == "not progressing"@,
        before != after ==> status_line_text(regs, ProbeOutcome::Sampled { before, after })
            == "progressing"@,
        status_line_text(regs, ProbeOutcome::Failed) == "unable to step"@,
{
}

} // verus!
