//! The catalog of CoreSight debug units found on the chip, and its
//! rendering: a summary of the kinds present and the addresses of each.
use vstd::prelude::*;
use crate::text::{dec, dec_string, hex_fixed, hex_fixed_string, join, join_strings};

verus! {

/// A kind of CoreSight debug unit.
#[derive(Clone, Copy, Debug, PartialEq, Eq, Structural)]
pub enum ComponentKind {
    Cstf,
    Cti,
    Dwt,
    Etm,
    Fpb,
    Itm,
    Mtb,
    Scs,
    Swo,
    Tmc,
    Tpiu,
    RomTable,
    Generic,
}

/// Number of kinds that are displayed.
pub const DISPLAYED_KINDS: usize = 11;

/// The displayed kinds, indexed in ascending order of their names.
pub open spec fn displayed_kind(i: int) -> ComponentKind {
    if i == 0 {
        ComponentKind::Cstf
    } else if i == 1 {
        ComponentKind::Cti
    } else if i == 2 {
        ComponentKind::Dwt
    } else if i == 3 {
        ComponentKind::Etm
    } else if i == 4 {
        ComponentKind::Fpb
    } else if i == 5 {
        ComponentKind::Itm
    } else if i == 6 {
        ComponentKind::Mtb
    } else if i == 7 {
        ComponentKind::Scs
    } else if i == 8 {
        ComponentKind::Swo
    } else if i == 9 {
        ComponentKind::Tmc
    } else {
        ComponentKind::Tpiu
    }
}

/// Whether units of kind `k` are shown in a report.
pub open spec fn is_displayable(k: ComponentKind) -> bool {
    !(k is RomTable || k is Generic)
}

/// The name of kind `k`.
pub open spec fn kind_name(k: ComponentKind) -> Seq<char> {
    match k {
        ComponentKind::Cstf => "CSTF"@,
        ComponentKind::Cti => "CTI"@,
        ComponentKind::Dwt => "DWT"@,
        ComponentKind::Etm => "ETM"@,
        ComponentKind::Fpb => "FPB"@,
        ComponentKind::Itm => "ITM"@,
        ComponentKind::Mtb => "MTB"@,
        ComponentKind::Scs => "SCS"@,
        ComponentKind::Swo => "SWO"@,
        ComponentKind::Tmc => "TMC"@,
        ComponentKind::Tpiu => "TPIU"@,
        ComponentKind::RomTable => "ROM"@,
        ComponentKind::Generic => "Generic"@,
    }
}

impl ComponentKind {
    /// The name of this kind.
    pub fn name(&self) -> (r: String)
        ensures
            r@ == kind_name(*self),
    {
        let s = match self {
            ComponentKind::Cstf => "CSTF",
            ComponentKind::Cti => "CTI",
            ComponentKind::Dwt => "DWT",
            ComponentKind::Etm => "ETM",
            ComponentKind::Fpb => "FPB",
            ComponentKind::Itm => "ITM",
            ComponentKind::Mtb => "MTB",
            ComponentKind::Scs => "SCS",
            ComponentKind::Swo => "SWO",
            ComponentKind::Tmc => "TMC",
            ComponentKind::Tpiu => "TPIU",
            ComponentKind::RomTable => "ROM",
            ComponentKind::Generic => "Generic",
        };
        String::from_str(s)
    }

    /// Whether units of this kind are shown in a report.
    pub fn displayable(&self) -> (r: bool)
        ensures
            r == is_displayable(*self),
    {
        match self {
            ComponentKind::RomTable | ComponentKind::Generic => false,
            _ => true,
        }
    }
}

/// The displayed kind at index `i` of name order.
fn displayed_kind_at(i: usize) -> (r: ComponentKind)
    requires
        i < DISPLAYED_KINDS,
    ensures
        r == displayed_kind(i as int),
{
    if i == 0 {
        ComponentKind::Cstf
    } else if i == 1 {
        ComponentKind::Cti
    } else if i == 2 {
        ComponentKind::Dwt
    } else if i == 3 {
        ComponentKind::Etm
    } else if i == 4 {
        ComponentKind::Fpb
    } else if i == 5 {
        ComponentKind::Itm
    } else if i == 6 {
        ComponentKind::Mtb
    } else if i == 7 {
        ComponentKind::Scs
    } else if i == 8 {
        ComponentKind::Swo
    } else if i == 9 {
        ComponentKind::Tmc
    } else {
        ComponentKind::Tpiu
    }
}

/// The debug units found, each a kind and a base address, in discovery order.
pub struct Catalog {
    pub entries: Vec<(ComponentKind, u32)>,
}

/// The base addresses of the units of kind `k`, in discovery order.
pub open spec fn addrs_of(e: Seq<(ComponentKind, u32)>, k: ComponentKind) -> Seq<u32>
    decreases e.len(),
{
    if e.len() == 0 {
        Seq::empty()
    } else {
        let prev = addrs_of(e.drop_last(), k);
        if e.last().0 == k {
            prev.push(e.last().1)
        } else {
            prev
        }
    }
}

/// The displayed kinds among the first `n` of name order that have units.
pub open spec fn kinds_upto(e: Seq<(ComponentKind, u32)>, n: nat) -> Seq<ComponentKind>
    decreases n,
{
    if n == 0 {
        Seq::empty()
    } else {
        let prev = kinds_upto(e, (n - 1) as nat);
        if addrs_of(e, displayed_kind(n - 1)).len() > 0 {
            prev.push(displayed_kind(n - 1))
        } else {
            prev
        }
    }
}

/// The displayed kinds that have units, in ascending order of name.
pub open spec fn present_kinds(e: Seq<(ComponentKind, u32)>) -> Seq<ComponentKind> {
    kinds_upto(e, DISPLAYED_KINDS as nat)
}

/// A kind's entry in the summary: its name, with `(xN)` when N > 1 units share it.
pub open spec fn unit_label(k: ComponentKind, n: nat) -> Seq<char> {
    if n > 1 {
        kind_name(k) + "(x"@ + dec(n) + ")"@
    } else {
        kind_name(k)
    }
}

/// The summary line: each present kind's entry, separated by spaces.
pub open spec fn summary_text(e: Seq<(ComponentKind, u32)>) -> Seq<char> {
    join(
        present_kinds(e).map_values(|k: ComponentKind| unit_label(k, addrs_of(e, k).len())),
        " "@,
    )
}

/// One address as `0x` and eight hexadecimal digits.
pub open spec fn addr_text(a: u32) -> Seq<char> {
    "0x"@ + hex_fixed(a as nat, 8)
}

/// The addresses of kind `k`, comma-separated.
pub open spec fn addrs_text(e: Seq<(ComponentKind, u32)>, k: ComponentKind) -> Seq<char> {
    join(addrs_of(e, k).map_values(|a: u32| addr_text(a)), ", "@)
}

/// The detail lines: for each present kind, its name and its addresses.
pub open spec fn detail_lines(e: Seq<(ComponentKind, u32)>) -> Seq<(Seq<char>, Seq<char>)> {
    present_kinds(e).map_values(|k: ComponentKind| (kind_name(k), addrs_text(e, k)))
}


/// `a` comes strictly before `b` in character order.
pub open spec fn name_lt(a: Seq<char>, b: Seq<char>) -> bool {
    exists|k: int|
        #![trigger a.take(k), b.take(k)]
        0 <= k <= a.len() && k <= b.len() && a.take(k) == b.take(k) && ((k == a.len() && k
            < b.len()) || (k < a.len() && k < b.len() && (a[k] as u32) < (b[k] as u32)))
}

/// The displayed kinds are indexed in strictly ascending order of name, so
/// that walking them by index lists kinds sorted by name.
pub proof fn lemma_displayed_names_ascending(i: int, j: int)
    requires
        0 <= i < j < DISPLAYED_KINDS,
    ensures
        name_lt(kind_name(displayed_kind(i)), kind_name(displayed_kind(j))),
{
    reveal_strlit("CSTF");
    reveal_strlit("CTI");
    reveal_strlit("DWT");
    reveal_strlit("ETM");
    reveal_strlit("FPB");
    reveal_strlit("ITM");
    reveal_strlit("MTB");
    reveal_strlit("SCS");
    reveal_strlit("SWO");
    reveal_strlit("TMC");
    reveal_strlit("TPIU");
    let a = kind_name(displayed_kind(i));
    let b = kind_name(displayed_kind(j));
    if a[0] == b[0] {
        assert(a.take(1) =~= b.take(1));
        assert((a[1] as u32) < (b[1] as u32));
    } else {
        assert(a.take(0) =~= b.take(0));
        assert((a[0] as u32) < (b[0] as u32));
    }
}

proof fn lemma_kinds_upto_members(e: Seq<(ComponentKind, u32)>, n: nat)
    requires
        n <= DISPLAYED_KINDS,
    ensures
        kinds_upto(e, n).no_duplicates(),
        forall|x: int|
            0 <= x < kinds_upto(e, n).len() ==> exists|k: int|
                0 <= k < n && #[trigger] kinds_upto(e, n)[x] == displayed_kind(k),
    decreases n,
{
    if n > 0 {
        let m = (n - 1) as nat;
        lemma_kinds_upto_members(e, m);
        let prev = kinds_upto(e, m);
        let cur = kinds_upto(e, n);
        if addrs_of(e, displayed_kind(m as int)).len() > 0 {
            assert forall|x: int| 0 <= x < prev.len() implies prev[x] != displayed_kind(m as int) by {
                let k = choose|k: int| 0 <= k < m && prev[x] == displayed_kind(k);
            }
            assert forall|x: int| 0 <= x < cur.len() implies exists|k: int|
                0 <= k < n && #[trigger] cur[x] == displayed_kind(k) by {
                if x < prev.len() {
                    assert(cur[x] == prev[x]);
                    let k = choose|k: int| 0 <= k < m && prev[x] == displayed_kind(k);
                    assert(cur[x] == displayed_kind(k));
                } else {
                    assert(cur[x] == displayed_kind(m as int));
                }
            }
        }
    }
}

/// The summary lists each kind at most once: units that share a kind are
/// collapsed into one entry.
pub proof fn lemma_present_kinds_distinct(e: Seq<(ComponentKind, u32)>)
    ensures
        present_kinds(e).no_duplicates(),
        forall|x: int|
            0 <= x < present_kinds(e).len() ==> is_displayable(#[trigger] present_kinds(e)[x])
                && addrs_of(e, present_kinds(e)[x]).len() > 0,
{
    lemma_kinds_upto_present(e, DISPLAYED_KINDS as nat);
    lemma_kinds_upto_members(e, DISPLAYED_KINDS as nat);
}

proof fn lemma_kinds_upto_present(e: Seq<(ComponentKind, u32)>, n: nat)
    ensures
        forall|x: int|
            0 <= x < kinds_upto(e, n).len() ==> is_displayable(#[trigger] kinds_upto(e, n)[x])
                && addrs_of(e, kinds_upto(e, n)[x]).len() > 0,
    decreases n,
{
    if n > 0 {
        lemma_kinds_upto_present(e, (n - 1) as nat);
        let prev = kinds_upto(e, (n - 1) as nat);
        let cur = kinds_upto(e, n);
        assert forall|x: int| 0 <= x < cur.len() implies is_displayable(#[trigger] cur[x])
            && addrs_of(e, cur[x]).len() > 0 by {
            if x < prev.len() {
                assert(cur[x] == prev[x]);
            }
        }
    }
}

/// A kind with no entry has no addresses.
proof fn lemma_addrs_absent(e: Seq<(ComponentKind, u32)>, k: ComponentKind)
    requires
        forall|x: int| 0 <= x < e.len() ==> e[x].0 != k,
    ensures
        addrs_of(e, k).len() == 0,
    decreases e.len(),
{
    if e.len() > 0 {
        lemma_addrs_absent(e.drop_last(), k);
    }
}

/// A catalog of two units of one displayed kind and one unit of another
/// summarises as both names in ascending order, the repeated kind marked
/// with its multiplicity of two.
pub proof fn lemma_summary_two_and_one(e: Seq<(ComponentKind, u32)>, i: int, j: int)
    requires
        0 <= i < DISPLAYED_KINDS,
        0 <= j < DISPLAYED_KINDS,
        i != j,
        forall|x: int| 0 <= x < e.len() ==> e[x].0 == displayed_kind(i) || e[x].0 == displayed_kind(j),
        addrs_of(e, displayed_kind(i)).len() == 2,
        addrs_of(e, displayed_kind(j)).len() == 1,
    ensures
        i < j ==> summary_text(e) == unit_label(displayed_kind(i), 2) + " "@ + kind_name(
            displayed_kind(j),
        ),
        j < i ==> summary_text(e) == kind_name(displayed_kind(j)) + " "@ + unit_label(
            displayed_kind(i),
            2,
        ),
        unit_label(displayed_kind(i), 2) == kind_name(displayed_kind(i)) + "(x"@ + dec(2) + ")"@,
        name_lt(kind_name(displayed_kind(if i < j { i } else { j })), kind_name(displayed_kind(if i < j { j } else { i }))),
{
    assert forall|k: int| 0 <= k < DISPLAYED_KINDS && k != i && k != j implies addrs_of(
        e,
        displayed_kind(k),
    ).len() == 0 by {
        lemma_addrs_absent(e, displayed_kind(k));
    }
    let a = displayed_kind(i);
    let b = displayed_kind(j);
    let lo = if i < j { i } else { j };
    let hi = if i < j { j } else { i };
    lemma_displayed_names_ascending(lo, hi);
    assert forall|n: nat| n <= DISPLAYED_KINDS implies #[trigger] kinds_upto(e, n) == (if n <= lo {
        Seq::<ComponentKind>::empty()
    } else if n <= hi {
        seq![displayed_kind(lo)]
    } else {
        seq![displayed_kind(lo), displayed_kind(hi)]
    }) by {
        lemma_kinds_upto_two(e, lo, hi, n);
    }
    let p = present_kinds(e);
    assert(p == seq![displayed_kind(lo), displayed_kind(hi)]);
    let f = |k: ComponentKind| unit_label(k, addrs_of(e, k).len());
    let m = p.map_values(f);
    assert(m =~= seq![f(displayed_kind(lo)), f(displayed_kind(hi))]);
    assert(m.drop_last() =~= seq![f(displayed_kind(lo))]);
    assert(join(m.drop_last(), " "@) == f(displayed_kind(lo)));
    assert(summary_text(e) == f(displayed_kind(lo)) + " "@ + f(displayed_kind(hi)));
    assert(f(a) == unit_label(a, 2));
    assert(f(b) == kind_name(b));
}

proof fn lemma_kinds_upto_two(e: Seq<(ComponentKind, u32)>, lo: int, hi: int, n: nat)
    requires
        0 <= lo < hi < DISPLAYED_KINDS,
        n <= DISPLAYED_KINDS,
        addrs_of(e, displayed_kind(lo)).len() > 0,
        addrs_of(e, displayed_kind(hi)).len() > 0,
        forall|k: int| 0 <= k < DISPLAYED_KINDS && k != lo && k != hi ==> addrs_of(e, displayed_kind(k)).len() == 0,
    ensures
        kinds_upto(e, n) == (if n <= lo {
            Seq::<ComponentKind>::empty()
        } else if n <= hi {
            seq![displayed_kind(lo)]
        } else {
            seq![displayed_kind(lo), displayed_kind(hi)]
        }),
    decreases n,
{
    if n > 0 {
        lemma_kinds_upto_two(e, lo, hi, (n - 1) as nat);
        if n - 1 == lo {
            assert(Seq::<ComponentKind>::empty().push(displayed_kind(lo)) =~= seq![displayed_kind(lo)]);
        } else if n - 1 == hi {
            assert(seq![displayed_kind(lo)].push(displayed_kind(hi)) =~= seq![displayed_kind(lo), displayed_kind(hi)]);
        }
    }
}

impl Catalog {
    /// An empty catalog.
    pub fn new() -> (r: Catalog)
        ensures
            r.entries@ == Seq::<(ComponentKind, u32)>::empty(),
    {
        Catalog { entries: Vec::new() }
    }

    /// Records a unit of kind `k` at `addr`.
    pub fn insert(&mut self, k: ComponentKind, addr: u32)
        ensures
            final(self).entries@ == old(self).entries@.push((k, addr)),
    {
        self.entries.push((k, addr));
    }

    /// The base addresses of the units of kind `k`, in discovery order.
    pub fn addresses(&self, k: ComponentKind) -> (r: Vec<u32>)
        ensures
            r@ == addrs_of(self.entries@, k),
    {
        let mut r: Vec<u32> = Vec::new();
        let mut i: usize = 0;
        while i < self.entries.len()
            invariant
                i <= self.entries.len(),
                r@ == addrs_of(self.entries@.take(i as int), k),
            decreases self.entries.len() - i,
        {
            let ghost t = self.entries@.take(i as int + 1);
            assert(t.drop_last() =~= self.entries@.take(i as int));
            if self.entries[i].0 == k {
                r.push(self.entries[i].1);
            }
            i = i + 1;
        }
        assert(self.entries@.take(self.entries.len() as int) =~= self.entries@);
        r
    }

    /// Whether an instrumentation trace macrocell (ITM) is present.
    pub fn has_itm(&self) -> (r: bool)
        ensures
            r == (addrs_of(self.entries@, ComponentKind::Itm).len() > 0),
    {
        self.addresses(ComponentKind::Itm).len() > 0
    }

    /// The summary line: every displayed kind present, in ascending order of
    /// name, each marked `(xN)` when N > 1 units share it.
    pub fn summary(&self) -> (r: String)
        ensures
            r@ == summary_text(self.entries@),
    {
        let ghost e = self.entries@;
        let mut labels: Vec<String> = Vec::new();
        let mut i: usize = 0;
        while i < DISPLAYED_KINDS
            invariant
                i <= DISPLAYED_KINDS,
                e == self.entries@,
                labels.deep_view() == kinds_upto(e, i as nat).map_values(
                    |k: ComponentKind| unit_label(k, addrs_of(e, k).len()),
                ),
            decreases DISPLAYED_KINDS - i,
        {
            let k = displayed_kind_at(i);
            let addrs = self.addresses(k);
            if addrs.len() > 0 {
                let l = unit_label_string(k, addrs.len());
                let ghost before = labels.deep_view();
                labels.push(l);
                assert(labels.deep_view() =~= before.push(l@));
            }
            assert(labels.deep_view() =~= kinds_upto(e, (i + 1) as nat).map_values(
                |k: ComponentKind| unit_label(k, addrs_of(e, k).len()),
            ));
            i = i + 1;
        }
        join_strings(&labels, " ")
    }

    /// For each displayed kind present, in ascending order of name: its name
    /// and its base addresses, comma-separated, as fixed-width hexadecimal.
    pub fn details(&self) -> (r: Vec<(String, String)>)
        ensures
            r.deep_view() == detail_lines(self.entries@),
    {
        let ghost e = self.entries@;
        let mut lines: Vec<(String, String)> = Vec::new();
        let mut i: usize = 0;
        while i < DISPLAYED_KINDS
            invariant
                i <= DISPLAYED_KINDS,
                e == self.entries@,
                lines.deep_view() == kinds_upto(e, i as nat).map_values(
                    |k: ComponentKind| (kind_name(k), addrs_text(e, k)),
                ),
            decreases DISPLAYED_KINDS - i,
        {
            let k = displayed_kind_at(i);
            let addrs = self.addresses(k);
            if addrs.len() > 0 {
                let v = addresses_string(&addrs);
                let n = k.name();
                let ghost before = lines.deep_view();
                let ghost item = (n@, v@);
                lines.push((n, v));
                assert(lines.deep_view() =~= before.push(item));
            }
            assert(lines.deep_view() =~= kinds_upto(e, (i + 1) as nat).map_values(
                |k: ComponentKind| (kind_name(k), addrs_text(e, k)),
            ));
            i = i + 1;
        }
        lines
    }
}

/// A kind's entry in the summary.
fn unit_label_string(k: ComponentKind, n: usize) -> (r: String)
    ensures
        r@ == unit_label(k, n as nat),
{
    let mut s = k.name();
    if n > 1 {
        s.append("(x");
        let d = dec_string(n as u64);
        s.append(d.as_str());
        s.append(")");
    }
    s
}

/// Addresses as `0x` and eight hexadecimal digits, comma-separated.
fn addresses_string(addrs: &Vec<u32>) -> (r: String)
    ensures
        r@ == join(addrs@.map_values(|a: u32| addr_text(a)), ", "@),
{
    let mut parts: Vec<String> = Vec::new();
    let mut i: usize = 0;
    while i < addrs.len()
        invariant
            i <= addrs.len(),
            parts.deep_view() == addrs@.take(i as int).map_values(|a: u32| addr_text(a)),
        decreases addrs.len() - i,
    {
        let mut s = String::from_str("0x");
        let h = hex_fixed_string(addrs[i], 8);
        s.append(h.as_str());
        let ghost before = parts.deep_view();
        let ghost item = s@;
        parts.push(s);
        assert(parts.deep_view() =~= before.push(item));
        assert(parts.deep_view() =~= addrs@.take(i as int + 1).map_values(|a: u32| addr_text(a)));
        i = i + 1;
    }
    assert(addrs@.take(addrs.len() as int) =~= addrs@);
    join_strings(&parts, ", ")
}

} // verus!
