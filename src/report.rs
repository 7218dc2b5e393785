//! The report: the ordered (label, value) lines of one diagnostic snapshot.
use vstd::prelude::*;
use crate::components::{detail_lines, summary_text, addrs_of, Catalog, ComponentKind};
use crate::identity::{chip_line, chip_text, core_name, manufacturer_line, manufacturer_text, ChipRead, CoreVariant, Vendor};
use crate::registers::{annotation, annotation_text, hit_view, opt_view, register_name, register_name_of, register_value, register_value_text, SymbolHit};
use crate::status::{status_line, status_line_text, ProbeOutcome, StatusRegisters};
use crate::trace::{itm_line, itm_text, TraceState};

verus! {

/// Everything read from the session for the lines before the register dump.
pub struct Snapshot {
    pub probe_name: String,
    pub probe_serial: Option<String>,
    pub core: CoreVariant,
    pub vendor: Vendor,
    /// The manufacturer's name, when its JEP106 code resolves to one.
    pub manufacturer: Option<String>,
    /// The JEP106 continuation count.
    pub jep106_cc: u8,
    /// The JEP106 identity code.
    pub jep106_id: u8,
    /// The vendor-assigned part code.
    pub part: u32,
    pub chip: ChipRead,
    pub status: StatusRegisters,
    /// What the progress probe observed; consulted only when no status
    /// predicate holds.
    pub probe: ProbeOutcome,
    pub catalog: Catalog,
    /// The trace facts, read when the catalog holds an ITM.
    pub trace: Option<TraceState>,
}

/// The serial text: the serial, or "-" when the probe has none.
pub open spec fn serial_text(s: Option<Seq<char>>) -> Seq<char> {
    match s {
        Some(x) => x,
        None => "-"@,
    }
}

/// The trace facts that the ITM line reports: none without an ITM.
pub open spec fn reported_trace(s: &Snapshot) -> Option<TraceState> {
    if addrs_of(s.catalog.entries@, ComponentKind::Itm).len() > 0 {
        s.trace
    } else {
        None
    }
}

/// The lines before the register dump, in report order.
pub open spec fn header_text(s: &Snapshot) -> Seq<(Seq<char>, Seq<char>)> {
    seq![
        ("probe"@, s.probe_name@),
        ("probe serial"@, serial_text(opt_view(&s.probe_serial))),
        ("core"@, core_name(s.core)),
        ("manufacturer"@, manufacturer_text(opt_view(&s.manufacturer), s.jep106_cc, s.jep106_id)),
        ("chip"@, chip_text(s.vendor, s.core, s.chip, s.part)),
        ("status"@, status_line_text(s.status, s.probe)),
        ("debug units"@, summary_text(s.catalog.entries@)),
    ] + detail_lines(s.catalog.entries@) + seq![("ITM status"@, itm_text(reported_trace(s)))]
}

fn line(label: &str, value: String) -> (r: (String, String))
    ensures
        r.0@ == label@,
        r.1@ == value@,
{
    (String::from_str(label), value)
}

/// The lines before the register dump: probe, serial, core, manufacturer,
/// chip, status, debug-unit summary, one line per debug-unit kind, and the
/// ITM state ("absent" when the catalog holds no ITM).
pub fn header_lines(s: &Snapshot) -> (r: Vec<(String, String)>)
    requires
        addrs_of(s.catalog.entries@, ComponentKind::Itm).len() > 0 ==> s.trace is Some,
    ensures
        r.deep_view() == header_text(s),
{
    let mut r: Vec<(String, String)> = Vec::new();
    r.push(line("probe", s.probe_name.clone()));
    let serial = match &s.probe_serial {
        Some(x) => x.clone(),
        None => String::from_str("-"),
    };
    r.push(line("probe serial", serial));
    r.push(line("core", s.core.name()));
    r.push(line("manufacturer", manufacturer_line(s.manufacturer.clone(), s.jep106_cc, s.jep106_id)));
    r.push(line("chip", chip_line(s.vendor, s.core, &s.chip, s.part)));
    r.push(line("status", status_line(&s.status, &s.probe)));
    r.push(line("debug units", s.catalog.summary()));
    let ghost head = r.deep_view();
    let mut details = s.catalog.details();
    r.append(&mut details);
    let trace = if s.catalog.has_itm() {
        s.trace
    } else {
        None
    };
    r.push(line("ITM status", itm_line(&trace)));
    assert(r.deep_view() =~= header_text(s));
    r
}

/// One sampled register: its selector, its value, and what the symbol
/// table says of the value, if anything.
pub struct RegisterSample {
    pub index: u16,
    pub value: u32,
    pub hit: Option<SymbolHit>,
    pub module: Option<String>,
}

/// Whether a sample names a defined register and its symbol hit lies at or
/// below its value.
pub open spec fn sample_ok(x: &RegisterSample) -> bool {
    register_name_of(x.index) is Some && (x.hit matches Some(h) ==> h.base <= x.value)
}

/// The register line of a sample.
pub open spec fn register_line_text(x: &RegisterSample) -> (Seq<char>, Seq<char>) {
    (
        register_name_of(x.index)->Some_0,
        register_value_text(
            x.value,
            annotation_text(x.index, x.value, hit_view(&x.hit), opt_view(&x.module)),
        ),
    )
}

/// One line per sampled register, in sampling order.
pub fn register_lines(samples: &Vec<RegisterSample>) -> (r: Vec<(String, String)>)
    requires
        forall|k: int| 0 <= k < samples.len() ==> sample_ok(&#[trigger] samples[k]),
    ensures
        r.len() == samples.len(),
        forall|k: int| 0 <= k < samples.len() ==> #[trigger] r.deep_view()[k] == register_line_text(&samples[k]),
{
    let mut r: Vec<(String, String)> = Vec::new();
    let mut i: usize = 0;
    while i < samples.len()
        invariant
            i <= samples.len(),
            r.len() == i,
            forall|k: int| 0 <= k < samples.len() ==> sample_ok(&#[trigger] samples[k]),
            forall|k: int| 0 <= k < i ==> #[trigger] r.deep_view()[k] == register_line_text(&samples[k]),
        decreases samples.len() - i,
    {
        let x = &samples[i];
        assert(sample_ok(&samples[i as int]));
        let name = match register_name(x.index) {
            Some(n) => n,
            None => String::new(),
        };
        let note = annotation(x.index, x.value, &x.hit, &x.module);
        let value = register_value(x.value, &note);
        let ghost before = r.deep_view();
        let ghost item = (name@, value@);
        r.push((name, value));
        assert(r.deep_view() =~= before.push(item));
        i = i + 1;
    }
    r
}

} // verus!
