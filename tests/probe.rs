use humility_cmd_probe::components::{Catalog, ComponentKind};
use humility_cmd_probe::identity::{
    chip_line, id_scheme, manufacturer_line, ChipRead, CoreVariant, IdScheme,
    Vendor,
};
use humility_cmd_probe::progress::{begin, next, ProbeAction, ProbeEvent, ProbeStage};
use humility_cmd_probe::registers::{annotation, register_name, register_value, SymbolHit};
use humility_cmd_probe::report::{header_lines, register_lines, RegisterSample, Snapshot};
use humility_cmd_probe::session::HaltBracket;
use humility_cmd_probe::status::{progress_verdict, status_line, ProbeOutcome, StatusRegisters};
use humility_cmd_probe::text::{dec_string, hex_fixed_string, hex_string, join_strings};
use humility_cmd_probe::trace::{itm_line, TraceState};

const S_RESTART_ST: u32 = 1 << 26;
const S_RESET_ST: u32 = 1 << 25;
const S_RETIRE_ST: u32 = 1 << 24;
const S_LOCKUP: u32 = 1 << 19;
const S_HALT: u32 = 1 << 17;

fn regs(dhcsr: u32, dfsr: u32) -> StatusRegisters {
    StatusRegisters { dhcsr, dfsr }
}

fn catalog(entries: &[(ComponentKind, u32)]) -> Catalog {
    let mut c = Catalog::new();
    for (k, a) in entries {
        c.insert(*k, *a);
    }
    c
}

#[test]
fn status_names_in_evaluation_order() {
    let r = regs(S_HALT | S_LOCKUP, 1 << 1);
    assert_eq!(r.classify(), Some("locked up, halted, breakpoint".to_string()));
}

#[test]
fn status_all_predicates() {
    let r = regs(S_RESTART_ST | S_RESET_ST | S_RETIRE_ST | S_LOCKUP | S_HALT, 0x1f);
    assert_eq!(
        r.classify().unwrap(),
        "restarting, resetting, executing, locked up, halted, external halt, \
         vector catch, watchpoint, breakpoint, debug halt"
    );
}

#[test]
fn status_single_predicates() {
    assert_eq!(regs(S_RETIRE_ST, 0).classify().unwrap(), "executing");
    assert_eq!(regs(0, 1 << 4).classify().unwrap(), "external halt");
    assert_eq!(regs(0, 1).classify().unwrap(), "debug halt");
    assert_eq!(regs(S_RESET_ST, 1 << 2).classify().unwrap(), "resetting, watchpoint");
}

#[test]
fn status_ignores_other_bits() {
    let r = regs(!(S_RESTART_ST | S_RESET_ST | S_RETIRE_ST | S_LOCKUP | S_HALT), !0x1f);
    assert_eq!(r.classify(), None);
}

#[test]
fn status_predicate_overrides_probe() {
    let r = regs(S_HALT, 0);
    assert_eq!(status_line(&r, &ProbeOutcome::Failed), "halted");
}

#[test]
fn fallback_probe_not_progressing() {
    let r = regs(0, 0);
    assert_eq!(r.classify(), None);
    let o = ProbeOutcome::Sampled { before: 0x0800_1000, after: 0x0800_1000 };
    assert_eq!(status_line(&r, &o), "not progressing");
}

#[test]
fn fallback_probe_progressing() {
    let r = regs(0, 0);
    let o = ProbeOutcome::Sampled { before: 0x0800_1000, after: 0x0800_1002 };
    assert_eq!(status_line(&r, &o), "progressing");
}

#[test]
fn fallback_probe_unable_to_step() {
    let r = regs(0, 0);
    assert_eq!(status_line(&r, &ProbeOutcome::Failed), "unable to step");
    assert_eq!(progress_verdict(&ProbeOutcome::Failed), "unable to step");
}

#[test]
fn bracket_leaves_halted_core_alone() {
    let b = HaltBracket::enter(true);
    assert!(!b.halt_needed());
    assert!(!b.resume_needed());
}

#[test]
fn bracket_halts_and_resumes_running_core() {
    let b = HaltBracket::enter(false);
    assert!(b.halt_needed());
    assert!(b.resume_needed());
}

#[test]
fn halted_status_register_drives_bracket() {
    assert!(regs(S_HALT, 0).halted());
    assert!(!regs(S_RETIRE_ST, 0).halted());
}

#[test]
fn catalog_two_and_one_sorted() {
    let c = catalog(&[
        (ComponentKind::Tpiu, 0xe004_0000),
        (ComponentKind::Cti, 0x5c01_1000),
        (ComponentKind::Cti, 0xe004_3000),
    ]);
    assert_eq!(c.summary(), "CTI(x2) TPIU");
}

#[test]
fn catalog_details_fixed_width() {
    let c = catalog(&[
        (ComponentKind::Dwt, 0xe000_1000),
        (ComponentKind::Cti, 0x5c01_1000),
        (ComponentKind::Cti, 0xe004_3000),
        (ComponentKind::Itm, 0x1000),
    ]);
    assert_eq!(
        c.details(),
        vec![
            ("CTI".to_string(), "0x5c011000, 0xe0043000".to_string()),
            ("DWT".to_string(), "0xe0001000".to_string()),
            ("ITM".to_string(), "0x00001000".to_string()),
        ]
    );
}

#[test]
fn catalog_filters_undisplayed_kinds() {
    let c = catalog(&[
        (ComponentKind::RomTable, 0xe00f_f000),
        (ComponentKind::Scs, 0xe000_e000),
        (ComponentKind::Generic, 0xe00f_e000),
    ]);
    assert_eq!(c.summary(), "SCS");
    assert_eq!(c.details().len(), 1);
}

#[test]
fn catalog_empty() {
    let c = Catalog::new();
    assert_eq!(c.summary(), "");
    assert!(c.details().is_empty());
    assert!(!c.has_itm());
}

#[test]
fn catalog_many_of_one_kind() {
    let mut entries = vec![];
    for i in 0..12u32 {
        entries.push((ComponentKind::Cstf, 0x5c00_0000 + i * 0x1000));
    }
    let c = catalog(&entries);
    assert_eq!(c.summary(), "CSTF(x12)");
}

#[test]
fn catalog_full_example() {
    let c = catalog(&[
        (ComponentKind::Scs, 0xe000_e000),
        (ComponentKind::Itm, 0xe000_0000),
        (ComponentKind::Dwt, 0xe000_1000),
        (ComponentKind::Fpb, 0xe000_2000),
        (ComponentKind::Etm, 0xe004_1000),
        (ComponentKind::Cstf, 0x5c00_4000),
        (ComponentKind::Cstf, 0x5c01_3000),
        (ComponentKind::Cti, 0x5c01_1000),
        (ComponentKind::Cti, 0xe004_3000),
        (ComponentKind::Swo, 0x5c00_3000),
        (ComponentKind::Tmc, 0x5c01_4000),
        (ComponentKind::Tpiu, 0x5c01_5000),
    ]);
    assert_eq!(c.summary(), "CSTF(x2) CTI(x2) DWT ETM FPB ITM SCS SWO TMC TPIU");
    assert_eq!(c.addresses(ComponentKind::Cstf), vec![0x5c00_4000, 0x5c01_3000]);
}

#[test]
fn vendor_known_pairs() {
    assert_eq!(id_scheme(Vendor::Arm, CoreVariant::CortexM0Plus), Some(IdScheme::Stm32G0));
    assert_eq!(id_scheme(Vendor::St, CoreVariant::CortexM4), Some(IdScheme::Stm32F4));
    assert_eq!(id_scheme(Vendor::St, CoreVariant::CortexM7), Some(IdScheme::Stm32H7));
    assert_eq!(id_scheme(Vendor::Nxp, CoreVariant::CortexM33), Some(IdScheme::Lpc55));
    assert_eq!(id_scheme(Vendor::St, CoreVariant::CortexM33), None);
    assert_eq!(id_scheme(Vendor::Other, CoreVariant::CortexM4), None);
}

#[test]
fn vendor_resolution_is_stable() {
    let read = ChipRead::Stm32 { family: "STM32H7".to_string(), rev_id: 0x2003 };
    let a = chip_line(Vendor::St, CoreVariant::CortexM7, &read, 0x450);
    let b = chip_line(Vendor::St, CoreVariant::CortexM7, &read, 0x450);
    assert_eq!(a, "STM32H7, revision 0x2003");
    assert_eq!(a, b);
}

#[test]
fn vendor_resolution_f4() {
    let read = ChipRead::Stm32 { family: "STM32F40x/STM32F41x".to_string(), rev_id: 0x1007 };
    assert_eq!(
        chip_line(Vendor::St, CoreVariant::CortexM4, &read, 0x413),
        "STM32F40x/STM32F41x, revision 0x1007"
    );
    let read = ChipRead::Stm32 { family: "STM32G07x".to_string(), rev_id: 0x2000 };
    assert_eq!(
        chip_line(Vendor::Arm, CoreVariant::CortexM0Plus, &read, 0xc60),
        "STM32G07x, revision 0x2000"
    );
}

#[test]
fn vendor_unknown_pair_carries_part_code() {
    let read = ChipRead::Stm32 { family: "STM32H7".to_string(), rev_id: 0x2003 };
    assert_eq!(
        chip_line(Vendor::Other, CoreVariant::CortexM3, &read, 0xc27),
        "<unknown part 0xc27>"
    );
}

#[test]
fn vendor_read_failures() {
    let lpc = ChipRead::Lpc55 { rom_revision: 2, rev_id: 1 };
    assert_eq!(
        chip_line(Vendor::St, CoreVariant::CortexM7, &lpc, 0x450),
        "<unknown ST part 0x450>"
    );
    assert_eq!(
        chip_line(Vendor::Arm, CoreVariant::CortexM0Plus, &ChipRead::Failed, 0xc60),
        "<unknown ARM part 0xc60>"
    );
    assert_eq!(
        chip_line(Vendor::St, CoreVariant::CortexM4, &ChipRead::Failed, 0x413),
        "<unknown ST part 0x413>"
    );
    assert_eq!(
        chip_line(Vendor::Nxp, CoreVariant::CortexM33, &ChipRead::Failed, 0x501),
        "<unknown NXP M33 0x501>"
    );
}

#[test]
fn vendor_lpc55() {
    let read = ChipRead::Lpc55 { rom_revision: 2, rev_id: 1 };
    assert_eq!(
        chip_line(Vendor::Nxp, CoreVariant::CortexM33, &read, 0x501),
        "LPC55, ROM revision 2, device revision 0x1 (1B)"
    );
    let read = ChipRead::Lpc55 { rom_revision: 12, rev_id: 0 };
    assert_eq!(
        chip_line(Vendor::Nxp, CoreVariant::CortexM33, &read, 0x501),
        "LPC55, ROM revision 12, device revision 0x0 (0A)"
    );
    let read = ChipRead::Lpc55 { rom_revision: 0, rev_id: 0xa };
    assert_eq!(
        chip_line(Vendor::Nxp, CoreVariant::CortexM33, &read, 0x501),
        "LPC55, ROM revision 0, device revision 0xa (<unknown>)"
    );
}

#[test]
fn manufacturer_names() {
    assert_eq!(
        manufacturer_line(Some("STMicroelectronics".to_string()), 0, 0x20),
        "STMicroelectronics"
    );
    assert_eq!(manufacturer_line(None, 4, 0x3b), "<JEP106 [0x4, 0x3b]>");
}

#[test]
fn core_names() {
    assert_eq!(CoreVariant::CortexM7.name(), "Cortex-M7");
    assert_eq!(CoreVariant::CortexM0Plus.name(), "Cortex-M0+");
}

fn hit(symbol: &str, base: u32) -> Option<SymbolHit> {
    Some(SymbolHit { symbol: symbol.to_string(), base })
}

#[test]
fn annotation_only_below_sixteen() {
    let h = hit("main", 0x801c040);
    assert_eq!(annotation(14, 0x801c12b, &h, &None), " <- main+0xeb");
    assert_eq!(annotation(16, 0x801c12b, &h, &None), "");
    assert_eq!(annotation(17, 0x801c12b, &h, &Some("task".to_string())), "");
    assert_eq!(annotation(20, 0x801c12b, &h, &None), "");
}

#[test]
fn annotation_module_prefix() {
    let h = hit("sys_recv_stub", 0x801d272);
    assert_eq!(
        annotation(15, 0x801d290, &h, &Some("kernel".to_string())),
        " <- sys_recv_stub+0x1e"
    );
    assert_eq!(
        annotation(15, 0x801d290, &h, &Some("idle".to_string())),
        " <- idle:sys_recv_stub+0x1e"
    );
    assert_eq!(annotation(0, 0x801d290, &None, &None), "");
}

#[test]
fn register_names() {
    assert_eq!(register_name(0), Some("R0".to_string()));
    assert_eq!(register_name(12), Some("R12".to_string()));
    assert_eq!(register_name(13), Some("SP".to_string()));
    assert_eq!(register_name(15), Some("PC".to_string()));
    assert_eq!(register_name(16), Some("xPSR".to_string()));
    assert_eq!(register_name(19), None);
    assert_eq!(register_name(20), Some("SPR".to_string()));
    assert_eq!(register_name(21), None);
    let defined = (0..31u16).filter(|i| register_name(*i).is_some()).count();
    assert_eq!(defined, 20);
}

#[test]
fn register_values_padded() {
    assert_eq!(register_value(0, &String::new()), "0x0        ");
    assert_eq!(register_value(0x2000_6000, &String::new()), "0x20006000 ");
    assert_eq!(register_value(0x801c12b, &" <- main+0xef".to_string()), "0x801c12b   <- main+0xef");
}

#[test]
fn register_lines_in_order() {
    let samples = vec![
        RegisterSample { index: 14, value: 0x801c12b, hit: hit("main", 0x801c03c), module: None },
        RegisterSample { index: 16, value: 0x6100_0000, hit: hit("main", 0x801c03c), module: None },
    ];
    assert_eq!(
        register_lines(&samples),
        vec![
            ("LR".to_string(), "0x801c12b   <- main+0xef".to_string()),
            ("xPSR".to_string(), "0x61000000 ".to_string()),
        ]
    );
}

#[test]
fn itm_lines() {
    assert_eq!(itm_line(&None), "absent");
    let t = TraceState { trcena: true, itm_enabled: false, ter: 0 };
    assert_eq!(itm_line(&Some(t)), "TRCENA enabled, TCR disabled, TER=0x0");
    let t = TraceState { trcena: false, itm_enabled: true, ter: 0xffff_ffff };
    assert_eq!(itm_line(&Some(t)), "TRCENA disabled, TCR enabled, TER=0xffffffff");
}

#[test]
fn text_rendering() {
    assert_eq!(hex_string(0), "0");
    assert_eq!(hex_string(255), "ff");
    assert_eq!(hex_string(0xdead_beef), "deadbeef");
    assert_eq!(hex_fixed_string(0x1000, 8), "00001000");
    assert_eq!(hex_fixed_string(0xabc, 2), "bc");
    assert_eq!(dec_string(0), "0");
    assert_eq!(dec_string(1234567890), "1234567890");
    assert_eq!(dec_string(u64::MAX), "18446744073709551615");
    let parts = vec!["a".to_string(), "bc".to_string(), "".to_string(), "d".to_string()];
    assert_eq!(join_strings(&parts, ", "), "a, bc, , d");
    assert_eq!(join_strings(&vec![], ", "), "");
}

fn snapshot(status: StatusRegisters, catalog: Catalog, trace: Option<TraceState>) -> Snapshot {
    Snapshot {
        probe_name: "STLink V3".to_string(),
        probe_serial: None,
        core: CoreVariant::CortexM7,
        vendor: Vendor::St,
        manufacturer: Some("STMicroelectronics".to_string()),
        jep106_cc: 0,
        jep106_id: 0x20,
        part: 0x450,
        chip: ChipRead::Stm32 { family: "STM32H7".to_string(), rev_id: 0x2003 },
        status,
        probe: ProbeOutcome::Failed,
        catalog,
        trace,
    }
}

#[test]
fn halted_with_dwt_and_two_ctis() {
    let c = catalog(&[
        (ComponentKind::Cti, 0x5c01_1000),
        (ComponentKind::Dwt, 0xe000_1000),
        (ComponentKind::Cti, 0xe004_3000),
    ]);
    let lines = header_lines(&snapshot(regs(S_HALT, 0), c, None));
    let get = |label: &str| {
        lines.iter().find(|l| l.0 == label).map(|l| l.1.clone()).unwrap()
    };
    assert_eq!(get("debug units"), "CTI(x2) DWT");
    assert_eq!(get("status"), "halted");
    assert_eq!(get("probe serial"), "-");
    assert_eq!(get("chip"), "STM32H7, revision 0x2003");
    assert_eq!(get("ITM status"), "absent");
    let labels: Vec<&str> = lines.iter().map(|l| l.0.as_str()).collect();
    assert_eq!(
        labels,
        vec![
            "probe", "probe serial", "core", "manufacturer", "chip", "status", "debug units",
            "CTI", "DWT", "ITM status"
        ]
    );
}

#[test]
fn header_with_itm_and_probe() {
    let c = catalog(&[(ComponentKind::Itm, 0xe000_0000)]);
    let t = TraceState { trcena: true, itm_enabled: true, ter: 3 };
    let mut s = snapshot(regs(0, 0), c, Some(t));
    s.probe = ProbeOutcome::Sampled { before: 1, after: 3 };
    s.probe_serial = Some("003700303137511139383538".to_string());
    let lines = header_lines(&s);
    assert_eq!(lines[1].1, "003700303137511139383538");
    assert_eq!(lines[5], ("status".to_string(), "progressing".to_string()));
    assert_eq!(lines[7], ("ITM".to_string(), "0xe0000000".to_string()));
    assert_eq!(lines[8], ("ITM status".to_string(), "TRCENA enabled, TCR enabled, TER=0x3".to_string()));
}

fn drive(events: &[ProbeEvent]) -> Vec<ProbeAction> {
    let (mut stage, action) = begin();
    let mut actions = vec![action];
    for e in events {
        let (s, a) = next(stage, *e);
        stage = s;
        actions.push(a);
    }
    actions
}

#[test]
fn probe_machine_unchanged_pc() {
    let actions = drive(&[
        ProbeEvent::Done,
        ProbeEvent::Value(0x800_0100),
        ProbeEvent::Done,
        ProbeEvent::Value(0x800_0100),
        ProbeEvent::Done,
    ]);
    let o = ProbeOutcome::Sampled { before: 0x800_0100, after: 0x800_0100 };
    assert_eq!(
        actions,
        vec![
            ProbeAction::Halt,
            ProbeAction::ReadPc,
            ProbeAction::Step,
            ProbeAction::ReadPc,
            ProbeAction::Run,
            ProbeAction::Report(o),
        ]
    );
    assert_eq!(progress_verdict(&o), "not progressing");
}

#[test]
fn probe_machine_moving_pc() {
    let actions = drive(&[
        ProbeEvent::Done,
        ProbeEvent::Value(0x800_0100),
        ProbeEvent::Done,
        ProbeEvent::Value(0x800_0102),
        ProbeEvent::Done,
    ]);
    let o = ProbeOutcome::Sampled { before: 0x800_0100, after: 0x800_0102 };
    assert_eq!(actions.last(), Some(&ProbeAction::Report(o)));
    assert_eq!(progress_verdict(&o), "progressing");
}

#[test]
fn probe_machine_step_failure_resumes() {
    let actions = drive(&[ProbeEvent::Done, ProbeEvent::Value(0x100), ProbeEvent::Failed, ProbeEvent::Done]);
    assert_eq!(
        actions,
        vec![
            ProbeAction::Halt,
            ProbeAction::ReadPc,
            ProbeAction::Step,
            ProbeAction::Run,
            ProbeAction::Report(ProbeOutcome::Failed),
        ]
    );
    assert_eq!(progress_verdict(&ProbeOutcome::Failed), "unable to step");
}

#[test]
fn probe_machine_halt_failure_resumes() {
    let actions = drive(&[ProbeEvent::Failed, ProbeEvent::Done]);
    assert_eq!(
        actions,
        vec![ProbeAction::Halt, ProbeAction::Run, ProbeAction::Report(ProbeOutcome::Failed)]
    );
}

#[test]
fn probe_machine_resume_failure_aborts() {
    let (s, a) = next(ProbeStage::Resuming { outcome: ProbeOutcome::Failed }, ProbeEvent::Failed);
    assert_eq!(a, ProbeAction::Abort);
    assert_eq!(s, ProbeStage::Aborted);
    assert_eq!(next(s, ProbeEvent::Done), (ProbeStage::Aborted, ProbeAction::Abort));
}
