//! Core, manufacturer and chip identity: dispatch on (vendor, core) to the
//! vendor's identification register, and decoding of what it held.
use vstd::prelude::*;
use crate::text::{dec, dec_string, hex, hex_string};

verus! {

/// The silicon vendor that the core's ROM table names.
#[derive(Clone, Copy, Debug, PartialEq, Eq, Structural)]
pub enum Vendor {
    Arm,
    St,
    Nxp,
    Other,
}

/// The architectural core variant.
#[derive(Clone, Copy, Debug, PartialEq, Eq, Structural)]
pub enum CoreVariant {
    CortexM0,
    CortexM0Plus,
    CortexM3,
    CortexM4,
    CortexM7,
    CortexM33,
    Unknown,
}

/// The layout of a vendor's identification register(s).
#[derive(Clone, Copy, Debug, PartialEq, Eq, Structural)]
pub enum IdScheme {
    /// STM32G0 DBGMCU_IDCODE.
    Stm32G0,
    /// STM32F4 DBGMCU_IDCODE.
    Stm32F4,
    /// STM32H7 DBGMCU_IDC.
    Stm32H7,
    /// LPC55 SYSCON DIEID and DEVICE_ID0.
    Lpc55,
}

/// What was read from the identification register(s), decoded.
#[derive(Debug, PartialEq, Eq)]
pub enum ChipRead {
    /// An STM32 IDCODE: the family that its device id names, and its
    /// revision id.
    Stm32 { family: String, rev_id: u32 },
    /// LPC55 DEVICE_ID0's ROM revision and DIEID's revision id.
    Lpc55 { rom_revision: u32, rev_id: u32 },
    /// A read failed.
    Failed,
}

/// The known (vendor, core) pairs, each with its identification scheme.
pub open spec fn scheme_rows() -> Seq<(Vendor, CoreVariant, IdScheme)> {
    seq![
        (Vendor::Arm, CoreVariant::CortexM0Plus, IdScheme::Stm32G0),
        (Vendor::St, CoreVariant::CortexM4, IdScheme::Stm32F4),
        (Vendor::St, CoreVariant::CortexM7, IdScheme::Stm32H7),
        (Vendor::Nxp, CoreVariant::CortexM33, IdScheme::Lpc55),
    ]
}

/// The scheme of the first row of `rows` that matches (vendor, core).
pub open spec fn scheme_in(rows: Seq<(Vendor, CoreVariant, IdScheme)>, v: Vendor, c: CoreVariant) -> Option<IdScheme>
    decreases rows.len(),
{
    if rows.len() == 0 {
        None
    } else if rows[0].0 == v && rows[0].1 == c {
        Some(rows[0].2)
    } else {
        scheme_in(rows.drop_first(), v, c)
    }
}

/// The identification scheme for (vendor, core), if the pair is known.
pub open spec fn scheme_for(v: Vendor, c: CoreVariant) -> Option<IdScheme> {
    scheme_in(scheme_rows(), v, c)
}

/// The table of known (vendor, core) pairs.
fn scheme_table() -> (r: Vec<(Vendor, CoreVariant, IdScheme)>)
    ensures
        r@ == scheme_rows(),
{
    let r = vec![
        (Vendor::Arm, CoreVariant::CortexM0Plus, IdScheme::Stm32G0),
        (Vendor::St, CoreVariant::CortexM4, IdScheme::Stm32F4),
        (Vendor::St, CoreVariant::CortexM7, IdScheme::Stm32H7),
        (Vendor::Nxp, CoreVariant::CortexM33, IdScheme::Lpc55),
    ];
    assert(r@ =~= scheme_rows());
    r
}

/// Looks (vendor, core) up in the table of known pairs.
pub fn id_scheme(v: Vendor, c: CoreVariant) -> (r: Option<IdScheme>)
    ensures
        r == scheme_for(v, c),
{
    let rows = scheme_table();
    let mut i: usize = 0;
    assert(rows@.skip(0) =~= rows@);
    while i < rows.len()
        invariant
            i <= rows.len(),
            rows@ == scheme_rows(),
            scheme_for(v, c) == scheme_in(rows@.skip(i as int), v, c),
        decreases rows.len() - i,
    {
        assert(rows@.skip(i as int).drop_first() =~= rows@.skip(i as int + 1));
        if rows[i].0 == v && rows[i].1 == c {
            return Some(rows[i].2);
        }
        i = i + 1;
    }
    None
}

/// The name of an LPC55 silicon revision.
pub open spec fn lpc55_revision(rev_id: u32) -> Seq<char> {
    if rev_id == 0 {
        "0A"@
    } else if rev_id == 1 {
        "1B"@
    } else {
        "<unknown>"@
    }
}

/// What a failed or missing identification read reports, before the part code.
pub open spec fn fallback_prefix(s: Option<IdScheme>) -> Seq<char> {
    match s {
        Some(IdScheme::Stm32G0) => "<unknown ARM part 0x"@,
        Some(IdScheme::Stm32F4) | Some(IdScheme::Stm32H7) => "<unknown ST part 0x"@,
        Some(IdScheme::Lpc55) => "<unknown NXP M33 0x"@,
        None => "<unknown part 0x"@,
    }
}

/// The opaque chip text that carries the raw part code.
pub open spec fn fallback_text(s: Option<IdScheme>, part: u32) -> Seq<char> {
    fallback_prefix(s) + hex(part as nat) + ">"@
}

/// The chip line for a core of vendor `v` and variant `c` whose vendor part
/// code is `part`, given what was read from the identification register(s).
pub open spec fn chip_text(v: Vendor, c: CoreVariant, read: ChipRead, part: u32) -> Seq<char> {
    let s = scheme_for(v, c);
    match (s, read) {
        (Some(IdScheme::Lpc55), ChipRead::Lpc55 { rom_revision, rev_id }) => "LPC55, ROM revision "@
            + dec(rom_revision as nat) + ", device revision 0x"@ + hex(rev_id as nat) + " ("@
            + lpc55_revision(rev_id) + ")"@,
        (Some(IdScheme::Lpc55), _) => fallback_text(s, part),
        (Some(_), ChipRead::Stm32 { family, rev_id }) => family@ + ", revision 0x"@ + hex(
            rev_id as nat,
        ),
        _ => fallback_text(s, part),
    }
}

/// The fallback chip text.
fn fallback_string(s: Option<IdScheme>, part: u32) -> (r: String)
    ensures
        r@ == fallback_text(s, part),
{
    let mut r = match s {
        Some(IdScheme::Stm32G0) => String::from_str("<unknown ARM part 0x"),
        Some(IdScheme::Stm32F4) | Some(IdScheme::Stm32H7) => String::from_str("<unknown ST part 0x"),
        Some(IdScheme::Lpc55) => String::from_str("<unknown NXP M33 0x"),
        None => String::from_str("<unknown part 0x"),
    };
    let h = hex_string(part);
    r.append(h.as_str());
    r.append(">");
    r
}

/// The chip line: the family and revision that the vendor's identification
/// register gives, or an opaque text with the raw part code when the
/// (vendor, core) pair is unknown or the read failed.
pub fn chip_line(v: Vendor, c: CoreVariant, read: &ChipRead, part: u32) -> (r: String)
    ensures
        r@ == chip_text(v, c, *read, part),
{
    let s = id_scheme(v, c);
    match (s, read) {
        (Some(IdScheme::Lpc55), ChipRead::Lpc55 { rom_revision, rev_id }) => {
            let mut r = String::from_str("LPC55, ROM revision ");
            let d = dec_string(*rom_revision as u64);
            r.append(d.as_str());
            r.append(", device revision 0x");
            let h = hex_string(*rev_id);
            r.append(h.as_str());
            r.append(" (");
            if *rev_id == 0 {
                r.append("0A");
            } else if *rev_id == 1 {
                r.append("1B");
            } else {
                r.append("<unknown>");
            }
            r.append(")");
            r
        },
        (Some(IdScheme::Lpc55), _) => fallback_string(s, part),
        (Some(_), ChipRead::Stm32 { family, rev_id }) => {
            let mut r = family.clone();
            r.append(", revision 0x");
            let h = hex_string(*rev_id);
            r.append(h.as_str());
            r
        },
        _ => fallback_string(s, part),
    }
}

/// The manufacturer line: the name that the JEP106 code resolves to, or the
/// raw (continuation count, identity code) pair when it resolves to none.
pub open spec fn manufacturer_text(name: Option<Seq<char>>, cc: u8, id: u8) -> Seq<char> {
    match name {
        Some(n) => n,
        None => "<JEP106 [0x"@ + hex(cc as nat) + ", 0x"@ + hex(id as nat) + "]>"@,
    }
}

/// Renders the manufacturer line.
pub fn manufacturer_line(name: Option<String>, cc: u8, id: u8) -> (r: String)
    ensures
        r@ == manufacturer_text(
            match name {
                Some(n) => Some(n@),
                None => None,
            },
            cc,
            id,
        ),
{
    match name {
        Some(n) => n,
        None => {
            let mut r = String::from_str("<JEP106 [0x");
            let a = hex_string(cc as u32);
            r.append(a.as_str());
            r.append(", 0x");
            let b = hex_string(id as u32);
            r.append(b.as_str());
            r.append("]>");
            r
        },
    }
}

/// The name of a core variant.
pub open spec fn core_name(c: CoreVariant) -> Seq<char> {
    match c {
        CoreVariant::CortexM0 => "Cortex-M0"@,
        CoreVariant::CortexM0Plus => "Cortex-M0+"@,
        CoreVariant::CortexM3 => "Cortex-M3"@,
        CoreVariant::CortexM4 => "Cortex-M4"@,
        CoreVariant::CortexM7 => "Cortex-M7"@,
        CoreVariant::CortexM33 => "Cortex-M33"@,
        CoreVariant::Unknown => "<unknown>"@,
    }
}

impl CoreVariant {
    /// The name of this core variant.
    pub fn name(&self) -> (r: String)
        ensures
            r@ == core_name(*self),
    {
        let s = match self {
            CoreVariant::CortexM0 => "Cortex-M0",
            CoreVariant::CortexM0Plus => "Cortex-M0+",
            CoreVariant::CortexM3 => "Cortex-M3",
            CoreVariant::CortexM4 => "Cortex-M4",
            CoreVariant::CortexM7 => "Cortex-M7",
            CoreVariant::CortexM33 => "Cortex-M33",
            CoreVariant::Unknown => "<unknown>",
        };
        String::from_str(s)
    }
}


/// A known (vendor, core) pair with an STM32 identification register always
/// resolves to the family that the device id names and the revision id in
/// hexadecimal; an unknown pair always resolves to the opaque text that
/// carries the raw part code.
pub proof fn lemma_chip_resolution(
    v: Vendor,
    c: CoreVariant,
    family: String,
    rev_id: u32,
    part: u32,
)
    ensures
        scheme_for(v, c) matches Some(s) && !(s is Lpc55) ==> chip_text(
            v,
            c,
            ChipRead::Stm32 { family, rev_id },
            part,
        ) == family@ + ", revision 0x"@ + hex(rev_id as nat),
        scheme_for(v, c) is None ==> chip_text(v, c, ChipRead::Stm32 { family, rev_id }, part)
            == "<unknown part 0x"@ + hex(part as nat) + ">"@,
        scheme_for(v, c) is None ==> chip_text(v, c, ChipRead::Failed, part) == "<unknown part 0x"@
            + hex(part as nat) + ">"@,
        scheme_for(v, c) is Some ==> chip_text(v, c, ChipRead::Failed, part) == fallback_prefix(
            scheme_for(v, c),
        ) + hex(part as nat) + ">"@,
{
}

} // verus!
