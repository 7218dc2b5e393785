//! The register dump: which register indices are defined, and the symbolic
//! annotation of values that may be code addresses.
use vstd::prelude::*;
use crate::text::{dec, dec_string, hex, hex_string};

verus! {

/// Register indices below this bound are dumped.
pub const REGISTER_INDEX_END: u16 = 31;

/// Indices below this bound (general-purpose registers, SP, LR and PC) are annotated.
pub const ANNOTATED_END: u16 = 16;

/// The name of the core register that the debug register selector `i`
/// designates, if one is defined.
pub open spec fn register_name_of(i: u16) -> Option<Seq<char>> {
    if i <= 12 {
        Some("R"@ + dec(i as nat))
    } else if i == 13 {
        Some("SP"@)
    } else if i == 14 {
        Some("LR"@)
    } else if i == 15 {
        Some("PC"@)
    } else if i == 16 {
        Some("xPSR"@)
    } else if i == 17 {
        Some("MSP"@)
    } else if i == 18 {
        Some("PSP"@)
    } else if i == 20 {
        Some("SPR"@)
    } else {
        None
    }
}

/// The name of the register at selector `i`, if one is defined.
pub fn register_name(i: u16) -> (r: Option<String>)
    ensures
        r matches Some(s) ==> register_name_of(i) == Some(s@),
        r is None ==> register_name_of(i) is None,
{
    if i <= 12 {
        let mut s = String::from_str("R");
        let d = dec_string(i as u64);
        s.append(d.as_str());
        Some(s)
    } else if i == 13 {
        Some(String::from_str("SP"))
    } else if i == 14 {
        Some(String::from_str("LR"))
    } else if i == 15 {
        Some(String::from_str("PC"))
    } else if i == 16 {
        Some(String::from_str("xPSR"))
    } else if i == 17 {
        Some(String::from_str("MSP"))
    } else if i == 18 {
        Some(String::from_str("PSP"))
    } else if i == 20 {
        Some(String::from_str("SPR"))
    } else {
        None
    }
}

/// A symbol that the symbol table places an address in: its name and base.
pub struct SymbolHit {
    pub symbol: String,
    pub base: u32,
}

/// The module prefix: the module and a colon, unless it is the kernel.
pub open spec fn module_prefix(module: Option<Seq<char>>) -> Seq<char> {
    match module {
        Some(m) => if m == "kernel"@ {
            Seq::empty()
        } else {
            m + ":"@
        },
        None => Seq::empty(),
    }
}

/// The annotation of the value `val` of register `i`, given the symbol that
/// holds it, if any, and its module: ` <- module:symbol+0xoffset`, for the
/// first sixteen registers only; otherwise nothing.
pub open spec fn annotation_text(
    i: u16,
    val: u32,
    hit: Option<(Seq<char>, u32)>,
    module: Option<Seq<char>>,
) -> Seq<char> {
    if i < ANNOTATED_END {
        match hit {
            Some((sym, base)) => " <- "@ + module_prefix(module) + sym + "+0x"@ + hex(
                (val - base) as nat,
            ),
            None => Seq::empty(),
        }
    } else {
        Seq::empty()
    }
}

/// The view of an optional symbol hit.
pub open spec fn hit_view(hit: &Option<SymbolHit>) -> Option<(Seq<char>, u32)> {
    match hit {
        Some(h) => Some((h.symbol@, h.base)),
        None => None,
    }
}

/// The view of an optional string.
pub open spec fn opt_view(s: &Option<String>) -> Option<Seq<char>> {
    match s {
        Some(m) => Some(m@),
        None => None,
    }
}

/// Renders the annotation of the value `val` of register `i`; a hit's base
/// lies at or below the value it was looked up for.
pub fn annotation(i: u16, val: u32, hit: &Option<SymbolHit>, module: &Option<String>) -> (r: String)
    requires
        hit matches Some(h) ==> h.base <= val,
    ensures
        r@ == annotation_text(i, val, hit_view(hit), opt_view(module)),
{
    if i >= ANNOTATED_END {
        return String::new();
    }
    match hit {
        None => String::new(),
        Some(h) => {
            let mut r = String::from_str(" <- ");
            match module {
                Some(m) => {
                    let kernel = String::from_str("kernel");
                    if !(*m == kernel) {
                        r.append(m.as_str());
                        r.append(":");
                    }
                },
                None => {},
            }
            r.append(h.symbol.as_str());
            r.append("+0x");
            let x = hex_string(val - h.base);
            r.append(x.as_str());
            r
        },
    }
}

/// `s` padded with trailing spaces to at least `w` characters.
pub open spec fn pad_right(s: Seq<char>, w: nat) -> Seq<char> {
    if s.len() < w {
        s + Seq::new((w - s.len()) as nat, |_k: int| ' ')
    } else {
        s
    }
}

/// A register's value text: `0x`, its hexadecimal digits padded to eight
/// places, a space, and its annotation.
pub open spec fn register_value_text(val: u32, note: Seq<char>) -> Seq<char> {
    "0x"@ + pad_right(hex(val as nat), 8) + " "@ + note
}

/// Renders a register's value text.
pub fn register_value(val: u32, note: &String) -> (r: String)
    ensures
        r@ == register_value_text(val, note@),
{
    let mut r = String::from_str("0x");
    let h = hex_string(val);
    r.append(h.as_str());
    let ghost start = r@;
    let mut n: usize = h.as_str().unicode_len();
    while n < 8
        invariant
            h@.len() <= n <= 8 || (n == h@.len() && n >= 8),
            r@ == start + Seq::new((n - h@.len()) as nat, |_k: int| ' '),
        decreases 8 - n,
    {
        r.append(" ");
        proof {
            reveal_strlit(" ");
        }
        assert(r@ =~= start + Seq::new((n + 1 - h@.len()) as nat, |_k: int| ' '));
        n = n + 1;
    }
    assert(r@ =~= "0x"@ + pad_right(hex(val as nat), 8));
    r.append(" ");
    r.append(note.as_str());
    r
}


/// Registers at index sixteen and above are never annotated, whatever the
/// symbol table says of their values.
pub proof fn lemma_no_annotation_past_pc(
    i: u16,
    val: u32,
    hit: Option<(Seq<char>, u32)>,
    module: Option<Seq<char>>,
)
    requires
        i >= ANNOTATED_END,
    ensures
        annotation_text(i, val, hit, module).len() == 0,
{
}

} // verus!
