//! The instrumentation trace macrocell (ITM) state line.
use vstd::prelude::*;
use crate::text::{hex, hex_string};

verus! {

/// The three trace facts: DEMCR.TRCENA, ITM_TCR.ITMENA and ITM_TER.
#[derive(Clone, Copy, Debug, PartialEq, Eq)]
pub struct TraceState {
    pub trcena: bool,
    pub itm_enabled: bool,
    pub ter: u32,
}

/// The trace facts as one comma-joined description.
pub open spec fn trace_text(t: TraceState) -> Seq<char> {
    (if t.trcena {
        "TRCENA enabled"@
    } else {
        "TRCENA disabled"@
    }) + ", "@ + (if t.itm_enabled {
        "TCR enabled"@
    } else {
        "TCR disabled"@
    }) + ", TER=0x"@ + hex(t.ter as nat)
}

/// The ITM line: "absent" when the catalog holds no ITM, else its state.
pub open spec fn itm_text(state: Option<TraceState>) -> Seq<char> {
    match state {
        None => "absent"@,
        Some(t) => trace_text(t),
    }
}

/// Renders the ITM line; `state` is `None` when no ITM is present.
pub fn itm_line(state: &Option<TraceState>) -> (r: String)
    ensures
        r@ == itm_text(*state),
{
    match state {
        None => String::from_str("absent"),
        Some(t) => {
            let mut r = if t.trcena {
                String::from_str("TRCENA enabled")
            } else {
                String::from_str("TRCENA disabled")
            };
            r.append(", ");
            if t.itm_enabled {
                r.append("TCR enabled");
            } else {
                r.append("TCR disabled");
            }
            r.append(", TER=0x");
            let h = hex_string(t.ter);
            r.append(h.as_str());
            r
        },
    }
}

} // verus!
