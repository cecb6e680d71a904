//! Security-type classification from the free-text type and name fields
//! the provider and the exchange directories report.
//!
//! Classification is keyword-based and ASCII case-insensitive: an exact
//! match against the keyword table wins, then the first keyword that
//! occurs as a substring, then `Other`.

use vstd::prelude::*;
use crate::codec::SecurityType;
use crate::text;

verus! {

/// Number of entries in the keyword table.
pub open spec fn spec_table_len() -> int {
    32
}

/// The classification keyword at a table position.
pub open spec fn spec_pat(i: int) -> Seq<char> {
    if i == 0 {
        "equity"@
    } else if i == 1 {
        "common stock"@
    } else if i == 2 {
        "ordinary shares"@
    } else if i == 3 {
        "common shares"@
    } else if i == 4 {
        "option"@
    } else if i == 5 {
        "future"@
    } else if i == 6 {
        "warrant"@
    } else if i == 7 {
        "wt"@
    } else if i == 8 {
        "wrnt"@
    } else if i == 9 {
        "mutual fund"@
    } else if i == 10 {
        "american depositary shares"@
    } else if i == 11 {
        "adr"@
    } else if i == 12 {
        "depositary sh"@
    } else if i == 13 {
        "dep shs"@
    } else if i == 14 {
        "bond"@
    } else if i == 15 {
        "subordinated debentures"@
    } else if i == 16 {
        "senior notes"@
    } else if i == 17 {
        "floating rate"@
    } else if i == 18 {
        "notes"@
    } else if i == 19 {
        "preferred"@
    } else if i == 20 {
        "pfd"@
    } else if i == 21 {
        "etf"@
    } else if i == 22 {
        "etn"@
    } else if i == 23 {
        "exchange traded note"@
    } else if i == 24 {
        "lp common units representing limited partner interests"@
    } else if i == 25 {
        "common units representing limited partner interests"@
    } else if i == 26 {
        "trust"@
    } else if i == 27 {
        "fund"@
    } else if i == 28 {
        "crypto"@
    } else if i == 29 {
        "forei"@
    } else if i == 30 {
        "fx"@
    } else {
        "swap"@
    }
}

/// The security type the keyword at a table position classifies to.
pub open spec fn spec_pat_type(i: int) -> SecurityType {
    if i == 0 || i == 1 || i == 2 || i == 3 {
        SecurityType::Equity
    } else if i == 4 {
        SecurityType::Option
    } else if i == 5 {
        SecurityType::Future
    } else if i == 6 || i == 7 || i == 8 {
        SecurityType::Warrant
    } else if i == 9 {
        SecurityType::MutualFund
    } else if i == 10 || i == 11 || i == 12 || i == 13 {
        SecurityType::Adr
    } else if i == 14 || i == 15 || i == 16 || i == 17 || i == 18 {
        SecurityType::Bond
    } else if i == 19 || i == 20 {
        SecurityType::Preferred
    } else if i == 21 || i == 22 || i == 23 {
        SecurityType::Etf
    } else if i == 24 || i == 25 || i == 26 || i == 27 {
        SecurityType::MutualFund
    } else if i == 28 {
        SecurityType::Crypto
    } else if i == 29 || i == 30 {
        SecurityType::Fx
    } else {
        SecurityType::Swap
    }
}

/// The keyword and type at a table position.
fn table_entry(i: usize) -> (r: (&'static str, SecurityType))
    requires
        i < spec_table_len(),
    ensures
        r.0@ == spec_pat(i as int),
        r.1 == spec_pat_type(i as int),
{
    match i {
        0 => ("equity", SecurityType::Equity),
        1 => ("common stock", SecurityType::Equity),
        2 => ("ordinary shares", SecurityType::Equity),
        3 => ("common shares", SecurityType::Equity),
        4 => ("option", SecurityType::Option),
        5 => ("future", SecurityType::Future),
        6 => ("warrant", SecurityType::Warrant),
        7 => ("wt", SecurityType::Warrant),
        8 => ("wrnt", SecurityType::Warrant),
        9 => ("mutual fund", SecurityType::MutualFund),
        10 => ("american depositary shares", SecurityType::Adr),
        11 => ("adr", SecurityType::Adr),
        12 => ("depositary sh", SecurityType::Adr),
        13 => ("dep shs", SecurityType::Adr),
        14 => ("bond", SecurityType::Bond),
        15 => ("subordinated debentures", SecurityType::Bond),
        16 => ("senior notes", SecurityType::Bond),
        17 => ("floating rate", SecurityType::Bond),
        18 => ("notes", SecurityType::Bond),
        19 => ("preferred", SecurityType::Preferred),
        20 => ("pfd", SecurityType::Preferred),
        21 => ("etf", SecurityType::Etf),
        22 => ("etn", SecurityType::Etf),
        23 => ("exchange traded note", SecurityType::Etf),
        24 => ("lp common units representing limited partner interests", SecurityType::MutualFund),
        25 => ("common units representing limited partner interests", SecurityType::MutualFund),
        26 => ("trust", SecurityType::MutualFund),
        27 => ("fund", SecurityType::MutualFund),
        28 => ("crypto", SecurityType::Crypto),
        29 => ("forei", SecurityType::Fx),
        30 => ("fx", SecurityType::Fx),
        _ => ("swap", SecurityType::Swap),
    }
}

/// The first exact (case-folded) table match at or after position `i`.
pub open spec fn spec_exact_from(s: Seq<char>, i: int) -> Option<SecurityType>
    decreases spec_table_len() - i,
{
    if i < 0 || i >= spec_table_len() {
        None
    } else if text::spec_lower(s) == text::spec_lower(spec_pat(i)) {
        Some(spec_pat_type(i))
    } else {
        spec_exact_from(s, i + 1)
    }
}

/// The first substring (case-folded) table match at or after position `i`.
pub open spec fn spec_sub_from(s: Seq<char>, i: int) -> Option<SecurityType>
    decreases spec_table_len() - i,
{
    if i < 0 || i >= spec_table_len() {
        None
    } else if text::spec_contains_seq(text::spec_lower(s), text::spec_lower(spec_pat(i))) {
        Some(spec_pat_type(i))
    } else {
        spec_sub_from(s, i + 1)
    }
}

/// What a free-text security type string classifies to: an exact
/// keyword match first, then the first keyword found as a substring,
/// then `Other`.
pub open spec fn spec_from_string(s: Seq<char>) -> SecurityType {
    match spec_exact_from(s, 0) {
        Some(t) => t,
        None => match spec_sub_from(s, 0) {
            Some(t) => t,
            None => SecurityType::Other,
        },
    }
}

/// The display name of a security type.
pub open spec fn spec_display_name(t: SecurityType) -> Seq<char> {
    match t {
        SecurityType::Equity => "Equity"@,
        SecurityType::Bond => "Bond"@,
        SecurityType::Option => "Option"@,
        SecurityType::Future => "Future"@,
        SecurityType::Etf => "ETF"@,
        SecurityType::MutualFund => "Mutual Fund"@,
        SecurityType::Crypto => "Crypto"@,
        SecurityType::Fx => "FX"@,
        SecurityType::Swap => "Swap"@,
        SecurityType::Warrant => "Warrant"@,
        SecurityType::Adr => "ADR"@,
        SecurityType::Preferred => "Preferred"@,
        SecurityType::Other => "Other"@,
    }
}

/// The coarse type the provider's own type field names, before any
/// name-based override.
pub open spec fn spec_base_type(ts: Seq<char>) -> SecurityType {
    if text::spec_lower(ts) == text::spec_lower("equity"@) {
        SecurityType::Equity
    } else if text::spec_lower(ts) == text::spec_lower("etf"@) {
        SecurityType::Etf
    } else if text::spec_lower(ts) == text::spec_lower("mutual fund"@) {
        SecurityType::MutualFund
    } else {
        SecurityType::Other
    }
}

/// Detailed classification from the type field and the security name:
/// name keywords for ADR, warrant and preferred take precedence over
/// the type field.
pub open spec fn spec_classify_detailed(ts: Seq<char>, name: Seq<char>) -> (SecurityType, Seq<
    char,
>) {
    let ln = text::spec_lower(name);
    if text::spec_contains_seq(ln, text::spec_lower("adr"@)) {
        (SecurityType::Adr, "ADR"@)
    } else if text::spec_contains_seq(ln, text::spec_lower("warrant"@)) || text::spec_contains_seq(
        ln,
        text::spec_lower("wrnt"@),
    ) {
        (SecurityType::Warrant, "Warrant"@)
    } else if text::spec_contains_seq(ln, text::spec_lower("pfd"@)) || text::spec_contains_seq(
        ln,
        text::spec_lower("preferred"@),
    ) {
        (SecurityType::Preferred, "Preferred"@)
    } else {
        (spec_base_type(ts), spec_display_name(spec_base_type(ts)))
    }
}

impl SecurityType {
    /// The display name of this security type.
    pub fn display_name(&self) -> (r: String)
        ensures
            r@ == spec_display_name(*self),
    {
        match self {
            SecurityType::Equity => String::from_str("Equity"),
            SecurityType::Bond => String::from_str("Bond"),
            SecurityType::Option => String::from_str("Option"),
            SecurityType::Future => String::from_str("Future"),
            SecurityType::Etf => String::from_str("ETF"),
            SecurityType::MutualFund => String::from_str("Mutual Fund"),
            SecurityType::Crypto => String::from_str("Crypto"),
            SecurityType::Fx => String::from_str("FX"),
            SecurityType::Swap => String::from_str("Swap"),
            SecurityType::Warrant => String::from_str("Warrant"),
            SecurityType::Adr => String::from_str("ADR"),
            SecurityType::Preferred => String::from_str("Preferred"),
            SecurityType::Other => String::from_str("Other"),
        }
    }

    /// Classify a security type from its free-text representation.
    pub fn from_string(s: &str) -> (r: Self)
        ensures
            r == spec_from_string(s@),
    {
        let mut i: usize = 0;
        while i < 32
            invariant
                0 <= i <= 32,
                spec_exact_from(s@, 0) == spec_exact_from(s@, i as int),
            decreases 32 - i,
        {
            let (pat, t) = table_entry(i);
            if text::str_eq_ci(s, pat) {
                return t;
            }
            i += 1;
        }
        let mut j: usize = 0;
        while j < 32
            invariant
                0 <= j <= 32,
                spec_exact_from(s@, 0) is None,
                spec_sub_from(s@, 0) == spec_sub_from(s@, j as int),
            decreases 32 - j,
        {
            let (pat, t) = table_entry(j);
            if text::contains_ci(s, pat) {
                return t;
            }
            j += 1;
        }
        SecurityType::Other
    }

    /// Detailed classification from the type field and the name; the
    /// second component is the type string stored with the record.
    pub fn classify_detailed(type_str: &str, name: &str) -> (r: (Self, String))
        ensures
            r.0 == spec_classify_detailed(type_str@, name@).0,
            r.1@ == spec_classify_detailed(type_str@, name@).1,
    {
        if text::contains_ci(name, "adr") {
            (SecurityType::Adr, String::from_str("ADR"))
        } else if text::contains_ci(name, "warrant") || text::contains_ci(name, "wrnt") {
            (SecurityType::Warrant, String::from_str("Warrant"))
        } else if text::contains_ci(name, "pfd") || text::contains_ci(name, "preferred") {
            (SecurityType::Preferred, String::from_str("Preferred"))
        } else {
            let base = if text::str_eq_ci(type_str, "equity") {
                SecurityType::Equity
            } else if text::str_eq_ci(type_str, "etf") {
                SecurityType::Etf
            } else if text::str_eq_ci(type_str, "mutual fund") {
                SecurityType::MutualFund
            } else {
                SecurityType::Other
            };
            let name_string = base.display_name();
            (base, name_string)
        }
    }
}

} // verus!
