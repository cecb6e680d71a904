//! Top-movers data: the gainer/loser/most-active lists the provider
//! reports, their store constants, and the integer parsing their
//! ingestion relies on. Prices arrive as quoted strings and stay
//! strings here; whoever persists them parses the decimals.

use vstd::prelude::*;
use crate::errors::SyncError;
use crate::text;

verus! {

/// The three top-performer lists.
#[derive(Clone, Copy, PartialEq, Eq, Debug, Structural)]
pub enum TopType {
    TopGainer,
    TopLoser,
    TopActive,
}

impl TopType {
    /// The identifier of this list.
    pub fn as_str(&self) -> (r: &'static str)
        ensures
            self is TopGainer ==> r@ == "top_gainer"@,
            self is TopLoser ==> r@ == "top_loser"@,
            self is TopActive ==> r@ == "top_active"@,
    {
        match self {
            TopType::TopGainer => "top_gainer",
            TopType::TopLoser => "top_loser",
            TopType::TopActive => "top_active",
        }
    }
}

/// The constant stored with a top-performer row of each list.
pub open spec fn spec_top_constant(t: TopType) -> Seq<char> {
    match t {
        TopType::TopGainer => "GAIN"@,
        TopType::TopLoser => "LOSE"@,
        TopType::TopActive => "ACTV"@,
    }
}

/// Get the store constant for a top-performer list.
pub fn top_constants(top_type: &TopType) -> (r: String)
    ensures
        r@ == spec_top_constant(*top_type),
{
    match top_type {
        TopType::TopGainer => String::from_str("GAIN"),
        TopType::TopLoser => String::from_str("LOSE"),
        TopType::TopActive => String::from_str("ACTV"),
    }
}

/// One top gainer as the provider quotes it.
#[derive(Clone, Debug, Default)]
pub struct TopGainer {
    pub ticker: String,
    pub price: String,
    pub change_amount: String,
    pub change_percentage: String,
    pub volume: String,
}

/// One top loser as the provider quotes it.
#[derive(Clone, Debug, Default)]
pub struct TopLoser {
    pub ticker: String,
    pub price: String,
    pub change_amount: String,
    pub change_percentage: String,
    pub volume: String,
}

/// One most-actively-traded entry as the provider quotes it.
#[derive(Clone, Debug, Default)]
pub struct MostActivelyTraded {
    pub ticker: String,
    pub price: String,
    pub change_amount: String,
    pub change_percentage: String,
    pub volume: String,
}

/// A whole top-movers response.
#[derive(Clone, Debug, Default)]
pub struct Root {
    pub metadata: String,
    pub last_updated: String,
    pub top_gainers: Vec<TopGainer>,
    pub top_losers: Vec<TopLoser>,
    pub most_actively_traded: Vec<MostActivelyTraded>,
}

/// Parse an integer field, reporting the field name and the offending
/// value on failure; succeeds exactly on decimal strings in `i32`
/// range.
pub fn parse_i32(value: &str, field_name: &str) -> (r: Result<i32, SyncError>)
    ensures
        match r {
            Ok(v) => text::spec_int_str_val(value@) == Some(v as int),
            Err(e) => e is Parse && (text::spec_int_str_val(value@) is None || !{
                let n = text::spec_int_str_val(value@)->Some_0;
                -0x8000_0000 <= n <= 0x7FFF_FFFF
            }),
        },
{
    match text::parse_i32_str(value) {
        Ok(v) => Ok(v),
        Err(_) => Err(SyncError::Parse { field: field_name.to_owned(), value: value.to_owned() }),
    }
}

} // verus!
