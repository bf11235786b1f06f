//! CAISO NP15 wholesale price structure faced by Lompoc Electric, and the
//! flat retail rate it charges: the whole-number declared inputs and the
//! quantities derived from them exactly.

use vstd::prelude::*;

verus! {

/// Declared wholesale prices, USD per MWh (O-W01 on-peak, O-W02 off-peak).
pub const WHOLESALE_PEAK_USD_PER_MWH: u64 = 38;
pub const WHOLESALE_OFFPEAK_USD_PER_MWH: u64 = 23;

/// Peak window definition (O-W03, O-W04).
pub const PEAK_HOURS_PER_WEEKDAY: u32 = 16;  // HE 7-22
pub const OFFPEAK_HOURS_PER_WEEKDAY: u32 = 8;  // HE 1-6, 23-24
pub const PEAK_HOURS_PER_WEEKEND: u32 = 0;  // Sundays/holidays all off-peak
pub const OFFPEAK_HOURS_PER_WEEKEND: u32 = 24;

/// Flat retail rate, USD per MWh ($0.29/kWh), no time-of-use (O-W05, O-W06).
pub const RETAIL_FLAT_RATE_USD_PER_MWH: u64 = 290;

/// Annual retail throughput, MWh (O-W07).
pub const ANNUAL_RETAIL_MWH: u64 = 130_286;

/// Declared peak hours per year: about 261 weekdays/Saturdays × 16 hours.
pub const PEAK_HOURS_PER_YEAR: u32 = 4_176;
pub const OFFPEAK_HOURS_PER_YEAR: u32 = 4_584;

/// What Lompoc charges at retail for its annual throughput: the same flat
/// rate regardless of hour, in USD.
pub fn retail_revenue_annual() -> (r: u64)
    ensures
        r == ANNUAL_RETAIL_MWH * RETAIL_FLAT_RATE_USD_PER_MWH,
{
    ANNUAL_RETAIL_MWH * RETAIL_FLAT_RATE_USD_PER_MWH
}

} // verus!
