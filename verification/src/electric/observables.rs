//! Declared inputs of the electric domain that are whole numbers, and the
//! quantities derived from them exactly.
//!
//! Source: EIA Form 861 / findenergy.com (2019 actuals).

use vstd::prelude::*;

verus! {

/// Customer accounts by class (EIA Form 861, 2019).
pub const CUSTOMERS_RESIDENTIAL: u32 = 14_423;
pub const CUSTOMERS_COMMERCIAL: u32 = 2_068;
pub const CUSTOMERS_INDUSTRIAL: u32 = 25;
pub const CUSTOMERS_TOTAL: u32 = 16_516;

/// Annual energy, MWh (2019 actuals).
pub const RETAIL_SALES_MWH: u64 = 130_286;
pub const TOTAL_DISPOSITION_MWH: u64 = 134_737;

/// Annual revenue, USD (2019 actuals).
pub const TOTAL_REVENUE_USD: u64 = 23_686_000;

/// Disposition-retail gap: total disposition minus retail sales, in MWh.
/// The gap is not confirmed as distribution loss; it may include metering
/// differences, estimation adjustments or other accounting.
pub fn disposition_retail_gap_mwh() -> (r: u64)
    ensures
        r == TOTAL_DISPOSITION_MWH - RETAIL_SALES_MWH,
        r > 0,
{
    TOTAL_DISPOSITION_MWH - RETAIL_SALES_MWH
}

} // verus!
