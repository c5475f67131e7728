//! The user-tunable query settings: how many items to fetch and for which
//! market. Reading and writing their on-disk form is the caller's
//! business.

use vstd::prelude::*;
use vstd::string::StringExecFns;

verus! {

/// How many items list requests ask for, and the market they are scoped
/// to.
#[derive(Clone, Debug)]
pub struct Settings {
    pub limit: u32,
    pub market: String,
}

impl Default for Settings {
    /// Five items, United States market.
    fn default() -> (s: Settings)
        ensures
            s.limit == 5,
            s.market@ == "US"@,
    {
        Settings { limit: 5, market: String::from_str("US") }
    }
}

} // verus!
