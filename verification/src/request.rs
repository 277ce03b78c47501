//! The request that retrieves a year's results page.

use crate::decimal::{decimal, push_decimal};
use vstd::prelude::*;
use vstd::string::StringExecFns;

verus! {

/// The address of the results listing, up to the year.
pub const RESULTS_URL: &'static str = "https://www.footballdb.com/games/index.html?lg=NFL&yr=";

/// The client identification that the request carries, that of a browser: the
/// site turns other clients away.
pub const USER_AGENT: &'static str =
    "Mozilla/5.0 (Windows NT 10.0; Win64; x64) AppleWebKit/537.36 (KHTML, like Gecko) Chrome/88.0.4324.150 Safari/537.36";

/// The address of the results page of a year: the address of the listing,
/// followed by the year in decimal notation. Every year is accepted.
pub open spec fn url_of(year: u32) -> Seq<char> {
    RESULTS_URL@ + decimal(year as int)
}

/// The address of the results page of a year.
pub fn box_scores_url(year: u32) -> (url: String)
    ensures
        url@ == url_of(year),
{
    let mut url = RESULTS_URL.to_owned();
    push_decimal(&mut url, year as i64);
    url
}

} // verus!
