//! Stock logos come from Parqet's symbol-keyed CDN.

use vstd::prelude::*;

verus! {

/// Base of the logo CDN.
pub const LOGO_BASE_URL: &'static str = "https://assets.parqet.com/logos/symbol/";

/// The CDN URL of `symbol`'s logo. Symbols without a logo answer 404, which
/// the image loader drops silently.
pub fn url_for(symbol: &str) -> (r: String)
    ensures
        r@ == LOGO_BASE_URL@ + symbol@,
{
    let mut url = String::from_str(LOGO_BASE_URL);
    url.append(symbol);
    url
}

} // verus!
