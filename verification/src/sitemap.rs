//! The search-engine ping that announces a freshly deployed site's
//! sitemap index.  Building the address is verified; sending the request
//! is the surrounding process's work.

use vstd::prelude::*;
use crate::encoding::{pct_encoded_all, percent_encode_non_alphanumeric};

verus! {

use vstd::string::StringExecFns;
use vstd::string::StringSliceAdditionalSpecFns;
use vstd::utf8::encode_utf8;

/// The ping address for one site: the search engine's endpoint with the
/// site's sitemap-index address percent-encoded into the query.
pub fn sitemap_ping_url(domain: &str) -> (r: String)
    ensures
        r@ == "https://www.google.com/ping?sitemap="@ + pct_encoded_all(
            encode_utf8("https://"@ + domain@ + "/sitemap-index.xml"@),
        ),
{
    let mut target = "https://".to_owned();
    target.append(domain);
    target.append("/sitemap-index.xml");
    let encoded = percent_encode_non_alphanumeric(target.as_str().as_bytes());
    let mut url = "https://www.google.com/ping?sitemap=".to_owned();
    url.append(encoded.as_str());
    url
}

} // verus!
