//! The region that the client reports, and the region under which the
//! multi-search sites know it.

use crate::text::same_text;
use vstd::prelude::*;

verus! {

/// The region and locale of the client.
#[derive(Clone, Debug)]
pub struct RegionInfo {
    pub locale: String,
    pub region: String,
    pub web_language: String,
    pub web_region: String,
}

/// The region under which the multi-search sites know the web region
/// `web_region`: the sites call `SG2` plain `SG`, and every other region by
/// its own name.
pub open spec fn search_region_of(web_region: Seq<char>) -> Seq<char> {
    if web_region == "SG2"@ {
        "SG"@
    } else {
        web_region
    }
}

impl RegionInfo {
    /// The region under which the multi-search sites know this client's region.
    pub fn search_region(&self) -> (region: String)
        ensures
            region@ == search_region_of(self.web_region@),
    {
        if same_text(self.web_region.as_str(), "SG2") {
            "SG".to_owned()
        } else {
            self.web_region.clone()
        }
    }
}

} // verus!
