//! The user's settings, read as an immutable snapshot wherever a decision needs them.

use vstd::prelude::*;

verus! {

/// Settings that the user interface edits and the supervisor only reads.
#[derive(Clone, Debug)]
pub struct Config {
    /// Open the multi-search page by itself once the roster is complete.
    pub auto_open: bool,
    /// Confirm a found match by itself.
    pub auto_accept: bool,
    /// Milliseconds to wait before confirming a found match.
    pub accept_delay: u32,
    /// Name of the multi-search site to open.
    pub multi_provider: String,
}

/// Name of the multi-search site that is used when the settings name none.
pub fn default_provider() -> (name: String)
    ensures
        name@ == "opgg"@,
{
    "opgg".to_owned()
}

impl Default for Config {
    /// The settings of a first start: open links, do not accept, two seconds of
    /// accept delay, the default site.
    fn default() -> (cfg: Config)
        ensures
            cfg.auto_open,
            !cfg.auto_accept,
            cfg.accept_delay == 2000,
            cfg.multi_provider@ == "opgg"@,
    {
        Config {
            auto_open: true,
            auto_accept: false,
            accept_delay: 2000,
            multi_provider: default_provider(),
        }
    }
}

} // verus!
