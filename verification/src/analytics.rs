//! The report that is sent once a roster is complete.

use crate::lobby::{Lobby, Participant};
use crate::region::RegionInfo;
use crate::summoner::{riot_id_of, Summoner};
use vstd::prelude::*;

verus! {

/// Seconds after which an unanswered report is given up.
pub const ANALYTICS_TIMEOUT_SECS: u64 = 5;

/// What one report holds.
#[derive(Clone, Debug)]
pub struct AnalyticsEvent {
    /// The complete roster.
    pub select: Lobby,
    /// The full name of the summoner who reports.
    pub from: String,
    /// The web region of the client.
    pub region: String,
}

/// Puts the report together: the roster as it is, the reporting summoner's
/// full name, and the client's web region.
pub fn analytics_event(team: &Lobby, summoner: &Summoner, region: &RegionInfo) -> (event:
    AnalyticsEvent)
    ensures
        event.select.participants@ == team.participants@,
        event.from@ == riot_id_of(summoner.game_name@, summoner.tag_line@),
        event.region@ == region.web_region@,
{
    AnalyticsEvent {
        select: team.duplicate(),
        from: summoner.riot_id(),
        region: region.web_region.clone(),
    }
}

} // verus!
