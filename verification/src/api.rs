//! The addresses that the companion talks to: the paths of the client's local
//! API, and the URLs of the companion's own service.

use vstd::prelude::*;
use vstd::string::*;

verus! {

/// Path of the current lifecycle phase.
pub const GAMEFLOW_PHASE_PATH: &'static str = "/lol-gameflow/v1/gameflow-phase";

/// Path of the current champ-select session.
pub const CHAMP_SELECT_SESSION_PATH: &'static str = "/lol-champ-select/v1/session";

/// Path of the chat participants.
pub const PARTICIPANTS_PATH: &'static str = "/chat/v5/participants";

/// Path of the client's region and locale.
pub const REGION_LOCALE_PATH: &'static str = "/riotclient/region-locale";

/// Path of the signed-in summoner.
pub const CURRENT_SUMMONER_PATH: &'static str = "/lol-summoner/v1/current-summoner";

/// Path that accepts a found match.
pub const ACCEPT_MATCH_PATH: &'static str = "/lol-matchmaking/v1/ready-check/accept";

/// Path that abandons the match in champ select.
pub const QUIT_MATCH_PATH: &'static str =
    "/lol-login/v1/session/invoke?destination=lcdsServiceProxy&method=call&args=[\"\",\"teambuilder-draft\",\"quitV2\",\"\"]";

/// URL that takes the report of a complete roster.
pub const ANALYTICS_URL: &'static str = "https://hyperboost.gg/api/reveal/collect";

/// The URL of `path` under `base_url`.
pub open spec fn endpoint_of(base_url: Seq<char>, path: Seq<char>) -> Seq<char> {
    base_url + "/"@ + path
}

/// The name under which version `version` of the companion introduces itself.
pub open spec fn user_agent_of(version: Seq<char>) -> Seq<char> {
    "Reveal/"@ + version
}

/// The URL of `path` under `base_url`: the two with a slash between them.
pub fn endpoint_url(base_url: &str, path: &str) -> (url: String)
    ensures
        url@ == endpoint_of(base_url@, path@),
{
    let mut url = String::from_str(base_url);
    url.append("/");
    url.append(path);
    url
}

/// The name under which version `version` of the companion introduces itself.
pub fn user_agent(version: &str) -> (agent: String)
    ensures
        agent@ == user_agent_of(version@),
{
    let mut agent = String::from_str("Reveal/");
    agent.append(version);
    agent
}

} // verus!
