//! The signed-in summoner as the client reports it.

use vstd::prelude::*;
use vstd::string::*;

verus! {

/// The signed-in summoner.
#[derive(Clone, Debug)]
pub struct Summoner {
    pub account_id: i64,
    pub display_name: String,
    pub game_name: String,
    pub internal_name: String,
    pub name_change_flag: bool,
    pub percent_complete_for_next_level: i64,
    pub privacy: String,
    pub profile_icon_id: i64,
    pub puuid: String,
    pub reroll_points: RerollPoints,
    pub summoner_id: i64,
    pub summoner_level: i64,
    pub tag_line: String,
    pub unnamed: bool,
    pub xp_since_last_level: i64,
    pub xp_until_next_level: i64,
}

/// The summoner's reroll account.
#[derive(Clone, Copy, Debug)]
pub struct RerollPoints {
    pub current_points: i64,
    pub max_rolls: i64,
    pub number_of_rolls: i64,
    pub points_cost_to_roll: i64,
    pub points_to_reroll: i64,
}

/// A game name and a tag line as one name: the two with `#` between them.
pub open spec fn riot_id_of(game_name: Seq<char>, tag_line: Seq<char>) -> Seq<char> {
    game_name + "#"@ + tag_line
}

impl Summoner {
    /// The summoner's full name: game name, `#`, tag line.
    pub fn riot_id(&self) -> (name: String)
        ensures
            name@ == riot_id_of(self.game_name@, self.tag_line@),
    {
        let mut name = self.game_name.clone();
        name.append("#");
        name.append(self.tag_line.as_str());
        name
    }
}

} // verus!
