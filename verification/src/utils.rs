//! The links to the multi-search sites, built from a roster and a region.

use crate::lobby::{Lobby, Participant};
use crate::text::same_text;
use vstd::prelude::*;
use vstd::string::*;
use vstd::utf8::encode_utf8;

verus! {

/// The multi-search sites.
#[derive(Clone, Copy, Debug, PartialEq, Eq)]
pub enum Provider {
    Opgg,
    Deeplol,
    Ugg,
    Tracker,
}

/// The byte stands for itself in a URL: a letter, a digit, `-`, `.`, `_` or `~`.
pub open spec fn is_unreserved(byte: u8) -> bool {
    ||| 48 <= byte <= 57
    ||| 65 <= byte <= 90
    ||| 97 <= byte <= 122
    ||| byte == 45
    ||| byte == 46
    ||| byte == 95
    ||| byte == 126
}

/// The upper-case hexadecimal digit for a value below sixteen.
pub open spec fn hex_digit(digit: u8) -> char {
    if digit < 10 {
        (48 + digit) as char
    } else {
        (55 + digit) as char
    }
}

/// One byte as it stands in a URL: itself, or `%` and its two hexadecimal digits.
pub open spec fn escape_of(byte: u8) -> Seq<char> {
    if is_unreserved(byte) {
        seq![byte as char]
    } else {
        seq!['%', hex_digit(byte / 16), hex_digit(byte % 16)]
    }
}

/// Bytes as they stand in a URL, each escaped by itself.
pub open spec fn percent_encoded(bytes: Seq<u8>) -> Seq<char>
    decreases bytes.len(),
{
    if bytes.len() == 0 {
        Seq::empty()
    } else {
        percent_encoded(bytes.drop_last()) + escape_of(bytes.last())
    }
}

/// Text as it stands in a URL: the bytes of its UTF-8 form, percent-encoded.
pub open spec fn url_encoded(text: Seq<char>) -> Seq<char> {
    percent_encoded(encode_utf8(text))
}

/// The lower-case form that the standard library gives to a text.
pub uninterp spec fn lowercase_of(text: Seq<char>) -> Seq<char>;

/// `urlencoding::encode`: percent-encodes every byte of the text's UTF-8 form
/// but letters, digits, `-`, `.`, `_` and `~`, with upper-case hexadecimal
/// digits.
#[verifier::external_body]
fn url_encode(text: &str) -> (encoded: String)
    ensures
        encoded@ == url_encoded(text@),
{
    urlencoding::encode(text).into_owned()
}

/// Standard library call `str::to_lowercase`: the result is a function of the
/// text alone, here named `lowercase_of`.
#[verifier::external_body]
fn lowercase(text: &str) -> (lowered: String)
    ensures
        lowered@ == lowercase_of(text@),
{
    text.to_lowercase()
}

/// A participant's name on a site: game name and tag with `separator` between them.
pub open spec fn full_tag(participant: Participant, separator: Seq<char>) -> Seq<char> {
    participant.game_name@ + separator + participant.game_tag@
}

/// The names of `summoners` on a site, in their order, with a comma between
/// each two.
pub open spec fn joined_tags(summoners: Seq<Participant>, separator: Seq<char>) -> Seq<char>
    decreases summoners.len(),
{
    if summoners.len() == 0 {
        Seq::empty()
    } else if summoners.len() == 1 {
        full_tag(summoners[0], separator)
    } else {
        joined_tags(summoners.drop_last(), separator) + ","@ + full_tag(summoners.last(), separator)
    }
}

/// The op.gg multi-search link for `summoners` in `region`.
pub open spec fn opgg_link(summoners: Seq<Participant>, region: Seq<char>) -> Seq<char> {
    "https://www.op.gg/multisearch/"@ + region + "?summoners="@ + url_encoded(
        joined_tags(summoners, "#"@),
    )
}

/// The deeplol.gg multi-search link for `summoners` in `region`.
pub open spec fn deeplol_link(summoners: Seq<Participant>, region: Seq<char>) -> Seq<char> {
    "https://deeplol.gg/multi/"@ + region + "/"@ + url_encoded(joined_tags(summoners, "#"@))
}

/// The u.gg multi-search link for `summoners` in the region whose lower-case
/// name is `lowered_region`.
pub open spec fn ugg_link(summoners: Seq<Participant>, lowered_region: Seq<char>) -> Seq<char> {
    "https://u.gg/multisearch?region="@ + lowered_region + "&summoners="@ + url_encoded(
        joined_tags(summoners, "-"@),
    )
}

/// The tracker.gg multi-search link for `summoners` in `region`.
pub open spec fn tracker_link(summoners: Seq<Participant>, region: Seq<char>) -> Seq<char> {
    "https://tracker.gg/lol/multisearch/"@ + region + "/"@ + url_encoded(
        joined_tags(summoners, "#"@),
    )
}

/// The site that the settings name by `site`, if they name one.
pub open spec fn provider_of(site: Seq<char>) -> Option<Provider> {
    if site == "opgg"@ {
        Some(Provider::Opgg)
    } else if site == "deeplol"@ {
        Some(Provider::Deeplol)
    } else if site == "ugg"@ {
        Some(Provider::Ugg)
    } else if site == "tracker"@ {
        Some(Provider::Tracker)
    } else {
        None
    }
}

/// The link of site `provider` for `summoners` in `region`. The u.gg site
/// names a region by its lower-case name with `1` behind it.
pub open spec fn link_of(provider: Provider, summoners: Seq<Participant>, region: Seq<char>)
    -> Seq<char> {
    match provider {
        Provider::Opgg => opgg_link(summoners, region),
        Provider::Deeplol => deeplol_link(summoners, region),
        Provider::Ugg => ugg_link(summoners, lowercase_of(region + "1"@)),
        Provider::Tracker => tracker_link(summoners, region),
    }
}

/// One participant in the line that shows a team: name, `#`, tag, and the
/// chat name in parentheses.
pub open spec fn team_entry(participant: Participant) -> Seq<char> {
    participant.game_name@ + "#"@ + participant.game_tag@ + " ("@ + participant.name@ + ")"@
}

/// The line that shows the first `count` participants of a team: their
/// entries, each followed by a comma and a space unless its chat name is that
/// of the team's last participant.
pub open spec fn team_line_of(summoners: Seq<Participant>, count: int) -> Seq<char>
    decreases count,
{
    if count <= 0 {
        Seq::empty()
    } else {
        team_line_of(summoners, count - 1) + team_entry(summoners[count - 1]) + (if summoners[count
            - 1].name@ != summoners.last().name@ {
            ", "@
        } else {
            Seq::empty()
        })
    }
}

/// Joins the names of `summoners`, each written with `separator` between game
/// name and tag, by commas.
fn join_tags(summoners: &Vec<Participant>, separator: &str) -> (path: String)
    ensures
        path@ == joined_tags(summoners@, separator@),
{
    let mut path = String::new();
    let mut i: usize = 0;
    while i < summoners.len()
        invariant
            i <= summoners.len(),
            path@ == joined_tags(summoners@.take(i as int), separator@),
        decreases summoners.len() - i,
    {
        let summoner = &summoners[i];
        let ghost before = path@;
        if i > 0 {
            path.append(",");
        }
        path.append(summoner.game_name.as_str());
        path.append(separator);
        path.append(summoner.game_tag.as_str());
        proof {
            let next = summoners@.take(i + 1);
            assert(next.drop_last() =~= summoners@.take(i as int));
            assert(next.last() == *summoner);
            if i == 0 {
                assert(before =~= Seq::<char>::empty());
                assert(next[0] == *summoner);
                assert(path@ =~= full_tag(*summoner, separator@));
            } else {
                assert(path@ =~= before + ","@ + full_tag(*summoner, separator@));
            }
        }
        i = i + 1;
    }
    assert(summoners@.take(i as int) =~= summoners@);
    path
}

/// The op.gg multi-search link for `summoners` in `region`: the names as
/// `name#tag`, joined by commas and URL-encoded.
pub fn create_opgg_link(summoners: &Vec<Participant>, region: &str) -> (link: String)
    ensures
        link@ == opgg_link(summoners@, region@),
{
    let path = join_tags(summoners, "#");
    let encoded = url_encode(path.as_str());
    let mut link = String::from_str("https://www.op.gg/multisearch/");
    link.append(region);
    link.append("?summoners=");
    link.append(encoded.as_str());
    link
}

/// The deeplol.gg multi-search link for `summoners` in `region`: the names as
/// `name#tag`, joined by commas and URL-encoded.
pub fn create_deeplol_link(summoners: &Vec<Participant>, region: &str) -> (link: String)
    ensures
        link@ == deeplol_link(summoners@, region@),
{
    let path = join_tags(summoners, "#");
    let encoded = url_encode(path.as_str());
    let mut link = String::from_str("https://deeplol.gg/multi/");
    link.append(region);
    link.append("/");
    link.append(encoded.as_str());
    link
}

/// The u.gg multi-search link for `summoners` in the region whose lower-case
/// name is `lowered_region`: the names as `name-tag`, joined by commas and
/// URL-encoded.
pub fn ugg_link_for(summoners: &Vec<Participant>, lowered_region: &str) -> (link: String)
    ensures
        link@ == ugg_link(summoners@, lowered_region@),
{
    let path = join_tags(summoners, "-");
    let encoded = url_encode(path.as_str());
    let mut link = String::from_str("https://u.gg/multisearch?region=");
    link.append(lowered_region);
    link.append("&summoners=");
    link.append(encoded.as_str());
    link
}

/// The u.gg multi-search link for `summoners` in `region`, which the site
/// names in lower case.
pub fn create_ugg_link(summoners: &Vec<Participant>, region: String) -> (link: String)
    ensures
        link@ == ugg_link(summoners@, lowercase_of(region@)),
{
    let lowered = lowercase(region.as_str());
    ugg_link_for(summoners, lowered.as_str())
}

/// The tracker.gg multi-search link for `summoners` in `region`: the names as
/// `name#tag`, joined by commas and URL-encoded.
pub fn create_tracker_link(summoners: &Vec<Participant>, region: &str) -> (link: String)
    ensures
        link@ == tracker_link(summoners@, region@),
{
    let path = join_tags(summoners, "#");
    let encoded = url_encode(path.as_str());
    let mut link = String::from_str("https://tracker.gg/lol/multisearch/");
    link.append(region);
    link.append("/");
    link.append(encoded.as_str());
    link
}

impl Provider {
    /// Reads the site that the settings name; `None` where they name no known site.
    pub fn from_name(site: &str) -> (provider: Option<Provider>)
        ensures
            provider == provider_of(site@),
    {
        if same_text(site, "opgg") {
            Some(Provider::Opgg)
        } else if same_text(site, "deeplol") {
            Some(Provider::Deeplol)
        } else if same_text(site, "ugg") {
            Some(Provider::Ugg)
        } else if same_text(site, "tracker") {
            Some(Provider::Tracker)
        } else {
            None
        }
    }
}

/// The multi-search link of site `provider` for `summoners` in `region`.
pub fn multi_search_link(provider: Provider, summoners: &Vec<Participant>, region: &str) -> (link:
    String)
    ensures
        link@ == link_of(provider, summoners@, region@),
{
    match provider {
        Provider::Opgg => create_opgg_link(summoners, region),
        Provider::Deeplol => create_deeplol_link(summoners, region),
        Provider::Ugg => {
            let mut numbered = String::from_str(region);
            numbered.append("1");
            create_ugg_link(summoners, numbered)
        },
        Provider::Tracker => create_tracker_link(summoners, region),
    }
}

/// The line that shows a team: every participant as `name#tag (chat name)`.
pub fn team_line(lobby: &Lobby) -> (line: String)
    ensures
        line@ == team_line_of(lobby.participants@, lobby.participants@.len() as int),
{
    let mut line = String::new();
    let count = lobby.participants.len();
    let mut i: usize = 0;
    while i < count
        invariant
            count == lobby.participants@.len(),
            i <= count,
            line@ == team_line_of(lobby.participants@, i as int),
        decreases count - i,
    {
        let summoner = &lobby.participants[i];
        let last = &lobby.participants[count - 1];
        let ghost before = line@;
        line.append(summoner.game_name.as_str());
        line.append("#");
        line.append(summoner.game_tag.as_str());
        line.append(" (");
        line.append(summoner.name.as_str());
        line.append(")");
        assert(line@ =~= before + team_entry(*summoner));
        if summoner.name != last.name {
            line.append(", ");
        } else {
            assert(line@ =~= before + team_entry(*summoner) + Seq::<char>::empty());
        }
        i = i + 1;
    }
    line
}

/// The link to open for the team in `lobby`: none for an empty lobby,
/// otherwise the link of the site that the settings name by `site`. A lobby
/// with participants needs a known site.
pub fn champ_select_link(lobby: &Lobby, region: &str, site: &str) -> (link: Option<String>)
    requires
        lobby.participants@.len() > 0 ==> provider_of(site@) is Some,
    ensures
        link is Some <==> lobby.participants@.len() > 0,
        link is Some ==> link->0@ == link_of(provider_of(site@)->0, lobby.participants@, region@),
{
    if lobby.participants.len() == 0 {
        return None;
    }
    match Provider::from_name(site) {
        Some(provider) => Some(multi_search_link(provider, &lobby.participants, region)),
        None => None,
    }
}

} // verus!
