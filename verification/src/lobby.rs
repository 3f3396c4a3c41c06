//! The roster of a champ-select room, taken from the chat participants that
//! the client lists.

use crate::text::{contains_text, occurs_in};
use vstd::prelude::*;

verus! {

/// One participant of a chat room.
#[derive(Clone, Debug)]
pub struct Participant {
    /// The chat room that the participant is in.
    pub cid: String,
    pub game_name: String,
    pub game_tag: String,
    pub muted: bool,
    pub name: String,
    pub pid: String,
    pub puuid: String,
    pub region: String,
}

/// The participants of the rooms that the client lists, in its order.
#[derive(Clone, Debug)]
pub struct Lobby {
    pub participants: Vec<Participant>,
}

/// The participant sits in a champ-select room: the room's id says so.
pub open spec fn in_champ_select_room(participant: Participant) -> bool {
    occurs_in("champ-select"@, participant.cid@)
}

/// The test `in_champ_select_room` as a value.
pub open spec fn champ_select_room() -> spec_fn(Participant) -> bool {
    |participant: Participant| in_champ_select_room(participant)
}

impl Participant {
    /// A copy of the participant, field by field.
    pub fn duplicate(&self) -> (copy: Participant)
        ensures
            copy == *self,
    {
        Participant {
            cid: self.cid.clone(),
            game_name: self.game_name.clone(),
            game_tag: self.game_tag.clone(),
            muted: self.muted,
            name: self.name.clone(),
            pid: self.pid.clone(),
            puuid: self.puuid.clone(),
            region: self.region.clone(),
        }
    }
}

impl Lobby {
    /// A copy of the lobby, participant by participant.
    pub fn duplicate(&self) -> (copy: Lobby)
        ensures
            copy.participants@ == self.participants@,
    {
        let mut participants: Vec<Participant> = Vec::new();
        let mut i: usize = 0;
        while i < self.participants.len()
            invariant
                i <= self.participants.len(),
                participants@ == self.participants@.take(i as int),
            decreases self.participants.len() - i,
        {
            participants.push(self.participants[i].duplicate());
            assert(self.participants@.take(i + 1) =~= self.participants@.take(i as int).push(
                self.participants@[i as int],
            ));
            i = i + 1;
        }
        assert(self.participants@.take(i as int) =~= self.participants@);
        Lobby { participants }
    }

    /// The roster of the champ-select room: of all the participants that the
    /// client lists, those that sit in a champ-select room, in their order.
    pub fn champ_select_team(&self) -> (team: Lobby)
        ensures
            team.participants@ == self.participants@.filter(champ_select_room()),
    {
        let mut participants: Vec<Participant> = Vec::new();
        let mut i: usize = 0;
        while i < self.participants.len()
            invariant
                i <= self.participants.len(),
                participants@ == self.participants@.take(i as int).filter(champ_select_room()),
            decreases self.participants.len() - i,
        {
            let participant = &self.participants[i];
            proof {
                assert(self.participants@.take(i + 1) =~= self.participants@.take(i as int).push(
                    *participant,
                ));
                self.participants@.take(i as int).lemma_filter_push(
                    *participant,
                    champ_select_room(),
                );
            }
            if contains_text(participant.cid.as_str(), "champ-select") {
                participants.push(participant.duplicate());
            }
            i = i + 1;
        }
        assert(self.participants@.take(i as int) =~= self.participants@);
        Lobby { participants }
    }
}

} // verus!
