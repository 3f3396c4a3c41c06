//! The lifecycle phase of the client, read from the bare string that it sends.

use crate::text::same_text;
use vstd::prelude::*;

verus! {

/// A lifecycle phase. A string that names none of the known phases is kept as
/// it came, so that a phase of a later client passes through unchanged.
#[derive(Clone, Debug)]
pub enum ClientPhase {
    /// No game flow is going on; the client names this phase `None`.
    Idle,
    Lobby,
    Matchmaking,
    ReadyCheck,
    ChampSelect,
    InProgress,
    EndOfGame,
    Unknown(String),
}

/// A phase without the text of an unknown one.
#[derive(Clone, Copy, Debug, PartialEq, Eq)]
pub enum PhaseKind {
    Idle,
    Lobby,
    Matchmaking,
    ReadyCheck,
    ChampSelect,
    InProgress,
    EndOfGame,
    Unknown,
}

/// The kind of phase that the string `name` stands for.
pub open spec fn kind_of(name: Seq<char>) -> PhaseKind {
    if name == "None"@ {
        PhaseKind::Idle
    } else if name == "Lobby"@ {
        PhaseKind::Lobby
    } else if name == "Matchmaking"@ {
        PhaseKind::Matchmaking
    } else if name == "ReadyCheck"@ {
        PhaseKind::ReadyCheck
    } else if name == "ChampSelect"@ {
        PhaseKind::ChampSelect
    } else if name == "InProgress"@ {
        PhaseKind::InProgress
    } else if name == "EndOfGame"@ {
        PhaseKind::EndOfGame
    } else {
        PhaseKind::Unknown
    }
}

impl ClientPhase {
    /// The phase without the text of an unknown one.
    pub open spec fn kind(self) -> PhaseKind {
        match self {
            ClientPhase::Idle => PhaseKind::Idle,
            ClientPhase::Lobby => PhaseKind::Lobby,
            ClientPhase::Matchmaking => PhaseKind::Matchmaking,
            ClientPhase::ReadyCheck => PhaseKind::ReadyCheck,
            ClientPhase::ChampSelect => PhaseKind::ChampSelect,
            ClientPhase::InProgress => PhaseKind::InProgress,
            ClientPhase::EndOfGame => PhaseKind::EndOfGame,
            ClientPhase::Unknown(_) => PhaseKind::Unknown,
        }
    }

    /// The string by which the client names the phase.
    pub open spec fn name(self) -> Seq<char> {
        match self {
            ClientPhase::Idle => "None"@,
            ClientPhase::Lobby => "Lobby"@,
            ClientPhase::Matchmaking => "Matchmaking"@,
            ClientPhase::ReadyCheck => "ReadyCheck"@,
            ClientPhase::ChampSelect => "ChampSelect"@,
            ClientPhase::InProgress => "InProgress"@,
            ClientPhase::EndOfGame => "EndOfGame"@,
            ClientPhase::Unknown(raw) => raw@,
        }
    }

    /// An unknown phase holds a string that names no known phase.
    pub open spec fn wf(self) -> bool {
        self is Unknown ==> kind_of(self.name()) == PhaseKind::Unknown
    }

    /// Reads a phase from the string that the client sent. No string is
    /// refused: one that names no known phase comes back as `Unknown`, with the
    /// string in it.
    pub fn parse(raw: &str) -> (phase: ClientPhase)
        ensures
            phase.name() == raw@,
            phase.kind() == kind_of(raw@),
            phase.wf(),
    {
        if same_text(raw, "None") {
            ClientPhase::Idle
        } else if same_text(raw, "Lobby") {
            ClientPhase::Lobby
        } else if same_text(raw, "Matchmaking") {
            ClientPhase::Matchmaking
        } else if same_text(raw, "ReadyCheck") {
            ClientPhase::ReadyCheck
        } else if same_text(raw, "ChampSelect") {
            ClientPhase::ChampSelect
        } else if same_text(raw, "InProgress") {
            ClientPhase::InProgress
        } else if same_text(raw, "EndOfGame") {
            ClientPhase::EndOfGame
        } else {
            ClientPhase::Unknown(raw.to_owned())
        }
    }

    /// The string by which the client names the phase.
    pub fn as_string(&self) -> (name: String)
        ensures
            name@ == self.name(),
    {
        match self {
            ClientPhase::Idle => "None".to_owned(),
            ClientPhase::Lobby => "Lobby".to_owned(),
            ClientPhase::Matchmaking => "Matchmaking".to_owned(),
            ClientPhase::ReadyCheck => "ReadyCheck".to_owned(),
            ClientPhase::ChampSelect => "ChampSelect".to_owned(),
            ClientPhase::InProgress => "InProgress".to_owned(),
            ClientPhase::EndOfGame => "EndOfGame".to_owned(),
            ClientPhase::Unknown(raw) => raw.clone(),
        }
    }

    /// The phase without the text of an unknown one.
    pub fn to_kind(&self) -> (kind: PhaseKind)
        ensures
            kind == self.kind(),
    {
        match self {
            ClientPhase::Idle => PhaseKind::Idle,
            ClientPhase::Lobby => PhaseKind::Lobby,
            ClientPhase::Matchmaking => PhaseKind::Matchmaking,
            ClientPhase::ReadyCheck => PhaseKind::ReadyCheck,
            ClientPhase::ChampSelect => PhaseKind::ChampSelect,
            ClientPhase::InProgress => PhaseKind::InProgress,
            ClientPhase::EndOfGame => PhaseKind::EndOfGame,
            ClientPhase::Unknown(_) => PhaseKind::Unknown,
        }
    }
}

/// Reading loses nothing: the name of a well-formed phase stands for the kind
/// of that very phase, so a phase written out and read again is the same phase.
pub proof fn law_name_round_trip(phase: ClientPhase)
    requires
        phase.wf(),
    ensures
        kind_of(phase.name()) == phase.kind(),
{
    reveal_strlit("None");
    reveal_strlit("Lobby");
    reveal_strlit("Matchmaking");
    reveal_strlit("ReadyCheck");
    reveal_strlit("ChampSelect");
    reveal_strlit("InProgress");
    reveal_strlit("EndOfGame");
    assert("None"@.len() == 4);
    assert("Lobby"@.len() == 5);
    assert("Matchmaking"@.len() == 11 && "Matchmaking"@[0] == 'M');
    assert("ReadyCheck"@.len() == 10 && "ReadyCheck"@[0] == 'R');
    assert("ChampSelect"@.len() == 11 && "ChampSelect"@[0] == 'C');
    assert("InProgress"@.len() == 10 && "InProgress"@[0] == 'I');
    assert("EndOfGame"@.len() == 9);
}

} // verus!
