//! The champ-select tracker: turns the roster sizes seen during a match into
//! roster updates and one final milestone, with which the multi-search page is
//! opened where the settings want it.

use crate::config::Config;
use crate::text::{same_text, strip_quotes, without_quotes};
use vstd::prelude::*;

verus! {

/// Number of participants at which a roster counts as complete.
pub const EXPECTED_ROSTER_SIZE: usize = 5;

/// Milliseconds between two polls of the roster.
pub const ROSTER_POLL_INTERVAL_MS: u64 = 2000;

/// What the tracker remembers between two observations.
#[derive(Clone, Copy, Debug)]
pub struct RosterTracker {
    /// The match that the next three fields speak of, if any was seen yet.
    pub game_id: Option<u64>,
    /// Largest roster size seen so far in this match.
    pub last_participant_count: usize,
    /// The multi-search page was opened for this match.
    pub auto_opened: bool,
    /// The client left champ select before the roster of this match was complete.
    pub stopped: bool,
    /// The match for which the final milestone fired last.
    pub finished: Option<u64>,
}

/// What one observation asks the caller to do.
#[derive(Clone, Copy, Debug)]
pub struct RosterStep {
    /// Publish the roster seen so far: it grew.
    pub roster_update: bool,
    /// Open the multi-search page for the complete roster.
    pub auto_open: bool,
    /// The roster is complete: report it, once per match.
    pub final_roster: bool,
    /// Observe again after `ROSTER_POLL_INTERVAL_MS`.
    pub keep_polling: bool,
}

/// What can reach the tracker: an observation of the roster of a match, and
/// the news that the client left the champ select of a match.
pub enum TrackerEvent {
    Observed { game_id: u64, count: usize },
    Left { game_id: u64 },
}

impl RosterStep {
    /// The step that asks for nothing.
    pub open spec fn nothing() -> RosterStep {
        RosterStep { roster_update: false, auto_open: false, final_roster: false, keep_polling: false }
    }
}

impl RosterTracker {
    /// A tracker that has seen no match.
    pub open spec fn idle() -> RosterTracker {
        RosterTracker {
            game_id: None,
            last_participant_count: 0,
            auto_opened: false,
            stopped: false,
            finished: None,
        }
    }

    /// The tracker at the start of match `game_id`: nothing seen of it, and the
    /// match that finished last still remembered.
    pub open spec fn started(self, game_id: u64) -> RosterTracker {
        RosterTracker {
            game_id: Some(game_id),
            last_participant_count: 0,
            auto_opened: false,
            stopped: false,
            finished: self.finished,
        }
    }

    /// The tracker as it stands for match `game_id`: itself if it already
    /// follows that match, at the start of it otherwise.
    pub open spec fn scoped_to(self, game_id: u64) -> RosterTracker {
        if self.game_id == Some(game_id) {
            self
        } else {
            self.started(game_id)
        }
    }

    /// The final milestone has fired for the match that the tracker follows.
    pub open spec fn complete(self) -> bool {
        self.game_id is Some && self.finished == self.game_id
    }

    /// The tracker still follows its match: neither complete nor stopped.
    pub open spec fn tracking(self) -> bool {
        !self.complete() && !self.stopped
    }

    /// The fields agree: a complete roster was seen only of a match whose
    /// final milestone fired, the page was opened only for a complete roster,
    /// and nothing was seen while no match is followed.
    pub open spec fn wf(self) -> bool {
        &&& self.last_participant_count >= EXPECTED_ROSTER_SIZE ==> self.complete()
        &&& self.auto_opened ==> self.last_participant_count >= EXPECTED_ROSTER_SIZE
        &&& self.game_id is None ==> self.last_participant_count == 0
    }

    /// What an observation of `count` participants in match `game_id` asks for.
    pub open spec fn step_of(self, game_id: u64, count: usize, auto_open: bool) -> RosterStep {
        let t = self.scoped_to(game_id);
        if !t.tracking() {
            RosterStep::nothing()
        } else {
            RosterStep {
                roster_update: count > t.last_participant_count,
                auto_open: count >= EXPECTED_ROSTER_SIZE && auto_open && !t.auto_opened,
                final_roster: count >= EXPECTED_ROSTER_SIZE,
                keep_polling: count < EXPECTED_ROSTER_SIZE,
            }
        }
    }

    /// The tracker after an observation of `count` participants in match `game_id`.
    pub open spec fn after_observation(self, game_id: u64, count: usize, auto_open: bool)
        -> RosterTracker {
        let t = self.scoped_to(game_id);
        if !t.tracking() {
            t
        } else {
            RosterTracker {
                game_id: t.game_id,
                last_participant_count: if count > t.last_participant_count {
                    count
                } else {
                    t.last_participant_count
                },
                auto_opened: t.auto_opened || (count >= EXPECTED_ROSTER_SIZE && auto_open),
                stopped: false,
                finished: if count >= EXPECTED_ROSTER_SIZE {
                    Some(game_id)
                } else {
                    t.finished
                },
            }
        }
    }

    /// The tracker after the client left the champ select of match `game_id`.
    pub open spec fn after_leaving(self, game_id: u64) -> RosterTracker {
        RosterTracker { stopped: true, ..self.scoped_to(game_id) }
    }

    /// The tracker after the observations `counts`, in their order, all of match `game_id`.
    pub open spec fn after_all(self, game_id: u64, counts: Seq<usize>, auto_open: bool)
        -> RosterTracker
        decreases counts.len(),
    {
        if counts.len() == 0 {
            self
        } else {
            self.after_all(game_id, counts.drop_last(), auto_open).after_observation(
                game_id,
                counts.last(),
                auto_open,
            )
        }
    }

    /// What observation number `k` of `counts` asks for, the earlier ones made.
    pub open spec fn step_at(self, game_id: u64, counts: Seq<usize>, k: int, auto_open: bool)
        -> RosterStep {
        self.after_all(game_id, counts.take(k), auto_open).step_of(game_id, counts[k], auto_open)
    }

    /// How many of the first `k` observations of `counts` fire the final milestone.
    pub open spec fn finals_within(
        self,
        game_id: u64,
        counts: Seq<usize>,
        k: int,
        auto_open: bool,
    ) -> nat
        decreases k,
    {
        if k <= 0 {
            0
        } else {
            self.finals_within(game_id, counts, k - 1, auto_open) + (if self.step_at(
                game_id,
                counts,
                k - 1,
                auto_open,
            ).final_roster {
                1nat
            } else {
                0nat
            })
        }
    }

    /// The tracker after one event.
    pub open spec fn after_event(self, event: TrackerEvent, auto_open: bool) -> RosterTracker {
        match event {
            TrackerEvent::Observed { game_id, count } => self.after_observation(
                game_id,
                count,
                auto_open,
            ),
            TrackerEvent::Left { game_id } => self.after_leaving(game_id),
        }
    }

    /// The tracker after the events `events`, in their order.
    pub open spec fn after_events(self, events: Seq<TrackerEvent>, auto_open: bool)
        -> RosterTracker
        decreases events.len(),
    {
        if events.len() == 0 {
            self
        } else {
            self.after_events(events.drop_last(), auto_open).after_event(events.last(), auto_open)
        }
    }

    /// The matches for which the events `events` fired the final milestone, in
    /// the order of firing.
    pub open spec fn finals(self, events: Seq<TrackerEvent>, auto_open: bool) -> Seq<u64>
        decreases events.len(),
    {
        if events.len() == 0 {
            Seq::empty()
        } else {
            let earlier = self.finals(events.drop_last(), auto_open);
            match events.last() {
                TrackerEvent::Observed { game_id, count } if self.after_events(
                    events.drop_last(),
                    auto_open,
                ).step_of(game_id, count, auto_open).final_roster => earlier.push(game_id),
                _ => earlier,
            }
        }
    }

    /// A tracker that has seen no match.
    pub fn new() -> (tracker: RosterTracker)
        ensures
            tracker == Self::idle(),
            tracker.wf(),
    {
        RosterTracker {
            game_id: None,
            last_participant_count: 0,
            auto_opened: false,
            stopped: false,
            finished: None,
        }
    }

    /// Whether the final milestone has fired for the match that the tracker follows.
    pub fn is_complete(&self) -> (done: bool)
        ensures
            done == self.complete(),
    {
        match (self.game_id, self.finished) {
            (Some(current), Some(last)) => current == last,
            _ => false,
        }
    }

    /// Turns to match `game_id`: a match that the tracker did not follow starts
    /// with nothing seen.
    fn turn_to(&mut self, game_id: u64)
        ensures
            *final(self) == old(self).scoped_to(game_id),
    {
        let same_match = match self.game_id {
            Some(current) => current == game_id,
            None => false,
        };
        if !same_match {
            self.game_id = Some(game_id);
            self.last_participant_count = 0;
            self.auto_opened = false;
            self.stopped = false;
        }
    }

    /// Takes in one observation of the roster of match `game_id`. A match that
    /// the tracker did not follow starts with nothing seen. A roster larger
    /// than any before asks for a roster update. A complete roster fires the
    /// final milestone, asks for opening the page if the settings want it, and
    /// ends the tracking of this match. A match that was left, or whose final
    /// milestone was the last to fire, asks for nothing.
    pub fn observe(&mut self, game_id: u64, participant_count: usize, config: &Config) -> (step:
        RosterStep)
        ensures
            step == old(self).step_of(game_id, participant_count, config.auto_open),
            *final(self) == old(self).after_observation(
                game_id,
                participant_count,
                config.auto_open,
            ),
            old(self).wf() ==> final(self).wf(),
    {
        self.turn_to(game_id);
        if self.is_complete() || self.stopped {
            return RosterStep {
                roster_update: false,
                auto_open: false,
                final_roster: false,
                keep_polling: false,
            };
        }
        let grew = participant_count > self.last_participant_count;
        let complete = participant_count >= EXPECTED_ROSTER_SIZE;
        let open = complete && config.auto_open && !self.auto_opened;
        if grew {
            self.last_participant_count = participant_count;
        }
        if open {
            self.auto_opened = true;
        }
        if complete {
            self.finished = Some(game_id);
        }
        RosterStep {
            roster_update: grew,
            auto_open: open,
            final_roster: complete,
            keep_polling: !complete,
        }
    }

    /// The client left the champ select of match `game_id`: that match is no
    /// longer tracked, and no final milestone fires for it, whether or not
    /// anything was seen of it before.
    pub fn leave_champ_select(&mut self, game_id: u64)
        ensures
            *final(self) == old(self).after_leaving(game_id),
            !final(self).tracking(),
            old(self).wf() ==> final(self).wf(),
    {
        self.turn_to(game_id);
        self.stopped = true;
    }

    /// The check made before each poll of match `game_id`. `gameflow` is the
    /// phase as the client answered it, quotes included, or `None` where it did
    /// not answer. The poll goes on exactly if the phase is champ select;
    /// otherwise the tracking of that match ends.
    pub fn check_phase(&mut self, game_id: u64, gameflow: Option<&str>) -> (go_on: bool)
        ensures
            go_on == in_champ_select(gameflow),
            go_on ==> *final(self) == *old(self),
            !go_on ==> *final(self) == old(self).after_leaving(game_id),
    {
        let go_on = still_in_champ_select(gameflow);
        if !go_on {
            self.leave_champ_select(game_id);
        }
        go_on
    }
}

/// The client answered, and the answer without its quotes is the champ-select phase.
pub open spec fn in_champ_select(gameflow: Option<&str>) -> bool {
    match gameflow {
        Some(raw) => without_quotes(raw@) == "ChampSelect"@,
        None => false,
    }
}

/// Whether the client is in champ select. `gameflow` is the phase as the
/// client answered it, quotes included, or `None` where it did not answer.
pub fn still_in_champ_select(gameflow: Option<&str>) -> (still: bool)
    ensures
        still == in_champ_select(gameflow),
{
    match gameflow {
        Some(raw) => {
            let phase = strip_quotes(raw);
            same_text(phase.as_str(), "ChampSelect")
        },
        None => false,
    }
}

/// Some observation of `counts` before number `k` saw a complete roster.
pub open spec fn complete_before(counts: Seq<usize>, k: int) -> bool {
    exists|j: int| 0 <= j < k && #[trigger] counts[j] >= EXPECTED_ROSTER_SIZE
}

/// Every observation of `counts` before number `k` saw fewer than `count` participants.
pub open spec fn all_below(counts: Seq<usize>, k: int, count: usize) -> bool {
    forall|j: int| 0 <= j < k ==> #[trigger] counts[j] < count
}

/// No observation of `counts` before number `k` saw more than `count` participants.
pub open spec fn none_above(counts: Seq<usize>, k: int, count: usize) -> bool {
    forall|j: int| 0 <= j < k ==> #[trigger] counts[j] <= count
}

/// The match is new to the tracker: it neither follows it nor finished it last.
pub open spec fn new_to(tracker: RosterTracker, game_id: u64) -> bool {
    tracker.game_id != Some(game_id) && tracker.finished != Some(game_id)
}

/// A complete roster was seen before observation `k` exactly if one was seen
/// before observation `k - 1`, or observation `k - 1` saw one.
proof fn lemma_complete_before_step(counts: Seq<usize>, k: int)
    requires
        0 < k <= counts.len(),
    ensures
        complete_before(counts, k) == (complete_before(counts, k - 1) || counts[k - 1]
            >= EXPECTED_ROSTER_SIZE),
{
    if complete_before(counts, k - 1) {
        let j = choose|j: int| 0 <= j < k - 1 && #[trigger] counts[j] >= EXPECTED_ROSTER_SIZE;
        assert(0 <= j < k && counts[j] >= EXPECTED_ROSTER_SIZE);
    } else if counts[k - 1] >= EXPECTED_ROSTER_SIZE {
        assert(0 <= k - 1 < k && counts[k - 1] >= EXPECTED_ROSTER_SIZE);
    } else {
        assert forall|j: int| 0 <= j < k implies !(#[trigger] counts[j]
            >= EXPECTED_ROSTER_SIZE) by {
            if j < k - 1 {
                assert(!complete_before(counts, k - 1));
            }
        }
    }
}

/// What a tracker holds after the first `k` observations of a match that was new to it.
proof fn lemma_after_prefix(
    tracker: RosterTracker,
    game_id: u64,
    counts: Seq<usize>,
    k: int,
    auto_open: bool,
)
    requires
        new_to(tracker, game_id),
        0 <= k <= counts.len(),
    ensures
        ({
            let t = tracker.after_all(game_id, counts.take(k), auto_open).scoped_to(game_id);
            &&& t.game_id == Some(game_id)
            &&& !t.stopped
            &&& t.complete() == complete_before(counts, k)
            &&& !t.complete() ==> none_above(counts, k, t.last_participant_count)
            &&& t.last_participant_count == 0 || exists|j: int|
                0 <= j < k && #[trigger] counts[j] == t.last_participant_count
            &&& !t.complete() ==> t.last_participant_count < EXPECTED_ROSTER_SIZE
            &&& t.auto_opened == (auto_open && t.complete())
        }),
    decreases k,
{
    if k == 0 {
        assert(counts.take(0).len() == 0);
    } else {
        lemma_after_prefix(tracker, game_id, counts, k - 1, auto_open);
        lemma_complete_before_step(counts, k);
        assert(counts.take(k).drop_last() =~= counts.take(k - 1));
        assert(counts.take(k).last() == counts[k - 1]);
        let before = tracker.after_all(game_id, counts.take(k - 1), auto_open);
        let t = before.after_observation(game_id, counts[k - 1], auto_open);
        assert(tracker.after_all(game_id, counts.take(k), auto_open) == t);
    }
}

/// Within one match the final milestone fires at the first observation of a
/// complete roster and at no other: so at most once, and only if some
/// observation saw at least `EXPECTED_ROSTER_SIZE` participants.
pub proof fn law_final_roster_fires_once(
    tracker: RosterTracker,
    game_id: u64,
    counts: Seq<usize>,
    k: int,
    auto_open: bool,
)
    requires
        new_to(tracker, game_id),
        0 <= k < counts.len(),
    ensures
        tracker.step_at(game_id, counts, k, auto_open).final_roster == (counts[k]
            >= EXPECTED_ROSTER_SIZE && !complete_before(counts, k)),
        forall|i: int|
            0 <= i < k && tracker.step_at(game_id, counts, i, auto_open).final_roster
                ==> !tracker.step_at(game_id, counts, k, auto_open).final_roster,
{
    lemma_after_prefix(tracker, game_id, counts, k, auto_open);
    assert forall|i: int|
        0 <= i < k && tracker.step_at(game_id, counts, i, auto_open).final_roster implies complete_before(
        counts,
        k,
    ) by {
        lemma_after_prefix(tracker, game_id, counts, i, auto_open);
        assert(counts[i] >= EXPECTED_ROSTER_SIZE);
    }
}

/// Within one match the final milestone fires exactly once if some
/// observation saw a complete roster, and never otherwise.
pub proof fn law_exactly_one_final_milestone(
    tracker: RosterTracker,
    game_id: u64,
    counts: Seq<usize>,
    k: int,
    auto_open: bool,
)
    requires
        new_to(tracker, game_id),
        0 <= k <= counts.len(),
    ensures
        tracker.finals_within(game_id, counts, k, auto_open) == (if complete_before(counts, k) {
            1nat
        } else {
            0nat
        }),
    decreases k,
{
    if k > 0 {
        law_exactly_one_final_milestone(tracker, game_id, counts, k - 1, auto_open);
        law_final_roster_fires_once(tracker, game_id, counts, k - 1, auto_open);
        lemma_complete_before_step(counts, k);
    }
}

/// Over any run of observations and leavings, of whichever matches, the
/// final milestone never fires twice in a row for the same match: the tracker
/// remembers the match that finished last, and only the final milestone of
/// another match lets it fire again.
pub proof fn law_no_repeated_final_milestone(
    tracker: RosterTracker,
    events: Seq<TrackerEvent>,
    auto_open: bool,
)
    ensures
        ({
            let fired = tracker.finals(events, auto_open);
            let after = tracker.after_events(events, auto_open);
            &&& fired.len() == 0 ==> after.finished == tracker.finished
            &&& fired.len() > 0 ==> after.finished == Some(fired.last())
            &&& fired.len() > 0 ==> tracker.finished != Some(fired[0])
            &&& forall|i: int| 0 <= i < fired.len() - 1 ==> fired[i] != #[trigger] fired[i + 1]
        }),
    decreases events.len(),
{
    if events.len() > 0 {
        law_no_repeated_final_milestone(tracker, events.drop_last(), auto_open);
    }
}

/// Within one match a roster update is asked for exactly when the roster is
/// larger than at every earlier observation and none of those was complete: an
/// equal or smaller size asks for nothing.
pub proof fn law_roster_update_on_growth(
    tracker: RosterTracker,
    game_id: u64,
    counts: Seq<usize>,
    k: int,
    auto_open: bool,
)
    requires
        new_to(tracker, game_id),
        0 <= k < counts.len(),
    ensures
        tracker.step_at(game_id, counts, k, auto_open).roster_update == (counts[k] > 0
            && all_below(counts, k, counts[k]) && !complete_before(counts, k)),
{
    lemma_after_prefix(tracker, game_id, counts, k, auto_open);
    let t = tracker.after_all(game_id, counts.take(k), auto_open).scoped_to(game_id);
    if t.tracking() && counts[k] > t.last_participant_count {
        assert forall|j: int| 0 <= j < k implies #[trigger] counts[j] < counts[k] by {
            assert(counts[j] <= t.last_participant_count);
        }
    }
}

/// Within one match the multi-search page is opened exactly at the
/// observation that fires the final milestone, if the settings want it: on the
/// complete roster, once, and at no earlier roster.
pub proof fn law_auto_open_with_final_milestone(
    tracker: RosterTracker,
    game_id: u64,
    counts: Seq<usize>,
    k: int,
    auto_open: bool,
)
    requires
        new_to(tracker, game_id),
        0 <= k < counts.len(),
    ensures
        tracker.step_at(game_id, counts, k, auto_open).auto_open == (auto_open && tracker.step_at(
            game_id,
            counts,
            k,
            auto_open,
        ).final_roster),
        tracker.step_at(game_id, counts, k, auto_open).auto_open == (auto_open && counts[k]
            >= EXPECTED_ROSTER_SIZE && !complete_before(counts, k)),
{
    lemma_after_prefix(tracker, game_id, counts, k, auto_open);
}

/// A match that was left asks for nothing more, whether or not anything was
/// seen of it before it was left.
pub proof fn law_left_match_stays_silent(
    tracker: RosterTracker,
    game_id: u64,
    count: usize,
    auto_open: bool,
)
    ensures
        tracker.after_leaving(game_id).step_of(game_id, count, auto_open) == RosterStep::nothing(),
        tracker.after_leaving(game_id).after_observation(game_id, count, auto_open)
            == tracker.after_leaving(game_id),
{
}

/// A match whose final milestone fired asks for nothing more as long as no
/// other match has finished since, also after the tracker has followed another
/// match in between.
pub proof fn law_finished_match_stays_silent(
    tracker: RosterTracker,
    game_id: u64,
    count: usize,
    auto_open: bool,
)
    requires
        tracker.finished == Some(game_id),
    ensures
        tracker.step_of(game_id, count, auto_open) == RosterStep::nothing(),
        tracker.after_observation(game_id, count, auto_open).finished == Some(game_id),
{
}

} // verus!
