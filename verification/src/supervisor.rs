//! The connection supervisor: discovers the client, subscribes to its events
//! with a bounded number of attempts, receives until the channel closes, and
//! publishes connectivity on every change of it.

use vstd::prelude::*;

verus! {

/// Milliseconds between two attempts to discover the client.
pub const DISCOVERY_RETRY_MS: u64 = 2000;

/// Milliseconds between two attempts to subscribe.
pub const SUBSCRIBE_RETRY_MS: u64 = 3000;

/// Number of failed attempts to subscribe at which the supervisor gives up.
pub const SUBSCRIBE_ATTEMPT_CAP: u8 = 6;

/// What it takes to reach a discovered client.
#[derive(Clone, Debug)]
pub struct Credentials {
    pub host: String,
    pub riot_port: u16,
    pub lcu_port: u16,
    pub auth_token: String,
}

/// The session bound to one discovered client: whether it is connected, and
/// the credentials where they are known. It is replaced as a whole on every
/// reconnect.
#[derive(Clone, Debug)]
pub struct LCUState {
    pub connected: bool,
    pub data: Option<Credentials>,
}

/// Where the supervisor stands.
#[derive(Clone, Copy, Debug, PartialEq, Eq)]
pub enum Stage {
    /// Looking for the client.
    Discovering,
    /// Client found; `failures` attempts to subscribe have failed in a row.
    Subscribing { failures: u8 },
    /// Subscribed; dispatching events until the channel closes.
    Receiving,
    /// The attempts to subscribe are used up: supervision has ended.
    Halted,
}

/// What the outside reports to the supervisor.
#[derive(Clone, Debug)]
pub enum SupervisorEvent {
    /// No client is running.
    ClientAbsent,
    /// A client is running; with the credentials to reach it, where the
    /// supplier hands them out.
    ClientFound(Option<Credentials>),
    /// An attempt to subscribe failed.
    SubscribeFailed,
    /// Both topics are subscribed.
    Subscribed,
    /// The event channel closed: the client exited.
    ChannelClosed,
}

/// What the supervisor asks the outside to do next.
#[derive(Clone, Copy, Debug, PartialEq, Eq)]
pub enum Directive {
    /// Look for the client after `after_ms` milliseconds.
    Discover { after_ms: u64 },
    /// Open the gateways and subscribe to the two topics after `after_ms` milliseconds.
    Subscribe { after_ms: u64 },
    /// Fetch the current phase once, feed it through the dispatcher's path,
    /// then receive events.
    SyncPhaseAndReceive,
    /// Stop with a diagnostic: the subscription cannot be had.
    Halt,
    /// The event does not belong to the stage: do nothing.
    Ignore,
}

/// The result of one step.
#[derive(Clone, Copy, Debug, PartialEq, Eq)]
pub struct SupervisorStep {
    /// The connectivity to publish, where it changed.
    pub publish: Option<bool>,
    /// What to do next.
    pub directive: Directive,
}

/// The supervisor's state.
#[derive(Clone, Debug)]
pub struct Supervisor {
    /// Where the supervisor stands.
    pub stage: Stage,
    /// The connectivity that was published last, if any was.
    pub announced: Option<bool>,
    /// The current session.
    pub session: LCUState,
}

/// The kinds of event, without what they carry.
pub enum EventKind {
    ClientAbsent,
    ClientFound,
    SubscribeFailed,
    Subscribed,
    ChannelClosed,
}

impl SupervisorEvent {
    /// The kind of the event.
    pub open spec fn kind(self) -> EventKind {
        match self {
            SupervisorEvent::ClientAbsent => EventKind::ClientAbsent,
            SupervisorEvent::ClientFound(_) => EventKind::ClientFound,
            SupervisorEvent::SubscribeFailed => EventKind::SubscribeFailed,
            SupervisorEvent::Subscribed => EventKind::Subscribed,
            SupervisorEvent::ChannelClosed => EventKind::ChannelClosed,
        }
    }
}

/// The stage after an event of kind `event` in stage `stage`.
pub open spec fn next_stage(stage: Stage, event: EventKind) -> Stage {
    match (stage, event) {
        (Stage::Discovering, EventKind::ClientAbsent) => Stage::Discovering,
        (Stage::Discovering, EventKind::ClientFound) => Stage::Subscribing { failures: 0 },
        (Stage::Subscribing { failures }, EventKind::SubscribeFailed) => if failures + 1
            >= SUBSCRIBE_ATTEMPT_CAP {
            Stage::Halted
        } else {
            Stage::Subscribing { failures: (failures + 1) as u8 }
        },
        (Stage::Subscribing { .. }, EventKind::Subscribed) => Stage::Receiving,
        (Stage::Receiving, EventKind::ChannelClosed) => Stage::Discovering,
        _ => stage,
    }
}

/// What an event of kind `event` in stage `stage` asks for.
pub open spec fn directive_of(stage: Stage, event: EventKind) -> Directive {
    match (stage, event) {
        (Stage::Discovering, EventKind::ClientAbsent) => Directive::Discover {
            after_ms: DISCOVERY_RETRY_MS,
        },
        (Stage::Discovering, EventKind::ClientFound) => Directive::Subscribe { after_ms: 0 },
        (Stage::Subscribing { failures }, EventKind::SubscribeFailed) => if failures + 1
            >= SUBSCRIBE_ATTEMPT_CAP {
            Directive::Halt
        } else {
            Directive::Subscribe { after_ms: SUBSCRIBE_RETRY_MS }
        },
        (Stage::Subscribing { .. }, EventKind::Subscribed) => Directive::SyncPhaseAndReceive,
        (Stage::Receiving, EventKind::ChannelClosed) => Directive::Discover { after_ms: 0 },
        _ => Directive::Ignore,
    }
}

/// The connectivity that an event of kind `event` in stage `stage` shows, where it shows one.
pub open spec fn connectivity_of(stage: Stage, event: EventKind) -> Option<bool> {
    match (stage, event) {
        (Stage::Discovering, EventKind::ClientAbsent) => Some(false),
        (Stage::Discovering, EventKind::ClientFound) => Some(true),
        _ => None,
    }
}

/// The connectivity to publish: the one shown, unless it was the last one published.
pub open spec fn publish_of(announced: Option<bool>, shown: Option<bool>) -> Option<bool> {
    if shown is Some && shown != announced {
        shown
    } else {
        None
    }
}

impl Supervisor {
    /// The supervisor at start: looking for the client, nothing published, no session.
    pub open spec fn initial(self) -> bool {
        &&& self.stage == Stage::Discovering
        &&& self.announced is None
        &&& !self.session.connected
        &&& self.session.data is None
    }

    /// The session agrees with the connectivity published last.
    pub open spec fn wf(self) -> bool {
        &&& self.session.connected == (self.announced == Some(true))
        &&& !self.session.connected ==> self.session.data is None
        &&& self.stage is Subscribing ==> self.stage->failures < SUBSCRIBE_ATTEMPT_CAP
    }

    /// The step that `event` asks for in this state.
    pub open spec fn step_of(self, event: SupervisorEvent) -> SupervisorStep {
        SupervisorStep {
            publish: publish_of(self.announced, connectivity_of(self.stage, event.kind())),
            directive: directive_of(self.stage, event.kind()),
        }
    }

    /// This state is followed by `next` on `event`.
    pub open spec fn steps_to(self, event: SupervisorEvent, next: Supervisor) -> bool {
        &&& next.stage == next_stage(self.stage, event.kind())
        &&& next.announced == match connectivity_of(self.stage, event.kind()) {
            Some(shown) => Some(shown),
            None => self.announced,
        }
        &&& match (self.stage, event) {
            (Stage::Discovering, SupervisorEvent::ClientAbsent) => !next.session.connected
                && next.session.data is None,
            (Stage::Discovering, SupervisorEvent::ClientFound(credentials)) => next.session.connected
                && next.session.data == credentials,
            _ => next.session == self.session,
        }
    }

    /// A supervisor that looks for the client.
    pub fn new() -> (supervisor: Supervisor)
        ensures
            supervisor.initial(),
            supervisor.wf(),
    {
        Supervisor {
            stage: Stage::Discovering,
            announced: None,
            session: LCUState { connected: false, data: None },
        }
    }

    /// Takes in one event. While discovering, an absent client is published as
    /// disconnected once per change and looked for again after the discovery
    /// interval; a found client is published as connected, becomes the session,
    /// and is subscribed to. A failed attempt to subscribe is repeated after
    /// the subscribe interval, and the failure that reaches the cap halts the
    /// supervisor. After subscribing, the current phase is fetched once and
    /// events are received; when the channel closes, discovery starts again.
    /// An event that does not belong to the stage changes nothing.
    pub fn step(&mut self, event: SupervisorEvent) -> (step: SupervisorStep)
        ensures
            step == old(self).step_of(event),
            old(self).steps_to(event, *final(self)),
            old(self).wf() ==> final(self).wf(),
    {
        match (self.stage, event) {
            (Stage::Discovering, SupervisorEvent::ClientAbsent) => {
                let publish = self.announce(false);
                self.session = LCUState { connected: false, data: None };
                SupervisorStep { publish, directive: Directive::Discover { after_ms: DISCOVERY_RETRY_MS } }
            },
            (Stage::Discovering, SupervisorEvent::ClientFound(credentials)) => {
                let publish = self.announce(true);
                self.session = LCUState { connected: true, data: credentials };
                self.stage = Stage::Subscribing { failures: 0 };
                SupervisorStep { publish, directive: Directive::Subscribe { after_ms: 0 } }
            },
            (Stage::Subscribing { failures }, SupervisorEvent::SubscribeFailed) => {
                if failures >= SUBSCRIBE_ATTEMPT_CAP - 1 {
                    self.stage = Stage::Halted;
                    SupervisorStep { publish: None, directive: Directive::Halt }
                } else {
                    self.stage = Stage::Subscribing { failures: failures + 1 };
                    SupervisorStep {
                        publish: None,
                        directive: Directive::Subscribe { after_ms: SUBSCRIBE_RETRY_MS },
                    }
                }
            },
            (Stage::Subscribing { .. }, SupervisorEvent::Subscribed) => {
                self.stage = Stage::Receiving;
                SupervisorStep { publish: None, directive: Directive::SyncPhaseAndReceive }
            },
            (Stage::Receiving, SupervisorEvent::ChannelClosed) => {
                self.stage = Stage::Discovering;
                SupervisorStep { publish: None, directive: Directive::Discover { after_ms: 0 } }
            },
            _ => SupervisorStep { publish: None, directive: Directive::Ignore },
        }
    }

    /// Records the connectivity shown and returns it where it is to be published.
    fn announce(&mut self, shown: bool) -> (publish: Option<bool>)
        ensures
            publish == publish_of(old(self).announced, Some(shown)),
            final(self).announced == Some(shown),
            final(self).stage == old(self).stage,
            final(self).session == old(self).session,
    {
        let changed = match self.announced {
            Some(last) => last != shown,
            None => true,
        };
        self.announced = Some(shown);
        if changed {
            Some(shown)
        } else {
            None
        }
    }
}

/// The stage after `count` failed attempts to subscribe in a row.
pub open spec fn after_failures(stage: Stage, count: nat) -> Stage
    decreases count,
{
    if count == 0 {
        stage
    } else {
        next_stage(after_failures(stage, (count - 1) as nat), EventKind::SubscribeFailed)
    }
}

/// A run of failed attempts to subscribe halts the supervisor at the attempt
/// that reaches the cap: not before it, and every attempt before it is repeated
/// after the subscribe interval.
pub proof fn law_halts_at_the_cap(count: nat)
    requires
        count < SUBSCRIBE_ATTEMPT_CAP,
    ensures
        after_failures(Stage::Subscribing { failures: 0 }, count) == (Stage::Subscribing {
            failures: count as u8,
        }),
        directive_of(
            after_failures(Stage::Subscribing { failures: 0 }, count),
            EventKind::SubscribeFailed,
        ) == (if count + 1 == SUBSCRIBE_ATTEMPT_CAP {
            Directive::Halt
        } else {
            Directive::Subscribe { after_ms: SUBSCRIBE_RETRY_MS }
        }),
        after_failures(Stage::Subscribing { failures: 0 }, count + 1) is Halted <==> count + 1
            == SUBSCRIBE_ATTEMPT_CAP,
    decreases count,
{
    if count > 0 {
        law_halts_at_the_cap((count - 1) as nat);
    }
    assert(after_failures(Stage::Subscribing { failures: 0 }, count + 1) == next_stage(
        after_failures(Stage::Subscribing { failures: 0 }, count),
        EventKind::SubscribeFailed,
    ));
}

/// Connectivity is published on changes only: what a step publishes differs
/// from what was published last, and the same event right after it publishes
/// nothing.
pub proof fn law_publishes_changes_only(
    supervisor: Supervisor,
    event: SupervisorEvent,
    next: Supervisor,
)
    requires
        supervisor.steps_to(event, next),
    ensures
        supervisor.step_of(event).publish is Some ==> supervisor.step_of(event).publish
            != supervisor.announced,
        supervisor.step_of(event).publish is Some ==> next.announced == supervisor.step_of(
            event,
        ).publish,
        supervisor.step_of(event).publish is Some ==> next.step_of(event).publish is None,
{
}

/// A halted supervisor stays halted and asks for nothing.
pub proof fn law_halted_is_final(event: EventKind)
    ensures
        next_stage(Stage::Halted, event) == Stage::Halted,
        directive_of(Stage::Halted, event) == Directive::Ignore,
        connectivity_of(Stage::Halted, event) is None,
{
}

} // verus!
