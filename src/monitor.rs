use vstd::prelude::*;

verus! {

/// What the connectivity stream reports about the connection to the server.
#[derive(Clone, Copy, Debug, PartialEq, Eq, Structural)]
pub enum ConnectionStatus {
    Connected,
    Disconnected,
}

/// Where the supervisor of a session stands.
#[derive(Clone, Copy, Debug, PartialEq, Eq, Structural)]
pub enum MonitorPhase {
    /// The first status has not been read yet.
    AwaitingFirst,
    /// Connected at start; any further status means the connection dropped meanwhile.
    Watching,
    /// Its one decision is taken; nothing it reads any more matters.
    Finished,
}

/// Watches connectivity on behalf of a session and decides, at most once, that the
/// session must be left. Its owner feeds it each item of the status stream
/// (`None` once the stream has ended) and leaves the session, if that still exists,
/// when told to.
#[derive(Clone, Copy, Debug)]
pub struct SessionMonitor {
    phase: MonitorPhase,
}

/// One step of the supervisor: the next phase, and whether to leave the session now.
pub open spec fn monitor_step(phase: MonitorPhase, next: Option<ConnectionStatus>) -> (
    MonitorPhase,
    bool,
) {
    match phase {
        MonitorPhase::AwaitingFirst => match next {
            Some(ConnectionStatus::Connected) => (MonitorPhase::Watching, false),
            _ => (MonitorPhase::Finished, true),
        },
        MonitorPhase::Watching => match next {
            Some(_) => (MonitorPhase::Finished, true),
            None => (MonitorPhase::Finished, false),
        },
        MonitorPhase::Finished => (MonitorPhase::Finished, false),
    }
}

/// The phase reached from `phase` after reading `events`.
pub open spec fn phase_after(phase: MonitorPhase, events: Seq<Option<ConnectionStatus>>) -> MonitorPhase
    decreases events.len(),
{
    if events.len() == 0 {
        phase
    } else {
        monitor_step(phase_after(phase, events.drop_last()), events.last()).0
    }
}

/// How many times the supervisor asks to leave while reading `events` from `phase`.
pub open spec fn leaves_after(phase: MonitorPhase, events: Seq<Option<ConnectionStatus>>) -> nat
    decreases events.len(),
{
    if events.len() == 0 {
        0
    } else {
        let prev = phase_after(phase, events.drop_last());
        leaves_after(phase, events.drop_last()) + if monitor_step(prev, events.last()).1 {
            1nat
        } else {
            0nat
        }
    }
}

/// Once the supervisor has asked to leave it is finished, and a finished supervisor
/// never asks again.
proof fn lemma_leaves_bounded(phase: MonitorPhase, events: Seq<Option<ConnectionStatus>>)
    ensures
        leaves_after(phase, events) <= 1,
        leaves_after(phase, events) == 1 ==> phase_after(phase, events) == MonitorPhase::Finished,
        phase == MonitorPhase::Finished ==> leaves_after(phase, events) == 0,
    decreases events.len(),
{
    if events.len() > 0 {
        lemma_leaves_bounded(phase, events.drop_last());
    }
}

/// Whatever the sequence of statuses, a supervisor started afresh asks to leave
/// the session at most once.
pub proof fn lemma_monitor_leaves_at_most_once(events: Seq<Option<ConnectionStatus>>)
    ensures
        leaves_after(MonitorPhase::AwaitingFirst, events) <= 1,
{
    lemma_leaves_bounded(MonitorPhase::AwaitingFirst, events);
}

/// A supervisor started afresh that reads a status other than `Connected` first,
/// or reads two statuses, asks to leave exactly once, whatever follows.
pub proof fn lemma_monitor_leaves_on_disconnect(events: Seq<Option<ConnectionStatus>>)
    requires
        events.len() >= 1,
        events[0] != Some(ConnectionStatus::Connected) || (events.len() >= 2 && events[1] is Some),
    ensures
        leaves_after(MonitorPhase::AwaitingFirst, events) == 1,
    decreases events.len(),
{
    let start = MonitorPhase::AwaitingFirst;
    if events.len() == 1 {
        assert(events.drop_last() =~= Seq::<Option<ConnectionStatus>>::empty());
        assert(phase_after(start, events.drop_last()) == start);
        assert(leaves_after(start, events.drop_last()) == 0);
        assert(events.last() == events[0]);
    } else if events.len() == 2 && events[0] == Some(ConnectionStatus::Connected) {
        let first = events.drop_last();
        assert(first.drop_last() =~= Seq::<Option<ConnectionStatus>>::empty());
        assert(first.last() == events[0]);
        assert(phase_after(start, first.drop_last()) == start);
        assert(leaves_after(start, first.drop_last()) == 0);
        assert(phase_after(start, first) == MonitorPhase::Watching);
        assert(leaves_after(start, first) == 0);
        assert(events.last() == events[1]);
    } else {
        let prev = events.drop_last();
        assert(prev[0] == events[0]);
        if events.len() > 2 {
            assert(prev[1] == events[1]);
        }
        lemma_monitor_leaves_on_disconnect(prev);
        lemma_leaves_bounded(start, prev);
        assert(phase_after(start, prev) == MonitorPhase::Finished);
    }
}

impl SessionMonitor {
    pub closed spec fn phase(&self) -> MonitorPhase {
        self.phase
    }

    /// A supervisor that has read nothing yet.
    pub fn new() -> (r: SessionMonitor)
        ensures
            r.phase() == MonitorPhase::AwaitingFirst,
    {
        SessionMonitor { phase: MonitorPhase::AwaitingFirst }
    }

    /// Whether the supervisor has taken its decision and can be dropped.
    pub fn is_finished(&self) -> (r: bool)
        ensures
            r == (self.phase() == MonitorPhase::Finished),
    {
        matches!(self.phase, MonitorPhase::Finished)
    }

    /// Reads the next item of the status stream; returns whether the session must
    /// be left now.
    pub fn observe(&mut self, next: Option<ConnectionStatus>) -> (leave: bool)
        ensures
            (final(self).phase(), leave) == monitor_step(old(self).phase(), next),
    {
        match self.phase {
            MonitorPhase::AwaitingFirst => match next {
                Some(ConnectionStatus::Connected) => {
                    self.phase = MonitorPhase::Watching;
                    false
                },
                _ => {
                    self.phase = MonitorPhase::Finished;
                    true
                },
            },
            MonitorPhase::Watching => {
                self.phase = MonitorPhase::Finished;
                next.is_some()
            },
            MonitorPhase::Finished => false,
        }
    }
}

} // verus!
