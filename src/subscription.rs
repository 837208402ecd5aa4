use vstd::prelude::*;

verus! {

/// Where a subscription stands.
#[derive(Clone, Copy, Debug, PartialEq, Eq, Structural)]
pub enum Phase {
    /// Attached to its channel and waiting for the next payload.
    Subscribed,
    /// A payload was handed to the callback, which has not finished yet.
    Processing,
    /// The subscription fell behind its channel's backlog and ended.
    Lagged,
    /// The channel lost its sending side and the subscription ended.
    Closed,
}

/// What happened to a subscription: the outcome of a receive, or the end of a callback.
#[derive(Debug, PartialEq)]
pub enum Event<D> {
    /// The receive returned a payload.
    Received(D),
    /// The receive found that this many payloads were overwritten before being read.
    Lagged(u64),
    /// The receive found the channel closed.
    Closed,
    /// The callback for the last payload has finished.
    Completed,
}

/// What the subscription's driver does next.
#[derive(Debug, PartialEq)]
pub enum Action<D> {
    /// Run the callback on this payload, to completion, before anything else.
    Invoke(D),
    /// Issue the next receive.
    Receive,
    /// End the subscription: nothing further is received or handed to the callback.
    Stop,
}

pub open spec fn is_terminal(phase: Phase) -> bool {
    phase is Lagged || phase is Closed
}

/// The events a subscription can take in each phase: the outcome of a receive while
/// it waits, the end of the callback while it processes, and nothing once it ended.
pub open spec fn accepts<D>(phase: Phase, event: Event<D>) -> bool {
    match phase {
        Phase::Subscribed => !(event is Completed),
        Phase::Processing => event is Completed,
        Phase::Lagged | Phase::Closed => false,
    }
}

/// The phase that follows an accepted event, and what the driver does then.
pub open spec fn next<D>(phase: Phase, event: Event<D>) -> (Phase, Action<D>) {
    match event {
        Event::Received(data) => (Phase::Processing, Action::Invoke(data)),
        Event::Lagged(_) => (Phase::Lagged, Action::Stop),
        Event::Closed => (Phase::Closed, Action::Stop),
        Event::Completed => (Phase::Subscribed, Action::Receive),
    }
}

/// No transition leaves a phase that ended the subscription.
pub proof fn lemma_terminal_is_final<D>(phase: Phase, event: Event<D>)
    requires
        is_terminal(phase),
    ensures
        !accepts(phase, event),
{
}

/// A run of one subscription: it stands in `phases[i]` when `events[i]` happens, takes
/// that event, answers `actions[i]` and moves on to `phases[i + 1]`.
pub open spec fn subscription_run<D>(
    phases: Seq<Phase>,
    events: Seq<Event<D>>,
    actions: Seq<Action<D>>,
) -> bool {
    &&& phases.len() == events.len() + 1
    &&& actions.len() == events.len()
    &&& forall|i: int|
        0 <= i < events.len() ==> accepts(phases[i], #[trigger] events[i]) && (
        phases[i + 1],
        actions[i],
    ) == next(phases[i], events[i])
}

/// The payload an action hands to the callback, if any.
pub open spec fn handed<D>(action: Action<D>) -> Seq<D> {
    match action {
        Action::Invoke(data) => seq![data],
        _ => Seq::empty(),
    }
}

/// The payload an event brings, if any.
pub open spec fn brought<D>(event: Event<D>) -> Seq<D> {
    match event {
        Event::Received(data) => seq![data],
        _ => Seq::empty(),
    }
}

/// The payloads that a run hands to the callback, in order.
pub open spec fn invoked<D>(actions: Seq<Action<D>>) -> Seq<D>
    decreases actions.len(),
{
    if actions.len() == 0 {
        Seq::empty()
    } else {
        invoked(actions.drop_last()) + handed(actions.last())
    }
}

/// The payloads that a run's receives return, in order.
pub open spec fn received<D>(events: Seq<Event<D>>) -> Seq<D>
    decreases events.len(),
{
    if events.len() == 0 {
        Seq::empty()
    } else {
        received(events.drop_last()) + brought(events.last())
    }
}

/// Each payload that a subscription receives is handed to its callback exactly once,
/// in the order of arrival, and the callback gets nothing else.
pub proof fn lemma_callbacks_follow_arrivals<D>(
    phases: Seq<Phase>,
    events: Seq<Event<D>>,
    actions: Seq<Action<D>>,
)
    requires
        subscription_run(phases, events, actions),
    ensures
        invoked(actions) == received(events),
    decreases events.len(),
{
    if events.len() > 0 {
        let n = events.len() - 1;
        let ph = phases.drop_last();
        let ev = events.drop_last();
        let ac = actions.drop_last();
        assert forall|i: int| 0 <= i < ev.len() implies accepts(ph[i], #[trigger] ev[i]) && (
            ph[i + 1],
            ac[i],
        ) == next(ph[i], ev[i]) by {
            assert(events[i] == ev[i]);
        }
        lemma_callbacks_follow_arrivals(ph, ev, ac);
        assert(accepts(phases[n], events[n]));
        assert(handed(actions.last()) == brought(events.last()));
    }
}

/// A callback never begins before the previous one has finished: after a payload is
/// handed over, the run's next event is the end of that callback.
pub proof fn lemma_callbacks_never_overlap<D>(
    phases: Seq<Phase>,
    events: Seq<Event<D>>,
    actions: Seq<Action<D>>,
    i: int,
    j: int,
)
    requires
        subscription_run(phases, events, actions),
        0 <= i < j < actions.len(),
        actions[i] is Invoke,
        actions[j] is Invoke,
    ensures
        i + 1 < j,
        events[i + 1] is Completed,
{
    assert(accepts(phases[i], events[i]));
    let k = i + 1;
    assert(accepts(phases[k], events[k]));
}

/// A lag or a closure ends the run: it is answered with `Stop`, it is the run's last
/// event, and the subscription takes no later event, so whatever is dispatched after
/// it reaches the callback no more.
pub proof fn lemma_failure_ends_run<D>(
    phases: Seq<Phase>,
    events: Seq<Event<D>>,
    actions: Seq<Action<D>>,
    i: int,
)
    requires
        subscription_run(phases, events, actions),
        0 <= i < events.len(),
        events[i] is Lagged || events[i] is Closed,
    ensures
        actions[i] is Stop,
        i == events.len() - 1,
        events[i] is Lagged ==> phases[i + 1] == Phase::Lagged,
        events[i] is Closed ==> phases[i + 1] == Phase::Closed,
        is_terminal(phases[i + 1]),
{
    assert(accepts(phases[i], events[i]));
    if i + 1 < events.len() {
        let k = i + 1;
        assert(accepts(phases[k], events[k]));
    }
}

/// The state machine of one subscription, driven by the loop that awaits its receives
/// and its callbacks.
pub struct Subscription {
    phase: Phase,
}

impl View for Subscription {
    type V = Phase;

    closed spec fn view(&self) -> Phase {
        self.phase
    }
}

impl Subscription {
    /// A subscription just attached to its channel.
    pub fn new() -> (s: Self)
        ensures
            s@ == Phase::Subscribed,
    {
        Subscription { phase: Phase::Subscribed }
    }

    pub fn phase(&self) -> (p: Phase)
        ensures
            p == self@,
    {
        self.phase
    }

    /// Whether the subscription has ended, by lag or by closure.
    pub fn is_finished(&self) -> (r: bool)
        ensures
            r == is_terminal(self@),
    {
        match self.phase {
            Phase::Lagged | Phase::Closed => true,
            _ => false,
        }
    }

    /// Whether `event` can happen in the current phase.
    pub fn accepts<D>(&self, event: &Event<D>) -> (r: bool)
        ensures
            r == accepts(self@, *event),
    {
        match self.phase {
            Phase::Subscribed => !matches!(event, Event::Completed),
            Phase::Processing => matches!(event, Event::Completed),
            Phase::Lagged | Phase::Closed => false,
        }
    }

    /// Takes one event and says what to do next.
    pub fn step<D>(&mut self, event: Event<D>) -> (action: Action<D>)
        requires
            accepts(old(self)@, event),
        ensures
            (final(self)@, action) == next(old(self)@, event),
    {
        match event {
            Event::Received(data) => {
                self.phase = Phase::Processing;
                Action::Invoke(data)
            },
            Event::Lagged(_) => {
                self.phase = Phase::Lagged;
                Action::Stop
            },
            Event::Closed => {
                self.phase = Phase::Closed;
                Action::Stop
            },
            Event::Completed => {
                self.phase = Phase::Subscribed;
                Action::Receive
            },
        }
    }
}

} // verus!
