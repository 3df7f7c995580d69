//! The rounds of the thread that serves a stack.
use vstd::prelude::*;

verus! {

/// How long the thread rests in each round, in milliseconds.
pub const ROUND_REST_MILLIS: u64 = 300;

/// What the thread does next. `W` is what a task is woken by.
pub enum RunStep<W> {
    /// Lets the interface exchange packets.
    Poll,
    /// Serves the registered sockets.
    SpinAll,
    /// Takes the task that waits longest to write off its queue, if one waits.
    PopWaker,
    /// Wakes a task.
    Wake(W),
    /// Rests for so many milliseconds.
    Sleep(u64),
    /// Asks whether the thread is to stop.
    CheckStop,
    /// Ends the thread.
    Stop,
}

/// What came of a step.
pub enum RunEvent<W> {
    Done,
    Popped(Option<W>),
    ShouldStop(bool),
}

impl<W> RunStep<W> {
    /// `event` can come of the step.
    pub open spec fn expects(self, event: RunEvent<W>) -> bool {
        match self {
            RunStep::PopWaker => event is Popped,
            RunStep::CheckStop => event is ShouldStop,
            RunStep::Stop => false,
            _ => event is Done,
        }
    }

    /// The step that follows once `event` came of this one.
    pub open spec fn following(self, event: RunEvent<W>) -> RunStep<W> {
        match self {
            RunStep::Poll => RunStep::SpinAll,
            RunStep::SpinAll => RunStep::PopWaker,
            RunStep::PopWaker => match event {
                RunEvent::Popped(Some(waker)) => RunStep::Wake(waker),
                _ => RunStep::Sleep(ROUND_REST_MILLIS),
            },
            RunStep::Wake(_) => RunStep::Sleep(ROUND_REST_MILLIS),
            RunStep::Sleep(_) => RunStep::CheckStop,
            RunStep::CheckStop => match event {
                RunEvent::ShouldStop(true) => RunStep::Stop,
                _ => RunStep::Poll,
            },
            RunStep::Stop => RunStep::Stop,
        }
    }

    /// The first step of the thread.
    pub fn first() -> (r: RunStep<W>)
        ensures
            r == RunStep::<W>::Poll,
    {
        RunStep::Poll
    }

    /// The step that follows once `event` came of this one.
    pub fn next(self, event: RunEvent<W>) -> (r: RunStep<W>)
        requires
            self.expects(event),
        ensures
            r == self.following(event),
    {
        match self {
            RunStep::Poll => RunStep::SpinAll,
            RunStep::SpinAll => RunStep::PopWaker,
            RunStep::PopWaker => match event {
                RunEvent::Popped(Some(waker)) => RunStep::Wake(waker),
                _ => RunStep::Sleep(ROUND_REST_MILLIS),
            },
            RunStep::Wake(_) => RunStep::Sleep(ROUND_REST_MILLIS),
            RunStep::Sleep(_) => RunStep::CheckStop,
            RunStep::CheckStop => match event {
                RunEvent::ShouldStop(true) => RunStep::Stop,
                _ => RunStep::Poll,
            },
            RunStep::Stop => RunStep::Stop,
        }
    }
}

/// The thread ran through `steps`, of which `events` came.
pub open spec fn ran<W>(steps: Seq<RunStep<W>>, events: Seq<RunEvent<W>>) -> bool {
    &&& steps.len() == events.len() + 1
    &&& steps[0] is Poll
    &&& forall|i: int|
        0 <= i < events.len() ==> (#[trigger] steps[i]).expects(events[i]) && steps[i + 1]
            == steps[i].following(events[i])
}

/// As far as the thread ran, it rests at step `j`, then asks whether to stop, and then stops
/// if it is told to, or else begins another round.
pub open spec fn rests_and_checks<W>(
    steps: Seq<RunStep<W>>,
    events: Seq<RunEvent<W>>,
    j: int,
) -> bool {
    &&& j < steps.len() ==> steps[j] == RunStep::<W>::Sleep(ROUND_REST_MILLIS)
    &&& j + 1 < steps.len() ==> steps[j + 1] is CheckStop
    &&& j + 2 < steps.len() ==> {
        &&& events[j + 1] matches RunEvent::ShouldStop(stop)
        &&& (stop ==> steps[j + 2] is Stop)
        &&& (!stop ==> steps[j + 2] is Poll)
    }
}

/// Every round polls, serves the sockets, wakes a task only where one waits, and that one
/// alone, rests, and then stops exactly where it is told to.
pub proof fn lemma_round<W>(steps: Seq<RunStep<W>>, events: Seq<RunEvent<W>>, i: int)
    requires
        ran(steps, events),
        0 <= i,
        i + 3 < steps.len(),
        steps[i] is Poll,
    ensures
        steps[i + 1] is SpinAll,
        steps[i + 2] is PopWaker,
        events[i + 2] matches RunEvent::Popped(popped) && match popped {
            Some(waker) => steps[i + 3] == RunStep::Wake(waker) && rests_and_checks(
                steps,
                events,
                i + 4,
            ),
            None => rests_and_checks(steps, events, i + 3),
        },
{
    assert(steps[i].expects(events[i]));
    assert(steps[i + 1].expects(events[i + 1]));
    assert(steps[i + 2].expects(events[i + 2]));
    if i + 3 < events.len() {
        assert(steps[i + 3].expects(events[i + 3]));
    }
    if i + 4 < events.len() {
        assert(steps[i + 4].expects(events[i + 4]));
    }
    if i + 5 < events.len() {
        assert(steps[i + 5].expects(events[i + 5]));
    }
}

/// Nothing follows the end of the thread, and nothing ends it but a stop that it was told.
pub proof fn lemma_stop<W>(steps: Seq<RunStep<W>>, events: Seq<RunEvent<W>>, i: int)
    requires
        ran(steps, events),
        0 <= i < steps.len(),
        steps[i] is Stop,
    ensures
        i == steps.len() - 1,
        i > 0,
        events[i - 1] == RunEvent::<W>::ShouldStop(true),
{
    if i < events.len() {
        assert(steps[i].expects(events[i]));
    }
    assert(i > 0);
    assert(steps[i - 1].expects(events[i - 1]));
}

} // verus!
