//! The job poller: sleep, ask, and sleep again until the job is completed.
//!
//! The poller neither sleeps nor asks. It is a state machine: it names the
//! next thing to do, a sleep of some length or a status query for its job,
//! and is told when the sleep is over and what the query brought.

use crate::backoff::{interval, interval_at, ElapsedTime};
use crate::error::UploadError;
use crate::ops::{ImportTaskId, SnapshotId};
use vstd::prelude::*;

verus! {

/// Where the poller stands between two steps.
#[derive(Clone, Copy, Debug, PartialEq, Eq, Structural)]
pub enum PollState {
    /// A sleep is under way.
    Sleeping,
    /// A status query is under way.
    Querying,
    /// The poller has handed out the snapshot, or has given up because a
    /// query failed.
    Finished,
}

/// The poller between two steps: the job it waits for and where it stands.
#[derive(Clone, Debug, PartialEq, Eq)]
pub struct Poller {
    pub task: ImportTaskId,
    pub state: PollState,
}

/// A `Poller` with its job as a sequence of characters.
pub struct PollerView {
    pub task: Seq<char>,
    pub state: PollState,
}

impl View for Poller {
    type V = PollerView;

    open spec fn view(&self) -> PollerView {
        PollerView { task: self.task@, state: self.state }
    }
}

/// What the poller is told.
#[derive(Clone, Debug, PartialEq, Eq)]
pub enum PollEvent {
    /// The sleep is over.
    Woke,
    /// The query was answered: with the snapshot if the job is completed,
    /// with nothing if it is not. `elapsed` is the time since polling began,
    /// read after the answer came.
    Answered { snapshot: Option<SnapshotId>, elapsed: ElapsedTime },
    /// The query itself failed.
    QueryFailed { error: UploadError },
}

/// A `PollEvent` with its snapshot as a sequence of characters and its
/// time in nanoseconds.
pub enum PollEventView {
    Woke,
    Answered { snapshot: Option<Seq<char>>, elapsed: nat },
    QueryFailed { error: UploadError },
}

impl View for PollEvent {
    type V = PollEventView;

    open spec fn view(&self) -> PollEventView {
        match *self {
            PollEvent::Woke => PollEventView::Woke,
            PollEvent::Answered { snapshot, elapsed } => PollEventView::Answered {
                snapshot: match snapshot {
                    Some(id) => Some(id@),
                    None => None,
                },
                elapsed: elapsed@,
            },
            PollEvent::QueryFailed { error } => PollEventView::QueryFailed { error },
        }
    }
}

/// What the poller names as the next thing to do.
#[derive(Clone, Debug, PartialEq, Eq)]
pub enum PollAction {
    /// Sleep for so many seconds.
    Sleep { secs: u64 },
    /// Ask for the status of the job `task`.
    Query { task: ImportTaskId },
    /// Hand out the snapshot: the job is completed.
    Return { snapshot: SnapshotId },
    /// Give up: a query failed, with this error.
    Abort { error: UploadError },
}

/// A `PollAction` with its texts as sequences of characters.
pub enum PollActionView {
    Sleep { secs: nat },
    Query { task: Seq<char> },
    Return { snapshot: Seq<char> },
    Abort { error: UploadError },
}

impl View for PollAction {
    type V = PollActionView;

    open spec fn view(&self) -> PollActionView {
        match *self {
            PollAction::Sleep { secs } => PollActionView::Sleep { secs: secs as nat },
            PollAction::Query { task } => PollActionView::Query { task: task@ },
            PollAction::Return { snapshot } => PollActionView::Return { snapshot: snapshot@ },
            PollAction::Abort { error } => PollActionView::Abort { error },
        }
    }
}

/// The first thing to do when polling begins with `elapsed` nanoseconds on
/// the clock: sleep for the interval of that moment.
pub open spec fn first_sleep(elapsed: nat) -> PollActionView {
    PollActionView::Sleep { secs: interval_at(elapsed) }
}

/// The step of the poller for the job `task`: from the state and the
/// event to the next state and the next thing to do. After a sleep comes a
/// query for that job. After an answer without a snapshot comes a sleep, of
/// the interval of the moment of the answer. An answer with a snapshot ends
/// the polling with that snapshot, a failed query ends it at once with the
/// error of the query. `None` where the event does not answer what the
/// state is waiting for.
pub open spec fn poll_next(task: Seq<char>, state: PollState, event: PollEventView) -> Option<
    (PollState, PollActionView),
> {
    match (state, event) {
        (PollState::Sleeping, PollEventView::Woke) => Some(
            (PollState::Querying, PollActionView::Query { task }),
        ),
        (PollState::Querying, PollEventView::Answered { snapshot: Some(id), elapsed }) => Some(
            (PollState::Finished, PollActionView::Return { snapshot: id }),
        ),
        (PollState::Querying, PollEventView::Answered { snapshot: None, elapsed }) => Some(
            (PollState::Sleeping, PollActionView::Sleep { secs: interval_at(elapsed) }),
        ),
        (PollState::Querying, PollEventView::QueryFailed { error }) => Some(
            (PollState::Finished, PollActionView::Abort { error }),
        ),
        _ => None,
    }
}

impl Poller {
    /// Begins polling for the job `task`, `elapsed` after the clock was
    /// started: the poller sleeps first, for the interval of that moment.
    pub fn start(task: ImportTaskId, elapsed: ElapsedTime) -> (r: (Poller, PollAction))
        ensures
            r.0.task == task,
            r.0.state == PollState::Sleeping,
            r.1@ == first_sleep(elapsed@),
    {
        (
            Poller { task, state: PollState::Sleeping },
            PollAction::Sleep { secs: interval(elapsed) },
        )
    }

    /// Takes an event. Where it answers what the poller is waiting for,
    /// the poller moves on as `poll_next` says and names the next thing to
    /// do; where it does not, the poller stays as it is and names nothing.
    /// The job stays the same throughout.
    pub fn step(self, event: PollEvent) -> (r: (Poller, Option<PollAction>))
        ensures
            r.0.task == self.task,
            match poll_next(self.task@, self.state, event@) {
                Some((state, action)) => {
                    &&& r.0.state == state
                    &&& r.1 matches Some(a)
                    &&& a@ == action
                },
                None => r.0.state == self.state && r.1 is None,
            },
    {
        let Poller { task, state } = self;
        match (state, event) {
            (PollState::Sleeping, PollEvent::Woke) => {
                let action = PollAction::Query { task: task.clone() };
                (Poller { task, state: PollState::Querying }, Some(action))
            },
            (PollState::Querying, PollEvent::Answered { snapshot: Some(id), elapsed }) => (
                Poller { task, state: PollState::Finished },
                Some(PollAction::Return { snapshot: id }),
            ),
            (PollState::Querying, PollEvent::Answered { snapshot: None, elapsed }) => (
                Poller { task, state: PollState::Sleeping },
                Some(PollAction::Sleep { secs: interval(elapsed) }),
            ),
            (PollState::Querying, PollEvent::QueryFailed { error }) => (
                Poller { task, state: PollState::Finished },
                Some(PollAction::Abort { error }),
            ),
            (state, _) => (Poller { task, state }, None),
        }
    }
}

/// What the poller for the job `task` does when it takes `events` one by
/// one, beginning in `state`: the state it ends in and the things it names,
/// one for each event. `None` if it does not take one of the events.
pub open spec fn poll_run(task: Seq<char>, state: PollState, events: Seq<PollEventView>) -> Option<
    (PollState, Seq<PollActionView>),
>
    decreases events.len(),
{
    if events.len() == 0 {
        Some((state, Seq::empty()))
    } else {
        match poll_next(task, state, events[0]) {
            None => None,
            Some((next, action)) => match poll_run(task, next, events.drop_first()) {
                None => None,
                Some((end, rest)) => Some((end, seq![action] + rest)),
            },
        }
    }
}

/// A whole polling for the job `task`: the first sleep, for the interval
/// of the moment `first_elapsed` at which polling begins, and then
/// `poll_run` on the events that follow.
pub open spec fn polling(task: Seq<char>, first_elapsed: nat, events: Seq<PollEventView>) -> Option<
    (PollState, Seq<PollActionView>),
> {
    match poll_run(task, PollState::Sleeping, events) {
        None => None,
        Some((end, actions)) => Some((end, seq![first_sleep(first_elapsed)] + actions)),
    }
}

/// The snapshot that an event brings: that of an answer with a snapshot.
pub open spec fn snapshot_of(event: PollEventView) -> Option<Seq<char>> {
    match event {
        PollEventView::Answered { snapshot, elapsed } => snapshot,
        _ => None,
    }
}

/// The number of queries among `actions`.
pub open spec fn queries_in(actions: Seq<PollActionView>) -> nat
    decreases actions.len(),
{
    if actions.len() == 0 {
        0
    } else if actions[0] is Query {
        1 + queries_in(actions.drop_first())
    } else {
        queries_in(actions.drop_first())
    }
}

/// The lengths of the sleeps among `actions`, in their order.
pub open spec fn sleeps_in(actions: Seq<PollActionView>) -> Seq<nat>
    decreases actions.len(),
{
    if actions.len() == 0 {
        Seq::empty()
    } else {
        match actions[0] {
            PollActionView::Sleep { secs } => seq![secs] + sleeps_in(actions.drop_first()),
            _ => sleeps_in(actions.drop_first()),
        }
    }
}

/// The events that follow the first sleep when the query is answered
/// without a snapshot once for each reading of `clock`, the clock showing
/// that reading after the answer, and then with `snapshot`, the clock
/// showing `last`: every answer comes after a sleep has ended.
pub open spec fn answers_then_snapshot(clock: Seq<nat>, snapshot: Seq<char>, last: nat) -> Seq<
    PollEventView,
>
    decreases clock.len(),
{
    if clock.len() == 0 {
        seq![
            PollEventView::Woke,
            PollEventView::Answered { snapshot: Some(snapshot), elapsed: last },
        ]
    } else {
        seq![PollEventView::Woke, PollEventView::Answered { snapshot: None, elapsed: clock[0] }]
            + answers_then_snapshot(clock.drop_first(), snapshot, last)
    }
}

/// Every query is for the poller's own job: whatever events the poller for
/// the job `task` takes, each query that it names asks for `task`.
pub proof fn law_queries_name_the_job(
    task: Seq<char>,
    state: PollState,
    events: Seq<PollEventView>,
)
    requires
        poll_run(task, state, events) is Some,
    ensures
        poll_run(task, state, events) matches Some((end, actions)) && {
            &&& actions.len() == events.len()
            &&& forall|k: int|
                0 <= k < actions.len() && (#[trigger] actions[k]) is Query ==> actions[k]
                    == (PollActionView::Query { task })
        },
    decreases events.len(),
{
    if events.len() > 0 {
        let next = poll_next(task, state, events[0])->Some_0.0;
        law_queries_name_the_job(task, next, events.drop_first());
    }
}

/// The poller names one thing for each event that it takes, and it hands
/// out a snapshot exactly when an answer brings one: that snapshot, at that
/// event, and never at an event that brings none. An answer that brings a
/// snapshot is the last event taken, so the first such answer is the one
/// at which the poller returns, and the only one.
pub proof fn law_returns_on_first_completion(
    task: Seq<char>,
    state: PollState,
    events: Seq<PollEventView>,
)
    requires
        poll_run(task, state, events) is Some,
    ensures
        poll_run(task, state, events) matches Some((end, actions)) && {
            &&& actions.len() == events.len()
            &&& forall|k: int|
                0 <= k < events.len() ==> match snapshot_of(#[trigger] events[k]) {
                    Some(id) => actions[k] == (PollActionView::Return { snapshot: id }) && k
                        == events.len() - 1 && end == PollState::Finished,
                    None => !(actions[k] is Return),
                }
        },
    decreases events.len(),
{
    if events.len() > 0 {
        let (next, action) = poll_next(task, state, events[0])->Some_0;
        let tail = events.drop_first();
        law_returns_on_first_completion(task, next, tail);
        let (end, rest) = poll_run(task, next, tail)->Some_0;
        let actions = seq![action] + rest;
        assert forall|k: int| 0 <= k < events.len() implies match snapshot_of(
            #[trigger] events[k],
        ) {
            Some(id) => actions[k] == (PollActionView::Return { snapshot: id }) && k == events.len()
                - 1 && end == PollState::Finished,
            None => !(actions[k] is Return),
        } by {
            if k > 0 {
                assert(events[k] == tail[k - 1]);
            }
        }
    }
}

/// The steps of the poller against a service that answers without a
/// snapshot once for each reading of `clock` and then with `snapshot`: the
/// poller takes every event and ends by handing out `snapshot`; it asks
/// once for each answer, one more time than it was answered without a
/// snapshot, and after each such answer it sleeps once, for the interval of
/// the reading that came with the answer.
pub proof fn law_steps_until_snapshot(
    task: Seq<char>,
    clock: Seq<nat>,
    snapshot: Seq<char>,
    last: nat,
)
    ensures
        poll_run(
            task,
            PollState::Sleeping,
            answers_then_snapshot(clock, snapshot, last),
        ) matches Some((end, actions)) && {
            &&& end == PollState::Finished
            &&& actions.len() > 0
            &&& actions.last() == (PollActionView::Return { snapshot })
            &&& queries_in(actions) == clock.len() + 1
            &&& sleeps_in(actions) == Seq::new(clock.len(), |i: int| interval_at(clock[i]))
        },
    decreases clock.len(),
{
    let events = answers_then_snapshot(clock, snapshot, last);
    let after_wake = events.drop_first();
    let after_answer = after_wake.drop_first();
    let query = PollActionView::Query { task };
    if clock.len() == 0 {
        let answer = PollActionView::Return { snapshot };
        assert(poll_run(task, PollState::Finished, after_answer) == Some(
            (PollState::Finished, Seq::<PollActionView>::empty()),
        ));
        assert(poll_run(task, PollState::Querying, after_wake) == Some(
            (PollState::Finished, seq![answer] + Seq::<PollActionView>::empty()),
        ));
        reveal_with_fuel(queries_in, 3);
        reveal_with_fuel(sleeps_in, 3);
    } else {
        let later = clock.drop_first();
        law_steps_until_snapshot(task, later, snapshot, last);
        let rest_events = answers_then_snapshot(later, snapshot, last);
        assert(after_answer == rest_events);
        let (end, rest) = poll_run(task, PollState::Sleeping, rest_events)->Some_0;
        let sleep = PollActionView::Sleep { secs: interval_at(clock[0]) };
        let actions = seq![query] + (seq![sleep] + rest);
        assert(actions.drop_first().drop_first() == rest);
        assert(queries_in(actions) == 1 + queries_in(rest)) by {
            reveal_with_fuel(queries_in, 3);
        }
        assert(sleeps_in(actions) == seq![interval_at(clock[0])] + sleeps_in(rest)) by {
            reveal_with_fuel(sleeps_in, 3);
        }
    }
}

/// A whole polling against a service that answers without a snapshot
/// `clock.len() - 1` times and then with `snapshot`, where `clock` holds
/// the reading at the start and the reading after each answer without a
/// snapshot: the poller ends by handing out `snapshot`; it asks once for
/// each answer and sleeps once before each question, the first sleep
/// included, for the interval of the reading taken just before that sleep.
pub proof fn law_polling_until_snapshot(
    task: Seq<char>,
    clock: Seq<nat>,
    snapshot: Seq<char>,
    last: nat,
)
    requires
        clock.len() > 0,
    ensures
        polling(
            task,
            clock[0],
            answers_then_snapshot(clock.drop_first(), snapshot, last),
        ) matches Some((end, actions)) && {
            &&& end == PollState::Finished
            &&& actions.last() == (PollActionView::Return { snapshot })
            &&& queries_in(actions) == clock.len()
            &&& sleeps_in(actions) == Seq::new(clock.len(), |i: int| interval_at(clock[i]))
        },
{
    let later = clock.drop_first();
    law_steps_until_snapshot(task, later, snapshot, last);
    let (end, actions) = poll_run(
        task,
        PollState::Sleeping,
        answers_then_snapshot(later, snapshot, last),
    )->Some_0;
    let whole = seq![first_sleep(clock[0])] + actions;
    assert(whole.drop_first() == actions);
}

/// The readings of a clock that keeps running while the poller sleeps:
/// each reading lies after every earlier one by at least the sleep that
/// the earlier one led to.
pub open spec fn keeps_running(clock: Seq<nat>) -> bool {
    forall|i: int, j: int|
        0 <= i < j < clock.len() ==> #[trigger] clock[i] + interval_at(clock[i]) * 1_000_000_000
            <= #[trigger] clock[j]
}

/// With a clock that keeps running, the sleeps follow the time waited: no
/// sleep is shorter than one before it, the short interval is used for the
/// first nine sleeps at most, and from the fifteenth sleep on every sleep
/// has the long interval.
pub proof fn law_sleeps_lengthen_with_the_wait(clock: Seq<nat>)
    requires
        keeps_running(clock),
    ensures
        forall|i: int, j: int|
            0 <= i <= j < clock.len() ==> interval_at(#[trigger] clock[i]) <= interval_at(
                #[trigger] clock[j],
            ),
        forall|k: int| 9 <= k < clock.len() ==> interval_at(#[trigger] clock[k]) >= 40,
        forall|k: int| 14 <= k < clock.len() ==> interval_at(#[trigger] clock[k]) == 120,
{
    assert forall|k: int| 0 <= k < clock.len() implies #[trigger] clock[k] >= waited_at_least(
        k as nat,
    ) by {
        lemma_waited_at_least(clock, k);
    }
}

/// The least time, in nanoseconds, on a clock that keeps running when
/// `sleeps` sleeps are over: nine sleeps of the short interval, five of the
/// middle one, and sleeps of the long one from then on.
pub open spec fn waited_at_least(sleeps: nat) -> nat {
    if sleeps <= 9 {
        sleeps * 20 * 1_000_000_000
    } else if sleeps <= 14 {
        (180 + (sleeps - 9) * 40) as nat * 1_000_000_000
    } else {
        (380 + (sleeps - 14) * 120) as nat * 1_000_000_000
    }
}

/// A clock that keeps running shows at least `waited_at_least(k)` at its
/// reading `k`.
proof fn lemma_waited_at_least(clock: Seq<nat>, k: int)
    requires
        keeps_running(clock),
        0 <= k < clock.len(),
    ensures
        clock[k] >= waited_at_least(k as nat),
    decreases k,
{
    if k > 0 {
        lemma_waited_at_least(clock, k - 1);
    }
}

} // verus!
