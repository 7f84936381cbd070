//! The state machine of an install attempt: from the user's intents and the
//! worker's reports to the next state and the messages for the presentation
//! layer.

use vstd::prelude::*;
use crate::error::InstallError;
use crate::flags::SharedFlags;
use crate::progress::Progress;

verus! {

/// Where an install attempt stands.
#[derive(Clone, Copy, Debug, PartialEq, Eq, Structural)]
pub enum InstallState {
    /// No attempt has been started.
    Idle,
    /// The release is being resolved.
    Preparing,
    /// The asset is being downloaded; the fraction is the last one accepted.
    Downloading(Progress),
    /// The archive is being unpacked.
    Extracting,
    /// Temporary files are being removed.
    CleaningUp,
    /// The attempt succeeded.
    Done,
    /// The attempt was stopped at the user's request.
    Aborted,
    /// The attempt failed.
    Failed(InstallError),
}

/// What the presentation layer is told.
#[derive(Clone, Copy, Debug, PartialEq, Eq, Structural)]
pub enum Message {
    UpdateProgress(Progress),
    Preparing,
    Downloading,
    Extracting,
    CleaningUp,
    Error(InstallError),
    Done,
    Aborted,
}

/// What the user asks for.
#[derive(Clone, Copy, Debug, PartialEq, Eq, Structural)]
pub enum Intent {
    Install,
    Abort,
}

/// What the worker reports.
#[derive(Clone, Copy, Debug, PartialEq, Eq, Structural)]
pub enum WorkerEvent {
    /// The asset to download is known.
    Resolved,
    /// A chunk was written; the fraction now on disk.
    Progress(Progress),
    /// The download is complete and in place.
    Downloaded,
    /// Every entry of the archive was written.
    Extracted,
    /// Temporary files are gone.
    CleanedUp,
    /// The step in hand failed.
    Failed(InstallError),
}

/// The steps of an attempt that the worker carries out.
#[derive(Clone, Copy, Debug, PartialEq, Eq, Structural)]
pub enum Work {
    /// Fetch the release feed and choose the assets.
    Resolve,
    /// Download the chosen assets.
    Download,
    /// Unpack the downloaded archives into the target directory.
    Extract,
    /// Remove what the attempt left behind.
    CleanUp,
}

/// What the caller has to do after an intent.
#[derive(Clone, Copy, Debug, PartialEq, Eq, Structural)]
pub enum IntentOutcome {
    /// A new attempt began: send `Preparing` and start the worker.
    Started,
    /// An attempt is in flight: nothing changed, nothing is to be sent.
    Rejected,
    /// The abort flag is set; the worker stops at its next checkpoint.
    AbortRequested,
}

impl InstallState {
    /// How far along its attempt a state is.
    pub open spec fn rank(self) -> nat {
        match self {
            InstallState::Idle => 0,
            InstallState::Preparing => 1,
            InstallState::Downloading(_) => 2,
            InstallState::Extracting => 3,
            InstallState::CleaningUp => 4,
            InstallState::Done => 5,
            InstallState::Aborted => 5,
            InstallState::Failed(_) => 5,
        }
    }

    /// The states in which a worker is at work.
    pub open spec fn in_flight(self) -> bool {
        1 <= self.rank() <= 4
    }

    /// The states that end an attempt.
    pub open spec fn terminal(self) -> bool {
        self.rank() == 5
    }

    /// The state and the message that a failure leads to: a cancellation is
    /// a quiet stop, anything else an error.
    pub open spec fn after_failure(e: InstallError) -> (InstallState, Seq<Message>) {
        if e == InstallError::Cancelled {
            (InstallState::Aborted, seq![Message::Aborted])
        } else {
            (InstallState::Failed(e), seq![Message::Error(e)])
        }
    }

    /// The transition relation: the state after `event` and the messages sent
    /// on the way. A report that does not belong to the state in hand ends the
    /// attempt as an internal failure; outside an attempt it is ignored.
    pub open spec fn step(self, event: WorkerEvent) -> (InstallState, Seq<Message>) {
        if !self.in_flight() {
            (self, Seq::empty())
        } else {
            match (self, event) {
                (_, WorkerEvent::Failed(e)) => Self::after_failure(e),
                (InstallState::Preparing, WorkerEvent::Resolved) => (
                    InstallState::Downloading(Progress { millionths: 0 }),
                    seq![Message::Downloading],
                ),
                (InstallState::Downloading(at), WorkerEvent::Progress(p)) => if p.wf()
                    && at.millionths <= p.millionths {
                    (InstallState::Downloading(p), seq![Message::UpdateProgress(p)])
                } else {
                    (self, Seq::empty())
                },
                (InstallState::Downloading(at), WorkerEvent::Downloaded) => if at@
                    >= crate::progress::FULL {
                    (InstallState::Extracting, seq![Message::Extracting])
                } else {
                    (
                        InstallState::Extracting,
                        seq![
                            Message::UpdateProgress(
                                Progress { millionths: crate::progress::FULL },
                            ),
                            Message::Extracting,
                        ],
                    )
                },
                (InstallState::Extracting, WorkerEvent::Extracted) => (
                    InstallState::CleaningUp,
                    seq![Message::CleaningUp],
                ),
                (InstallState::CleaningUp, WorkerEvent::CleanedUp) => (
                    InstallState::Done,
                    seq![Message::Done],
                ),
                _ => Self::after_failure(InstallError::Internal),
            }
        }
    }

    /// The work that the worker has to do in this state; none outside an
    /// attempt.
    pub open spec fn work_of(self) -> Option<Work> {
        match self {
            InstallState::Preparing => Some(Work::Resolve),
            InstallState::Downloading(_) => Some(Work::Download),
            InstallState::Extracting => Some(Work::Extract),
            InstallState::CleaningUp => Some(Work::CleanUp),
            _ => None,
        }
    }

    /// What the worker has to do next: the work of the state in hand, or
    /// nothing once the attempt is over.
    pub fn work(&self) -> (w: Option<Work>)
        ensures
            w == self.work_of(),
            w is Some <==> self.in_flight(),
    {
        match self {
            InstallState::Preparing => Some(Work::Resolve),
            InstallState::Downloading(_) => Some(Work::Download),
            InstallState::Extracting => Some(Work::Extract),
            InstallState::CleaningUp => Some(Work::CleanUp),
            _ => None,
        }
    }

    /// Moves the state by a report of the worker, as `step` says, and
    /// returns the messages to send, in order.
    pub fn advance(&mut self, event: WorkerEvent) -> (messages: Vec<Message>)
        ensures
            (*final(self), messages@) == old(self).step(event),
            old(self).rank() <= final(self).rank(),
            old(self).rank() == final(self).rank() ==> messages@.len() <= 1,
    {
        let mut messages: Vec<Message> = Vec::new();
        if !self.is_in_flight() {
            assert(messages@ =~= Seq::<Message>::empty());
            return messages;
        }
        let next: InstallState = match (*self, event) {
            (_, WorkerEvent::Failed(e)) => {
                if e.is_cancelled() {
                    messages.push(Message::Aborted);
                    InstallState::Aborted
                } else {
                    messages.push(Message::Error(e));
                    InstallState::Failed(e)
                }
            },
            (InstallState::Preparing, WorkerEvent::Resolved) => {
                messages.push(Message::Downloading);
                InstallState::Downloading(Progress::zero())
            },
            (InstallState::Downloading(at), WorkerEvent::Progress(p)) => {
                if p.millionths <= crate::progress::FULL && at.millionths <= p.millionths {
                    messages.push(Message::UpdateProgress(p));
                    InstallState::Downloading(p)
                } else {
                    *self
                }
            },
            (InstallState::Downloading(at), WorkerEvent::Downloaded) => {
                if !at.is_complete() {
                    messages.push(Message::UpdateProgress(Progress::full()));
                }
                messages.push(Message::Extracting);
                InstallState::Extracting
            },
            (InstallState::Extracting, WorkerEvent::Extracted) => {
                messages.push(Message::CleaningUp);
                InstallState::CleaningUp
            },
            (InstallState::CleaningUp, WorkerEvent::CleanedUp) => {
                messages.push(Message::Done);
                InstallState::Done
            },
            _ => {
                messages.push(Message::Error(InstallError::Internal));
                InstallState::Failed(InstallError::Internal)
            },
        };
        assert(messages@ =~= old(self).step(event).1);
        *self = next;
        messages
    }

    /// Whether a worker is at work in this state.
    pub fn is_in_flight(&self) -> (b: bool)
        ensures
            b == self.in_flight(),
    {
        match self {
            InstallState::Preparing => true,
            InstallState::Downloading(_) => true,
            InstallState::Extracting => true,
            InstallState::CleaningUp => true,
            _ => false,
        }
    }

    /// Whether this state ends an attempt.
    pub fn is_terminal(&self) -> (b: bool)
        ensures
            b == self.terminal(),
    {
        match self {
            InstallState::Done => true,
            InstallState::Aborted => true,
            InstallState::Failed(_) => true,
            _ => false,
        }
    }
}

/// The install orchestrator: the state of the one attempt that can be
/// observed, and whether its worker has been joined.
#[derive(Clone, Copy, Debug, PartialEq, Eq, Structural)]
pub struct Orchestrator {
    /// The state of the current or the last attempt.
    pub state: InstallState,
    /// Whether a worker was started and has not been joined yet.
    pub worker_alive: bool,
}

impl Orchestrator {
    /// While an attempt is in flight its worker is alive, and before the
    /// first attempt there is none.
    pub open spec fn wf(self) -> bool {
        &&& self.state.in_flight() ==> self.worker_alive
        &&& self.state == InstallState::Idle ==> !self.worker_alive
    }

    /// Whether an `Install` intent starts an attempt now.
    pub open spec fn accepts_install(self) -> bool {
        !self.worker_alive && !self.state.in_flight()
    }

    /// An orchestrator before any attempt.
    pub fn new() -> (o: Orchestrator)
        ensures
            o.state == InstallState::Idle,
            !o.worker_alive,
            o.wf(),
    {
        Orchestrator { state: InstallState::Idle, worker_alive: false }
    }

    /// The state of the current or the last attempt.
    pub fn state(&self) -> (s: InstallState)
        ensures
            s == self.state,
    {
        self.state
    }

    /// Whether a worker was started and has not been joined yet.
    pub fn is_worker_alive(&self) -> (b: bool)
        ensures
            b == self.worker_alive,
    {
        self.worker_alive
    }

    /// What an intent of the user leads to: the orchestrator and the flags
    /// afterwards, what the caller has to do, and the messages to send.
    ///
    /// `Install` starts an attempt unless a worker is still alive: the abort
    /// flag is cleared, the state becomes `Preparing` and `Preparing` is the
    /// one message. While a worker is alive the intent changes nothing and
    /// sends nothing. `Abort` sets the abort flag and leaves the state to the
    /// worker's next report.
    pub open spec fn on_intent(self, intent: Intent, flags: SharedFlags) -> (
        Orchestrator,
        SharedFlags,
        IntentOutcome,
        Seq<Message>,
    ) {
        match intent {
            Intent::Install => if self.accepts_install() {
                (
                    Orchestrator { state: InstallState::Preparing, worker_alive: true },
                    SharedFlags { abort_requested: false },
                    IntentOutcome::Started,
                    seq![Message::Preparing],
                )
            } else {
                (self, flags, IntentOutcome::Rejected, Seq::empty())
            },
            Intent::Abort => (
                self,
                SharedFlags { abort_requested: true },
                IntentOutcome::AbortRequested,
                Seq::empty(),
            ),
        }
    }

    /// Takes an intent of the user, as `on_intent` says.
    pub fn handle_intent(&mut self, intent: Intent, flags: &mut SharedFlags) -> (r: (
        IntentOutcome,
        Vec<Message>,
    ))
        ensures
            (*final(self), *final(flags), r.0, r.1@) == old(self).on_intent(intent, *old(flags)),
            old(self).wf() ==> final(self).wf(),
    {
        let mut messages: Vec<Message> = Vec::new();
        match intent {
            Intent::Install => {
                if self.worker_alive || self.state.is_in_flight() {
                    (IntentOutcome::Rejected, messages)
                } else {
                    flags.reset();
                    self.state = InstallState::Preparing;
                    self.worker_alive = true;
                    messages.push(Message::Preparing);
                    assert(messages@ =~= seq![Message::Preparing]);
                    (IntentOutcome::Started, messages)
                }
            },
            Intent::Abort => {
                flags.request_abort();
                (IntentOutcome::AbortRequested, messages)
            },
        }
    }

    /// Takes a report of the worker and returns the messages to send, in
    /// order. The state moves as `InstallState::step` says; it never moves
    /// back, and a state once left is not entered again.
    pub fn on_worker_event(&mut self, event: WorkerEvent) -> (messages: Vec<Message>)
        ensures
            (final(self).state, messages@) == old(self).state.step(event),
            final(self).worker_alive == old(self).worker_alive,
            old(self).state.rank() <= final(self).state.rank(),
            old(self).state.rank() == final(self).state.rank() ==> messages@.len() <= 1,
            old(self).wf() ==> final(self).wf(),
    {
        self.state.advance(event)
    }

    /// Records that the worker has ended and was joined. If it ended while
    /// its attempt was still in flight, whether by a panic or by returning
    /// early, the attempt fails as `Internal` and the one message says so.
    /// Afterwards a new `Install` intent is accepted.
    pub fn on_worker_exit(&mut self) -> (messages: Vec<Message>)
        ensures
            !final(self).worker_alive,
            final(self).accepts_install(),
            old(self).state.in_flight() ==> {
                &&& final(self).state == InstallState::Failed(InstallError::Internal)
                &&& messages@ == seq![Message::Error(InstallError::Internal)]
            },
            !old(self).state.in_flight() ==> {
                &&& final(self).state == old(self).state
                &&& messages@ == Seq::<Message>::empty()
            },
            old(self).wf() ==> final(self).wf(),
    {
        let mut messages: Vec<Message> = Vec::new();
        if self.state.is_in_flight() {
            self.state = InstallState::Failed(InstallError::Internal);
            messages.push(Message::Error(InstallError::Internal));
            assert(messages@ =~= seq![Message::Error(InstallError::Internal)]);
        }
        self.worker_alive = false;
        messages
    }
}

/// The events that report these progress values, in order.
pub open spec fn progress_events(values: Seq<Progress>) -> Seq<WorkerEvent> {
    Seq::new(values.len(), |i: int| WorkerEvent::Progress(values[i]))
}

/// The messages that pass these progress values on, in order.
pub open spec fn progress_messages(values: Seq<Progress>) -> Seq<Message> {
    Seq::new(values.len(), |i: int| Message::UpdateProgress(values[i]))
}

/// Progress values as a download reports them: each between nothing and one
/// whole, none below the one before, the first not below `at`.
pub open spec fn rising_from(at: Progress, values: Seq<Progress>) -> bool {
    &&& forall|i: int| 0 <= i < values.len() ==> (#[trigger] values[i]).wf()
    &&& forall|i: int, j: int|
        0 <= i <= j < values.len() ==> (#[trigger] values[i]).millionths <= (
        #[trigger] values[j]).millionths
    &&& values.len() > 0 ==> at.millionths <= values[0].millionths
}

/// The last of `values`, or `at` where there is none.
pub open spec fn last_or(at: Progress, values: Seq<Progress>) -> Progress {
    if values.len() == 0 {
        at
    } else {
        values.last()
    }
}

impl InstallState {
    /// The state after the worker's reports `events`, and all messages sent
    /// on the way, in order.
    pub open spec fn run(self, events: Seq<WorkerEvent>) -> (InstallState, Seq<Message>)
        decreases events.len(),
    {
        if events.len() == 0 {
            (self, Seq::empty())
        } else {
            let (next, first) = self.step(events[0]);
            let (last, rest) = next.run(events.skip(1));
            (last, first + rest)
        }
    }
}

/// Reports taken in two batches give what they give in one.
pub proof fn lemma_run_in_two(s: InstallState, a: Seq<WorkerEvent>, b: Seq<WorkerEvent>)
    ensures
        s.run(a + b).0 == s.run(a).0.run(b).0,
        s.run(a + b).1 == s.run(a).1 + s.run(a).0.run(b).1,
    decreases a.len(),
{
    if a.len() == 0 {
        assert(a + b =~= b);
        assert(s.run(a).1 + s.run(b).1 =~= s.run(b).1);
    } else {
        let next = s.step(a[0]).0;
        assert((a + b)[0] == a[0]);
        assert((a + b).skip(1) =~= a.skip(1) + b);
        lemma_run_in_two(next, a.skip(1), b);
        assert(s.step(a[0]).1 + (next.run(a.skip(1)).1 + next.run(a.skip(1)).0.run(b).1)
            =~= s.step(a[0]).1 + next.run(a.skip(1)).1 + next.run(a.skip(1)).0.run(b).1);
    }
}

/// A single report gives what one step gives.
pub proof fn lemma_run_one(s: InstallState, event: WorkerEvent)
    ensures
        s.run(seq![event]) == s.step(event),
{
    let events = seq![event];
    let next = s.step(event).0;
    assert(events.skip(1).len() == 0);
    assert(next.run(events.skip(1)) == (next, Seq::<Message>::empty()));
    assert(s.step(event).1 + Seq::<Message>::empty() =~= s.step(event).1);
}

/// Outside an attempt no report changes the state or sends a message.
pub proof fn lemma_silent_outside_attempt(s: InstallState, events: Seq<WorkerEvent>)
    requires
        !s.in_flight(),
    ensures
        s.run(events) == (s, Seq::<Message>::empty()),
    decreases events.len(),
{
    if events.len() > 0 {
        lemma_silent_outside_attempt(s, events.skip(1));
        assert(Seq::<Message>::empty() + Seq::<Message>::empty() =~= Seq::<Message>::empty());
    }
}

/// While downloading, rising progress values are each passed on, in order.
pub proof fn lemma_run_progress(at: Progress, values: Seq<Progress>)
    requires
        rising_from(at, values),
    ensures
        InstallState::Downloading(at).run(progress_events(values)) == (
            InstallState::Downloading(last_or(at, values)),
            progress_messages(values),
        ),
    decreases values.len(),
{
    let s = InstallState::Downloading(at);
    let events = progress_events(values);
    if values.len() == 0 {
        assert(progress_messages(values) =~= Seq::<Message>::empty());
    } else {
        let rest = values.skip(1);
        assert(values[0].wf());
        assert(s.step(events[0]) == (
            InstallState::Downloading(values[0]),
            seq![Message::UpdateProgress(values[0])],
        ));
        assert(events.skip(1) =~= progress_events(rest));
        assert(rising_from(values[0], rest)) by {
            assert forall|i: int| 0 <= i < rest.len() implies (#[trigger] rest[i]).wf() by {
                assert(values[i + 1].wf());
            }
            assert forall|i: int, j: int| 0 <= i <= j < rest.len() implies (
            #[trigger] rest[i]).millionths <= (#[trigger] rest[j]).millionths by {
                assert(values[i + 1].millionths <= values[j + 1].millionths);
            }
            if rest.len() > 0 {
                assert(values[0].millionths <= values[1].millionths);
            }
        }
        lemma_run_progress(values[0], rest);
        assert(last_or(values[0], rest) == last_or(at, values));
        assert(seq![Message::UpdateProgress(values[0])] + progress_messages(rest)
            =~= progress_messages(values));
    }
}

/// The messages that bring the progress to one whole when the download is
/// in place: none if the last value passed on was already one whole.
pub open spec fn closing_messages(last: Progress) -> Seq<Message> {
    if last@ >= crate::progress::FULL {
        Seq::empty()
    } else {
        seq![Message::UpdateProgress(Progress { millionths: crate::progress::FULL })]
    }
}

/// A successful attempt sends `Preparing`, `Downloading`, the rising
/// progress values up to one whole, `Extracting`, `CleaningUp` and `Done`,
/// in this order and nothing else, and ends in `Done`.
pub proof fn law_success_order(o: Orchestrator, flags: SharedFlags, values: Seq<Progress>)
    requires
        o.accepts_install(),
        rising_from(Progress { millionths: 0 }, values),
    ensures
        ({
            let (started, _, _, first) = o.on_intent(Intent::Install, flags);
            let (end, rest) = started.state.run(
                seq![WorkerEvent::Resolved] + progress_events(values) + seq![
                    WorkerEvent::Downloaded,
                    WorkerEvent::Extracted,
                    WorkerEvent::CleanedUp,
                ],
            );
            &&& end == InstallState::Done
            &&& first + rest == seq![Message::Preparing, Message::Downloading] + progress_messages(
                values,
            ) + closing_messages(last_or(Progress { millionths: 0 }, values)) + seq![
                Message::Extracting,
                Message::CleaningUp,
                Message::Done,
            ]
        }),
{
    let zero = Progress { millionths: 0 };
    let head = seq![WorkerEvent::Resolved];
    let tail = seq![WorkerEvent::Downloaded, WorkerEvent::Extracted, WorkerEvent::CleanedUp];
    let last = last_or(zero, values);
    let downloading = InstallState::Downloading(last);
    lemma_run_in_two(InstallState::Preparing, head + progress_events(values), tail);
    lemma_run_in_two(InstallState::Preparing, head, progress_events(values));
    lemma_run_progress(zero, values);
    lemma_run_one(InstallState::Preparing, WorkerEvent::Resolved);
    assert(downloading.run(tail) == (
        InstallState::Done,
        closing_messages(last) + seq![Message::Extracting, Message::CleaningUp, Message::Done],
    )) by {
        let t1 = tail.skip(1);
        let t2 = t1.skip(1);
        let t3 = t2.skip(1);
        assert(t3.len() == 0);
        assert(InstallState::Done.run(t3) == (InstallState::Done, Seq::<Message>::empty()));
        assert(InstallState::CleaningUp.run(t2).0 == InstallState::Done);
        assert(InstallState::CleaningUp.run(t2).1 =~= seq![Message::Done]);
        assert(InstallState::Extracting.run(t1).0 == InstallState::Done);
        assert(InstallState::Extracting.run(t1).1 =~= seq![Message::CleaningUp, Message::Done]);
        assert(downloading.run(tail).0 == InstallState::Done);
        assert(downloading.run(tail).1 =~= closing_messages(last) + seq![
            Message::Extracting,
            Message::CleaningUp,
            Message::Done,
        ]);
    }
    let rest = seq![Message::Downloading] + progress_messages(values) + closing_messages(last)
        + seq![Message::Extracting, Message::CleaningUp, Message::Done];
    assert(seq![Message::Preparing] + rest =~= seq![Message::Preparing, Message::Downloading]
        + progress_messages(values) + closing_messages(last) + seq![
        Message::Extracting,
        Message::CleaningUp,
        Message::Done,
    ]);
    assert(InstallState::Preparing.run(head + progress_events(values) + tail).1 =~= rest);
}

/// From the start of an attempt until its worker is joined, a further
/// `Install` is rejected: whatever the worker has reported meanwhile and
/// whatever the flags hold, it changes nothing and sends no message, so
/// that no second worker is started.
pub proof fn law_one_attempt_at_a_time(
    o: Orchestrator,
    flags: SharedFlags,
    events: Seq<WorkerEvent>,
    later_flags: SharedFlags,
)
    requires
        o.accepts_install(),
    ensures
        ({
            let started = o.on_intent(Intent::Install, flags).0;
            let running = Orchestrator { state: started.state.run(events).0, ..started };
            &&& o.on_intent(Intent::Install, flags).2 == IntentOutcome::Started
            &&& running.on_intent(Intent::Install, later_flags) == (
                running,
                later_flags,
                IntentOutcome::Rejected,
                Seq::<Message>::empty(),
            )
        }),
{
}

/// A cancellation reported while extracting sends the one message `Aborted`
/// and ends the attempt as `Aborted`; whatever the worker reports
/// afterwards, no further message follows, so that `Done` never does.
pub proof fn law_abort_while_extracting(later: Seq<WorkerEvent>)
    ensures
        InstallState::Extracting.run(
            seq![WorkerEvent::Failed(InstallError::Cancelled)] + later,
        ) == (InstallState::Aborted, seq![Message::Aborted]),
{
    let first = seq![WorkerEvent::Failed(InstallError::Cancelled)];
    lemma_run_in_two(InstallState::Extracting, first, later);
    lemma_silent_outside_attempt(InstallState::Aborted, later);
    lemma_run_one(InstallState::Extracting, WorkerEvent::Failed(InstallError::Cancelled));
    assert(seq![Message::Aborted] + Seq::<Message>::empty() =~= seq![Message::Aborted]);
}

/// The message that announces the entry into a state; `Idle` is never
/// entered and announces nothing.
pub open spec fn entry_message(state: InstallState) -> Option<Message> {
    match state {
        InstallState::Idle => None,
        InstallState::Preparing => Some(Message::Preparing),
        InstallState::Downloading(_) => Some(Message::Downloading),
        InstallState::Extracting => Some(Message::Extracting),
        InstallState::CleaningUp => Some(Message::CleaningUp),
        InstallState::Done => Some(Message::Done),
        InstallState::Aborted => Some(Message::Aborted),
        InstallState::Failed(e) => Some(Message::Error(e)),
    }
}

/// Entering a state sends exactly one message, the one that announces it,
/// as the last message of the step; every other message of any step is a
/// progress update within range.
pub proof fn law_one_message_per_entry(s: InstallState, event: WorkerEvent)
    ensures
        ({
            let (next, messages) = s.step(event);
            let updates = if next.rank() != s.rank() {
                messages.len() - 1
            } else {
                messages.len() as int
            };
            &&& next.rank() != s.rank() ==> messages.len() >= 1 && Some(messages.last())
                == entry_message(next)
            &&& forall|i: int|
                0 <= i < updates ==> (#[trigger] messages[i]) is UpdateProgress
                    && messages[i]->UpdateProgress_0.wf()
        }),
{
}

/// Within an attempt the state never moves back: whatever the worker
/// reports, the state reached stands no earlier in the attempt than the
/// state begun with, so a state once left is not entered again.
pub proof fn law_never_back(s: InstallState, events: Seq<WorkerEvent>)
    ensures
        s.rank() <= s.run(events).0.rank(),
        s.terminal() ==> s.run(events).0 == s,
    decreases events.len(),
{
    if events.len() > 0 {
        law_never_back(s.step(events[0]).0, events.skip(1));
    }
}

} // verus!
