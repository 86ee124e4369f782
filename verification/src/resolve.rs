use vstd::prelude::*;
use crate::model::{Error, ErrorView, QueueItemRes, QueueItemResView};
use crate::{is_client_error_status, spec_is_client_error};

verus! {

/// Seconds the resolver waits before every poll, including the first.
pub const POLL_INTERVAL_SECS: u64 = 3;

/// The queue item endpoint polled for `location`.
pub open spec fn spec_poll_url(location: Seq<char>) -> Seq<char> {
    location + "api/json"@
}

/// Build the JSON endpoint URL of the queue item at `location`.
pub fn poll_url(location: &str) -> (r: String)
    ensures
        r@ == spec_poll_url(location@),
{
    let mut s = location.to_owned();
    s.append("api/json");
    s
}

/// What the transport reports back for one poll: either a transport
/// failure with its description, or the response's status code together
/// with the decoded body — `Err` carries the decoder's description where
/// the body did not parse as the expected JSON shape.
pub enum PollEvent {
    TransportError(String),
    Response { status: u16, body: Result<QueueItemRes, String> },
}

/// Mathematical image of a `PollEvent`.
pub enum PollEventView {
    TransportError(Seq<char>),
    Response { status: u16, body: Result<QueueItemResView, Seq<char>> },
}

impl View for PollEvent {
    type V = PollEventView;

    open spec fn view(&self) -> PollEventView {
        match self {
            PollEvent::TransportError(m) => PollEventView::TransportError(m@),
            PollEvent::Response { status, body } => PollEventView::Response {
                status: *status,
                body: match body {
                    Ok(qi) => Ok(qi@),
                    Err(m) => Err(m@),
                },
            },
        }
    }
}

impl DeepView for PollEvent {
    type V = PollEventView;

    open spec fn deep_view(&self) -> PollEventView {
        self.view()
    }
}

/// The protocol's verdict on one poll.
pub enum PollStep {
    Resolved(QueueItemRes),
    KeepPolling,
    Fail(Error),
}

/// Mathematical image of a `PollStep`.
pub enum PollStepView {
    Resolved(QueueItemResView),
    KeepPolling,
    Fail(ErrorView),
}

impl View for PollStep {
    type V = PollStepView;

    open spec fn view(&self) -> PollStepView {
        match self {
            PollStep::Resolved(qi) => PollStepView::Resolved(qi@),
            PollStep::KeepPolling => PollStepView::KeepPolling,
            PollStep::Fail(e) => PollStepView::Fail(e@),
        }
    }
}

/// The polling protocol's verdict on a transport report: a transport
/// failure is a network error; a client-error status means the queue item
/// does not exist (already running, finished, or cancelled); otherwise an
/// undecodable body is a decode error; a decoded body with `executable`
/// present resolves the session to that body, and one without keeps
/// polling.
pub open spec fn spec_poll_step(ev: PollEventView) -> PollStepView {
    match ev {
        PollEventView::TransportError(m) => PollStepView::Fail(ErrorView::NetworkError(m)),
        PollEventView::Response { status, body } => if spec_is_client_error(status) {
            PollStepView::Fail(ErrorView::QueueItemNotExists)
        } else {
            match body {
                Err(m) => PollStepView::Fail(ErrorView::DecodeError(m)),
                Ok(qi) => if qi.executable is Some {
                    PollStepView::Resolved(qi)
                } else {
                    PollStepView::KeepPolling
                },
            }
        },
    }
}

/// Classify the transport's report of one poll, exactly as
/// `spec_poll_step` describes.
pub fn poll_step(ev: &PollEvent) -> (r: PollStep)
    ensures
        r@ == spec_poll_step(ev@),
{
    match ev {
        PollEvent::TransportError(m) => PollStep::Fail(Error::NetworkError(m.clone())),
        PollEvent::Response { status, body } => {
            if is_client_error_status(*status) {
                PollStep::Fail(Error::QueueItemNotExists)
            } else {
                match body {
                    Err(m) => PollStep::Fail(Error::DecodeError(m.clone())),
                    Ok(qi) => {
                        if qi.executable.is_some() {
                            PollStep::Resolved(qi.duplicate())
                        } else {
                            PollStep::KeepPolling
                        }
                    },
                }
            }
        },
    }
}

/// How a polling session ends: resolved to the first queue item snapshot
/// whose `executable` was present, or failed.
pub enum ResolveOutcome {
    Resolved(QueueItemRes),
    Failed(Error),
}

/// Mathematical image of a `ResolveOutcome`.
pub enum ResolveOutcomeView {
    Resolved(QueueItemResView),
    Failed(ErrorView),
}

impl View for ResolveOutcome {
    type V = ResolveOutcomeView;

    open spec fn view(&self) -> ResolveOutcomeView {
        match self {
            ResolveOutcome::Resolved(qi) => ResolveOutcomeView::Resolved(qi@),
            ResolveOutcome::Failed(e) => ResolveOutcomeView::Failed(e@),
        }
    }
}

/// What the driver of a polling session must do next.
#[derive(Debug, PartialEq, Eq, Structural)]
pub enum ResolverAction {
    Sleep(u64),
    Poll,
    Stop,
}

/// The polling session's state machine.  A fresh resolver first demands a
/// sleep; a completed sleep enables exactly one poll; the poll's event
/// either finishes the session or demands the next sleep.  The driver
/// performs the action `next_action` names and reports back through
/// `on_slept` and `on_poll_event`.
pub enum Resolver {
    NeedSleep,
    NeedPoll,
    Finished(ResolveOutcome),
}

/// Mathematical image of a `Resolver`.
pub enum ResolverView {
    NeedSleep,
    NeedPoll,
    Finished(ResolveOutcomeView),
}

impl View for Resolver {
    type V = ResolverView;

    open spec fn view(&self) -> ResolverView {
        match self {
            Resolver::NeedSleep => ResolverView::NeedSleep,
            Resolver::NeedPoll => ResolverView::NeedPoll,
            Resolver::Finished(o) => ResolverView::Finished(o@),
        }
    }
}

/// The state a poll event moves the session to, from the polling state:
/// a terminal step finishes the session, and a kept poll demands the next
/// sleep.  In any other state the event is ignored.
pub open spec fn spec_after_event(pre: ResolverView, ev: PollEventView) -> ResolverView {
    if pre == ResolverView::NeedPoll {
        match spec_poll_step(ev) {
            PollStepView::Resolved(qi) => ResolverView::Finished(ResolveOutcomeView::Resolved(qi)),
            PollStepView::Fail(e) => ResolverView::Finished(ResolveOutcomeView::Failed(e)),
            PollStepView::KeepPolling => ResolverView::NeedSleep,
        }
    } else {
        pre
    }
}

impl Resolver {
    /// A fresh polling session; it demands a sleep before the first poll.
    pub fn start() -> (r: Resolver)
        ensures
            r@ == ResolverView::NeedSleep,
    {
        Resolver::NeedSleep
    }

    /// The next thing the driver must do: sleep the fixed interval, issue
    /// one poll, or stop because the session is finished.
    pub fn next_action(&self) -> (a: ResolverAction)
        ensures
            self@ == ResolverView::NeedSleep ==> a == ResolverAction::Sleep(POLL_INTERVAL_SECS),
            self@ == ResolverView::NeedPoll ==> a == ResolverAction::Poll,
            self@ is Finished ==> a == ResolverAction::Stop,
    {
        match self {
            Resolver::NeedSleep => ResolverAction::Sleep(POLL_INTERVAL_SECS),
            Resolver::NeedPoll => ResolverAction::Poll,
            Resolver::Finished(_) => ResolverAction::Stop,
        }
    }

    /// Report that the demanded sleep completed; only then is a poll
    /// enabled.  In any other state the report is ignored.
    pub fn on_slept(&mut self)
        ensures
            old(self)@ == ResolverView::NeedSleep ==> final(self)@ == ResolverView::NeedPoll,
            old(self)@ != ResolverView::NeedSleep ==> final(self)@ == old(self)@,
    {
        let sleeping = match self {
            Resolver::NeedSleep => true,
            _ => false,
        };
        if sleeping {
            *self = Resolver::NeedPoll;
        }
    }

    /// Report what the transport saw for the demanded poll; the session
    /// moves exactly as `spec_after_event` describes.
    pub fn on_poll_event(&mut self, ev: PollEvent)
        ensures
            final(self)@ == spec_after_event(old(self)@, ev@),
    {
        let polling = match self {
            Resolver::NeedPoll => true,
            _ => false,
        };
        if polling {
            match poll_step(&ev) {
                PollStep::Resolved(qi) => {
                    *self = Resolver::Finished(ResolveOutcome::Resolved(qi));
                },
                PollStep::Fail(e) => {
                    *self = Resolver::Finished(ResolveOutcome::Failed(e));
                },
                PollStep::KeepPolling => {
                    *self = Resolver::NeedSleep;
                },
            }
        }
    }
}

/// How a polling session that saw exactly the given events ends:
/// the verdict of the first non-kept event, or exhaustion if every event
/// kept the session polling.
pub enum ReplayOutcome {
    Resolved(QueueItemRes),
    Failed(Error),
    Exhausted,
}

/// Mathematical image of a `ReplayOutcome`.
pub enum ReplayOutcomeView {
    Resolved(QueueItemResView),
    Failed(ErrorView),
    Exhausted,
}

impl View for ReplayOutcome {
    type V = ReplayOutcomeView;

    open spec fn view(&self) -> ReplayOutcomeView {
        match self {
            ReplayOutcome::Resolved(qi) => ReplayOutcomeView::Resolved(qi@),
            ReplayOutcome::Failed(e) => ReplayOutcomeView::Failed(e@),
            ReplayOutcome::Exhausted => ReplayOutcomeView::Exhausted,
        }
    }
}

/// The end of a polling session that sees the events in order: the
/// verdict of the first event that does not keep the session polling.
pub open spec fn spec_replay(events: Seq<PollEventView>) -> ReplayOutcomeView
    decreases events.len(),
{
    if events.len() <= 0 {
        ReplayOutcomeView::Exhausted
    } else {
        match spec_poll_step(events[0]) {
            PollStepView::Resolved(qi) => ReplayOutcomeView::Resolved(qi),
            PollStepView::Fail(e) => ReplayOutcomeView::Failed(e),
            PollStepView::KeepPolling => spec_replay(events.skip(1)),
        }
    }
}

/// Run a whole polling session against a recorded sequence of transport
/// reports, in order, and return how it ends.
pub fn resolve_events(events: &Vec<PollEvent>) -> (r: ReplayOutcome)
    ensures
        r@ == spec_replay(events.deep_view()),
{
    let ghost evs = events.deep_view();
    proof {
        assert(evs.skip(0) =~= evs);
    }
    let mut i: usize = 0;
    while i < events.len()
        invariant
            0 <= i <= events.len(),
            evs == events.deep_view(),
            spec_replay(evs) == spec_replay(evs.skip(i as int)),
        decreases events.len() - i,
    {
        proof {
            assert(evs.skip(i as int)[0] == evs[i as int]);
        }
        let step = poll_step(&events[i]);
        match step {
            PollStep::Resolved(qi) => {
                return ReplayOutcome::Resolved(qi);
            },
            PollStep::Fail(e) => {
                return ReplayOutcome::Failed(e);
            },
            PollStep::KeepPolling => {
                proof {
                    assert(evs.skip(i as int).skip(1) =~= evs.skip(i as int + 1));
                }
                i = i + 1;
            },
        }
    }
    ReplayOutcome::Exhausted
}

/// Whether a poll response offers a build: a non-client-error status
/// whose decoded body carries `executable`.
pub open spec fn offers_executable(ev: PollEventView) -> bool {
    match ev {
        PollEventView::Response { status, body } => !spec_is_client_error(status)
            && (body matches Ok(qi) && qi.executable is Some),
        _ => false,
    }
}

/// A poll's verdict resolves the session exactly when the response offers
/// a build, and then to that response's decoded body itself.
pub proof fn lemma_resolved_step_from_event(ev: PollEventView)
    ensures
        (spec_poll_step(ev) is Resolved) == offers_executable(ev),
        spec_poll_step(ev) matches PollStepView::Resolved(qi) ==> ev matches PollEventView::Response { status, body } && body == Ok::<
            QueueItemResView,
            Seq<char>,
        >(qi) && qi.executable is Some,
{
}

/// The index of the first event whose verdict is not to keep polling.
pub open spec fn spec_first_decisive(events: Seq<PollEventView>) -> int
    decreases events.len(),
{
    if events.len() <= 0 {
        0
    } else if spec_poll_step(events[0]) is KeepPolling {
        1 + spec_first_decisive(events.skip(1))
    } else {
        0
    }
}

/// A session resolves only to the decoded body of the first poll response
/// that offered a build: every earlier response kept the session polling,
/// and the returned snapshot is exactly that response's, `executable`
/// included.
pub proof fn lemma_resolved_is_first_offer(events: Seq<PollEventView>, qi: QueueItemResView)
    requires
        spec_replay(events) == ReplayOutcomeView::Resolved(qi),
    ensures
        0 <= spec_first_decisive(events) < events.len(),
        spec_poll_step(events[spec_first_decisive(events)]) == PollStepView::Resolved(qi),
        offers_executable(events[spec_first_decisive(events)]),
        events[spec_first_decisive(events)] matches PollEventView::Response { status, body }
            && body == Ok::<QueueItemResView, Seq<char>>(qi),
        qi.executable is Some,
        forall|j: int|
            0 <= j < spec_first_decisive(events) ==> #[trigger] spec_poll_step(events[j]) is KeepPolling,
        forall|j: int|
            0 <= j < spec_first_decisive(events) ==> !#[trigger] offers_executable(events[j]),
    decreases events.len(),
{
    lemma_resolved_step_from_event(events[0]);
    match spec_poll_step(events[0]) {
        PollStepView::Resolved(q) => {
        },
        PollStepView::Fail(e) => {
        },
        PollStepView::KeepPolling => {
            let rest = events.skip(1);
            lemma_resolved_is_first_offer(rest, qi);
            let i = spec_first_decisive(rest);
            assert(spec_first_decisive(events) == 1 + i);
            assert(events[1 + i] == rest[i]);
            assert forall|j: int| 0 <= j < spec_first_decisive(events) implies #[trigger] spec_poll_step(
                events[j],
            ) is KeepPolling by {
                if j > 0 {
                    assert(events[j] == rest[j - 1]);
                }
            }
            lemma_resolved_step_from_event(events[1 + i]);
        },
    }
    assert forall|j: int| 0 <= j < spec_first_decisive(events) implies !#[trigger] offers_executable(
        events[j],
    ) by {
        assert(spec_poll_step(events[j]) is KeepPolling);
        lemma_resolved_step_from_event(events[j]);
    }
}

/// A session never resolves while `executable` is absent from every poll
/// response it has seen.
pub proof fn lemma_no_resolution_without_offer(events: Seq<PollEventView>)
    requires
        forall|i: int| 0 <= i < events.len() ==> !#[trigger] offers_executable(events[i]),
    ensures
        !(spec_replay(events) is Resolved),
    decreases events.len(),
{
    if events.len() > 0 {
        lemma_resolved_step_from_event(events[0]);
        if spec_poll_step(events[0]) is KeepPolling {
            let rest = events.skip(1);
            assert forall|i: int| 0 <= i < rest.len() implies !#[trigger] offers_executable(
                rest[i],
            ) by {
                assert(rest[i] == events[i + 1]);
            }
            lemma_no_resolution_without_offer(rest);
        }
    }
}

/// A poll that answers with a client-error status ends the session at
/// once with the queue-item-not-exists failure: whatever events would
/// have followed are never consulted, so no further poll is issued.
pub proof fn lemma_client_error_fails_immediately(first: PollEventView, rest: Seq<PollEventView>)
    requires
        first matches PollEventView::Response { status, body } && spec_is_client_error(status),
    ensures
        spec_replay(seq![first] + rest) == ReplayOutcomeView::Failed(ErrorView::QueueItemNotExists),
{
    let evs = seq![first] + rest;
    assert(evs[0] == first);
    assert(spec_poll_step(first) == PollStepView::Fail(ErrorView::QueueItemNotExists));
}

/// A polling session with an overall cap on the number of polls.  The
/// plain `Resolver` mirrors the protocol as served, which polls for as
/// long as the queue item stays queued; a bounded session additionally
/// stops once `max_polls` polls have been spent without a verdict, and
/// `finish` surfaces that as the timeout error.
pub struct BoundedResolver {
    inner: Resolver,
    remaining: u64,
}

/// Mathematical image of a `BoundedResolver`.
pub struct BoundedResolverView {
    pub inner: ResolverView,
    pub remaining: u64,
}

impl View for BoundedResolver {
    type V = BoundedResolverView;

    closed spec fn view(&self) -> BoundedResolverView {
        BoundedResolverView { inner: self.inner@, remaining: self.remaining }
    }
}

impl BoundedResolver {
    /// A fresh bounded session that will issue at most `max_polls` polls.
    pub fn start(max_polls: u64) -> (r: BoundedResolver)
        ensures
            r@.inner == ResolverView::NeedSleep,
            r@.remaining == max_polls,
    {
        BoundedResolver { inner: Resolver::start(), remaining: max_polls }
    }

    /// The next thing the driver must do; `Stop` also once the poll
    /// budget is spent.
    pub fn next_action(&self) -> (a: ResolverAction)
        ensures
            self@.inner is Finished ==> a == ResolverAction::Stop,
            !(self@.inner is Finished) && self@.remaining == 0 ==> a == ResolverAction::Stop,
            self@.inner == ResolverView::NeedSleep && self@.remaining > 0 ==> a
                == ResolverAction::Sleep(POLL_INTERVAL_SECS),
            self@.inner == ResolverView::NeedPoll && self@.remaining > 0 ==> a
                == ResolverAction::Poll,
    {
        let finished = match &self.inner {
            Resolver::Finished(_) => true,
            _ => false,
        };
        if finished || self.remaining == 0 {
            ResolverAction::Stop
        } else {
            self.inner.next_action()
        }
    }

    /// Report that the demanded sleep completed.  The budget is untouched:
    /// only polls consume it.
    pub fn on_slept(&mut self)
        ensures
            final(self)@.remaining == old(self)@.remaining,
            old(self)@.inner == ResolverView::NeedSleep ==> final(self)@.inner
                == ResolverView::NeedPoll,
            old(self)@.inner != ResolverView::NeedSleep ==> final(self)@.inner == old(self)@.inner,
    {
        self.inner.on_slept();
    }

    /// Report what the transport saw for the demanded poll: the session
    /// moves as `spec_after_event` describes and one unit of budget is
    /// consumed.  Without budget, or outside the polling state, the
    /// report is ignored.
    pub fn on_poll_event(&mut self, ev: PollEvent)
        ensures
            old(self)@.inner == ResolverView::NeedPoll && old(self)@.remaining > 0 ==> {
                &&& final(self)@.inner == spec_after_event(old(self)@.inner, ev@)
                &&& final(self)@.remaining == old(self)@.remaining - 1
            },
            !(old(self)@.inner == ResolverView::NeedPoll && old(self)@.remaining > 0)
                ==> final(self)@ == old(self)@,
    {
        let polling = match &self.inner {
            Resolver::NeedPoll => true,
            _ => false,
        };
        if polling && self.remaining > 0 {
            self.remaining = self.remaining - 1;
            self.inner.on_poll_event(ev);
        }
    }

    /// The session's verdict once `next_action` answers `Stop`: its
    /// outcome, or the timeout failure where the poll budget ran out
    /// before the server gave one.
    pub fn finish(self) -> (r: ResolveOutcome)
        ensures
            self@.inner matches ResolverView::Finished(o) ==> r@ == o,
            !(self@.inner is Finished) ==> r@ == ResolveOutcomeView::Failed(ErrorView::Timeout),
    {
        match self.inner {
            Resolver::Finished(o) => o,
            _ => ResolveOutcome::Failed(Error::Timeout),
        }
    }
}

/// The transitions a driver that heeds a bounded session's `next_action`
/// can make: complete a demanded sleep, or hand a demanded poll's event
/// to the session.  Both demand budget; a poll consumes one unit.
pub open spec fn bounded_transition(pre: BoundedResolverView, post: BoundedResolverView) -> bool {
    ||| (pre.inner == ResolverView::NeedSleep && pre.remaining > 0 && post == BoundedResolverView {
        inner: ResolverView::NeedPoll,
        remaining: pre.remaining,
    })
    ||| (pre.inner == ResolverView::NeedPoll && pre.remaining > 0 && exists|ev: PollEventView|
        post == BoundedResolverView {
            inner: #[trigger] spec_after_event(pre.inner, ev),
            remaining: (pre.remaining - 1) as u64,
        })
}

/// How many polls a run makes: the transitions that leave the polling
/// state.
pub open spec fn polls_in(trace: Seq<BoundedResolverView>) -> int
    decreases trace.len(),
{
    if trace.len() <= 1 {
        0
    } else {
        (if trace[0].inner == ResolverView::NeedPoll {
            1int
        } else {
            0int
        }) + polls_in(trace.skip(1))
    }
}

/// A bounded session keeps its word: in any run that follows the
/// transitions, the number of polls never exceeds the budget the run
/// began with.
pub proof fn lemma_polls_within_budget(trace: Seq<BoundedResolverView>)
    requires
        trace.len() > 0,
        forall|i: int|
            0 <= i < trace.len() - 1 ==> #[trigger] bounded_transition(trace[i], trace[i + 1]),
    ensures
        polls_in(trace) <= trace[0].remaining,
    decreases trace.len(),
{
    if trace.len() > 1 {
        let rest = trace.skip(1);
        let k: int = 0;
        assert(bounded_transition(trace[k], trace[k + 1]));
        assert(rest[0] == trace[1]);
        assert forall|i: int| 0 <= i < rest.len() - 1 implies #[trigger] bounded_transition(
            rest[i],
            rest[i + 1],
        ) by {
            assert(rest[i] == trace[i + 1]);
            assert(rest[i + 1] == trace[i + 2]);
            assert(bounded_transition(trace[i + 1], trace[i + 2]));
        }
        lemma_polls_within_budget(rest);
    }
}

/// The transitions a driver that heeds `next_action` can make: complete
/// the demanded sleep, or hand the demanded poll's event to the session.
pub open spec fn resolver_transition(pre: ResolverView, post: ResolverView) -> bool {
    ||| (pre == ResolverView::NeedSleep && post == ResolverView::NeedPoll)
    ||| (pre == ResolverView::NeedPoll && exists|ev: PollEventView|
        post == #[trigger] spec_after_event(pre, ev))
}

/// In any run of the session that starts fresh and follows the
/// transitions, the polling state is entered only by completing a sleep:
/// the session waits the fixed interval before every poll, the first
/// included.
pub proof fn lemma_poll_preceded_by_sleep(trace: Seq<ResolverView>)
    requires
        trace.len() > 0,
        trace[0] == ResolverView::NeedSleep,
        forall|i: int|
            0 <= i < trace.len() - 1 ==> #[trigger] resolver_transition(trace[i], trace[i + 1]),
    ensures
        forall|i: int|
            0 <= i < trace.len() && #[trigger] trace[i] == ResolverView::NeedPoll ==> i > 0
                && trace[i - 1] == ResolverView::NeedSleep,
{
    assert forall|i: int|
        0 <= i < trace.len() && #[trigger] trace[i] == ResolverView::NeedPoll implies i > 0 && trace[i
        - 1] == ResolverView::NeedSleep by {
        if i > 0 {
            let k = i - 1;
            assert(trace[k + 1] == trace[i]);
            assert(resolver_transition(trace[k], trace[k + 1]));
            if trace[i - 1] == ResolverView::NeedPoll {
                let ev = choose|ev: PollEventView|
                    trace[i] == #[trigger] spec_after_event(trace[i - 1], ev);
                assert(spec_after_event(trace[i - 1], ev) != ResolverView::NeedPoll);
            }
        }
    }
}

} // verus!
