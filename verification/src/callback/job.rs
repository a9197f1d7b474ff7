//! Callback jobs and the queue that takes them to the workers.

use std::collections::VecDeque;

use vstd::prelude::*;

use tokio::time::Instant;

use crate::metrics::clock::Moment;
use crate::metrics::context::{ContextView, PhaseId, PhaseTimer, RequestMetricContext};
use crate::metrics::phase::RequestMetricPhase;

verus! {

/// What a callback job holds.
pub struct JobView<P> {
    pub callback_id: i64,
    pub payload: P,
    pub request: Option<ContextView>,
    pub detailed_completion: bool,
    /// The timer of the wait in the queue, with the id of its phase.
    pub callback_queue: Option<Option<PhaseId>>,
}

/// A callback payload and the sampled request that it ends, where there is one.
pub struct CallbackJob<P> {
    pub callback_id: i64,
    pub payload: P,
    pub request_metrics: Option<RequestMetricContext>,
    pub detailed_completion: bool,
    pub callback_queue: Option<PhaseTimer>,
}

/// What a request holds, where there is one.
pub open spec fn request_view(request: Option<RequestMetricContext>) -> Option<ContextView> {
    match request {
        Some(request) => Some(request@),
        None => None,
    }
}

/// The id of the phase of a timer, where there is a timer.
pub open spec fn timer_view(timer: Option<PhaseTimer>) -> Option<Option<PhaseId>> {
    match timer {
        Some(timer) => Some(timer@),
        None => None,
    }
}

/// The id of the phase that a timer closes, where there is a timer and it has a phase.
pub open spec fn timer_id(timer: Option<Option<PhaseId>>) -> Option<PhaseId> {
    match timer {
        Some(id) => id,
        None => None,
    }
}

impl<P> View for CallbackJob<P> {
    type V = JobView<P>;

    open spec fn view(&self) -> JobView<P> {
        JobView {
            callback_id: self.callback_id,
            payload: self.payload,
            request: request_view(self.request_metrics),
            detailed_completion: self.detailed_completion,
            callback_queue: timer_view(self.callback_queue),
        }
    }
}

impl<P> JobView<P> {
    /// Whether a wait that was started belongs to the request that the job has.
    pub open spec fn paired(self) -> bool {
        match self.request {
            Some(request) => request.started(timer_id(self.callback_queue)),
            None => self.callback_queue is None,
        }
    }

    /// The job when it is queued at this moment: a sampled request starts to wait.
    pub open spec fn queued(self, now: Moment) -> JobView<P> {
        match self.request {
            Some(request) => JobView {
                request: Some(request.phase_started(RequestMetricPhase::CallbackQueue, now)),
                callback_queue: Some(request.started_id()),
                ..self
            },
            None => JobView { callback_queue: None, ..self },
        }
    }

    /// The job when it is queued at this instant, as the clock of its request shows it.
    pub open spec fn queued_at(self, instant: Instant) -> JobView<P> {
        self.queued(self.shown(instant))
    }

    /// What the clock of the request shows at an instant; any moment where there is no request.
    pub open spec fn shown(self, instant: Instant) -> Moment {
        match self.request {
            Some(request) => request.clock.shows(instant),
            None => Moment { nanos: 0 },
        }
    }

    /// The job when a worker has it at these instants, as the clock of its request shows them.
    pub open spec fn begun_at(self, waited: Instant, now: Instant) -> JobView<P> {
        self.begun(self.shown(waited), self.shown(now))
    }

    /// The job when a worker has it at this moment: the wait ends and the completion starts.
    pub open spec fn begun(self, waited: Moment, now: Moment) -> JobView<P> {
        JobView {
            request: match self.request {
                Some(request) => Some(
                    request.phase_closed(timer_id(self.callback_queue), waited).phase_started(
                        RequestMetricPhase::CallbackComplete,
                        now,
                    ),
                ),
                None => None,
            },
            callback_queue: None,
            ..self
        }
    }
}

impl<P> CallbackJob<P> {
    /// A job that was not queued yet.
    pub fn new(
        callback_id: i64,
        payload: P,
        request_metrics: Option<RequestMetricContext>,
        detailed_completion: bool,
    ) -> (job: CallbackJob<P>)
        ensures
            job@ == (JobView {
                callback_id,
                payload,
                request: request_view(request_metrics),
                detailed_completion,
                callback_queue: None,
            }),
    {
        CallbackJob { callback_id, payload, request_metrics, detailed_completion, callback_queue: None }
    }

    /// Whether a wait that was started belongs to the request that the job has.
    pub fn is_paired(&self) -> (paired: bool)
        ensures
            paired == self@.paired(),
    {
        match (&self.request_metrics, &self.callback_queue) {
            (Some(context), Some(timer)) => timer.is_of(context),
            (Some(_), None) => true,
            (None, Some(_)) => false,
            (None, None) => true,
        }
    }

    /// Starts the wait in the queue now, where the request is sampled.
    pub fn begin_wait(&mut self)
        ensures
            exists|instant: Instant| final(self)@ == #[trigger] old(self)@.queued_at(instant),
    {
        let now = self.now();
        proof {
            let instant = choose|instant: Instant| now == #[trigger] self@.shown(instant);
            assert(self@.queued(now) == self@.queued_at(instant));
        }
        self.begin_wait_at(now)
    }

    /// Reads the clock of the request, where there is one.
    fn now(&self) -> (now: Moment)
        ensures
            exists|instant: Instant| now == #[trigger] self@.shown(instant),
    {
        match &self.request_metrics {
            Some(context) => {
                let now = context.now();
                proof {
                    let instant = choose|instant: Instant|
                        now == #[trigger] context@.clock.shows(instant);
                    assert(now == self@.shown(instant));
                }
                now
            },
            None => {
                let now = Moment { nanos: 0 };
                proof {
                    assert(now == self@.shown(arbitrary()));
                }
                now
            },
        }
    }

    /// Starts the wait in the queue at `now`, where the request is sampled.
    pub fn begin_wait_at(&mut self, now: Moment)
        ensures
            final(self)@ == old(self)@.queued(now),
    {
        match &mut self.request_metrics {
            Some(context) => {
                self.callback_queue = Some(context.start_phase_at(RequestMetricPhase::CallbackQueue, now));
            },
            None => {
                self.callback_queue = None;
            },
        }
    }
}

/// The jobs in a queue, first in first out.
pub open spec fn jobs_view<P>(jobs: Seq<CallbackJob<P>>) -> Seq<JobView<P>> {
    Seq::new(jobs.len(), |i: int| jobs[i]@)
}

/// What a callback queue holds.
#[verifier::ext_equal]
pub struct QueueView<P> {
    pub jobs: Seq<JobView<P>>,
    /// Whether there are workers to take the jobs.
    pub open: bool,
}

/// The unbounded queue from completed commands to callback workers.
pub struct CallbackQueue<P> {
    jobs: VecDeque<CallbackJob<P>>,
    open: bool,
}

impl<P> View for CallbackQueue<P> {
    type V = QueueView<P>;

    closed spec fn view(&self) -> QueueView<P> {
        QueueView { jobs: jobs_view(self.jobs@), open: self.open }
    }
}

impl<P> CallbackQueue<P> {
    /// An empty queue with workers.
    pub fn new() -> (queue: CallbackQueue<P>)
        ensures
            queue@ == (QueueView { jobs: Seq::<JobView<P>>::empty(), open: true }),
    {
        let queue = CallbackQueue { jobs: VecDeque::new(), open: true };
        proof {
            assert(queue@.jobs =~= Seq::<JobView<P>>::empty());
        }
        queue
    }

    /// Notes that the workers are gone: jobs are refused from now on, and those that wait are
    /// discarded.
    pub fn close(&mut self)
        ensures
            final(self)@ == (QueueView { jobs: Seq::<JobView<P>>::empty(), open: false }),
    {
        self.jobs.clear();
        self.open = false;
        proof {
            assert(self@.jobs =~= Seq::<JobView<P>>::empty());
        }
    }

    /// How many jobs wait.
    pub fn len(&self) -> (count: usize)
        ensures
            count == self@.jobs.len(),
    {
        self.jobs.len()
    }

    /// Whether there are workers to take jobs.
    pub fn is_open(&self) -> (open: bool)
        ensures
            open == self@.open,
    {
        self.open
    }

    /// The job that waited longest, where there is one.
    pub fn first(&self) -> (job: Option<&CallbackJob<P>>)
        ensures
            match job {
                Some(job) => self@.jobs.len() > 0 && job@ == self@.jobs[0],
                None => self@.jobs.len() == 0,
            },
    {
        if self.jobs.len() > 0 {
            Some(&self.jobs[0])
        } else {
            None
        }
    }

    /// Puts a request into the job that waited longest, and hands out what was there. Where no job
    /// waits, the request itself comes back.
    pub fn exchange_first(&mut self, request: Option<RequestMetricContext>) -> (exchanged: Option<
        RequestMetricContext,
    >)
        ensures
            if old(self)@.jobs.len() > 0 {
                &&& request_view(exchanged) == old(self)@.jobs[0].request
                &&& final(self)@ == (QueueView {
                    jobs: old(self)@.jobs.update(
                        0,
                        JobView { request: request_view(request), ..old(self)@.jobs[0] },
                    ),
                    ..old(self)@
                })
            } else {
                exchanged == request && final(self)@ == old(self)@
            },
    {
        match self.jobs.pop_front() {
            Some(job) => {
                let mut job = job;
                let exchanged = job.request_metrics.take();
                job.request_metrics = request;
                let ghost kept = self.jobs@;
                self.jobs.push_front(job);
                proof {
                    assert(self.jobs@ =~= seq![job] + kept);
                    assert forall|i: int| 1 <= i < self@.jobs.len() implies self@.jobs[i]
                        == old(self)@.jobs[i] by {
                        assert(self.jobs@[i] == kept[i - 1]);
                    }
                    assert(self@.jobs =~= old(self)@.jobs.update(
                        0,
                        JobView { request: request_view(request), ..old(self)@.jobs[0] },
                    ));
                }
                exchanged
            },
            None => request,
        }
    }

    /// Takes the request out of the job that was queued last, where there is one.
    pub fn take_last(&mut self) -> (taken: Option<RequestMetricContext>)
        ensures
            if old(self)@.jobs.len() > 0 {
                &&& request_view(taken) == old(self)@.jobs.last().request
                &&& final(self)@ == (QueueView {
                    jobs: old(self)@.jobs.update(
                        old(self)@.jobs.len() - 1,
                        JobView { request: None, ..old(self)@.jobs.last() },
                    ),
                    ..old(self)@
                })
            } else {
                taken is None && final(self)@ == old(self)@
            },
    {
        match self.jobs.pop_back() {
            Some(job) => {
                let mut job = job;
                let taken = job.request_metrics.take();
                self.jobs.push_back(job);
                proof {
                    assert(self@.jobs =~= old(self)@.jobs.update(
                        old(self)@.jobs.len() - 1,
                        JobView { request: None, ..old(self)@.jobs.last() },
                    ));
                }
                taken
            },
            None => None,
        }
    }

    fn send(&mut self, job: CallbackJob<P>) -> (result: Result<(), CallbackJob<P>>)
        ensures
            if old(self)@.open {
                &&& result is Ok
                &&& final(self)@ == (QueueView { jobs: old(self)@.jobs.push(job@), ..old(self)@ })
            } else {
                &&& result matches Err(refused) && refused == job
                &&& final(self)@ == old(self)@
            },
    {
        if self.open {
            self.jobs.push_back(job);
            proof {
                assert(self@.jobs =~= old(self)@.jobs.push(job@));
            }
            Ok(())
        } else {
            Err(job)
        }
    }

    fn recv(&mut self) -> (job: Option<CallbackJob<P>>)
        ensures
            match job {
                Some(job) => {
                    &&& old(self)@.jobs.len() > 0
                    &&& job@ == old(self)@.jobs[0]
                    &&& final(self)@ == (QueueView {
                        jobs: old(self)@.jobs.drop_first(),
                        ..old(self)@
                    })
                },
                None => old(self)@.jobs.len() == 0 && final(self)@ == old(self)@,
            },
    {
        let job = self.jobs.pop_front();
        proof {
            if job is Some {
                assert(self@.jobs =~= old(self)@.jobs.drop_first());
            }
        }
        job
    }
}

/// Whether a job that was queued as `job` was taken by an open queue, or handed back by a closed
/// one.
pub open spec fn queued_outcome<P>(
    before: QueueView<P>,
    after: QueueView<P>,
    job: JobView<P>,
    result: Result<(), CallbackJob<P>>,
) -> bool {
    if before.open {
        &&& result is Ok
        &&& after == (QueueView { jobs: before.jobs.push(job), ..before })
    } else {
        &&& result matches Err(refused) && refused@ == job
        &&& after == before
    }
}

/// Queues a job now. A queue without workers hands it back.
pub fn enqueue_callback_job<P>(queue: &mut CallbackQueue<P>, job: CallbackJob<P>) -> (result:
    Result<(), CallbackJob<P>>)
    ensures
        exists|instant: Instant|
            queued_outcome(old(queue)@, final(queue)@, #[trigger] job@.queued_at(instant), result),
{
    let mut job = job;
    job.begin_wait();
    queue.send(job)
}

/// Queues a job at `now`. A queue without workers hands it back.
pub fn enqueue_callback_job_at<P>(
    queue: &mut CallbackQueue<P>,
    job: CallbackJob<P>,
    now: Moment,
) -> (result: Result<(), CallbackJob<P>>)
    ensures
        queued_outcome(old(queue)@, final(queue)@, job@.queued(now), result),
{
    let mut job = job;
    job.begin_wait_at(now);
    queue.send(job)
}

/// Takes the job that waited longest, where there is one, and starts its completion now. Where none
/// waits, a worker waits for the next one, or ends if the queue is closed.
pub fn receive_callback_job<P>(queue: &mut CallbackQueue<P>) -> (received: Option<
    (CallbackJob<P>, Option<PhaseTimer>),
>)
    requires
        old(queue)@.jobs.len() > 0 ==> old(queue)@.jobs[0].paired(),
    ensures
        match received {
            Some((job, timer)) => {
                &&& old(queue)@.jobs.len() > 0
                &&& exists|waited: Instant, now: Instant|
                    job@ == #[trigger] old(queue)@.jobs[0].begun_at(waited, now) && timer_view(
                        timer,
                    ) == begun_timer(old(queue)@.jobs[0], old(queue)@.jobs[0].shown(waited))
                &&& timer is Some == old(queue)@.jobs[0].request is Some
                &&& final(queue)@ == (QueueView {
                    jobs: old(queue)@.jobs.drop_first(),
                    ..old(queue)@
                })
            },
            None => old(queue)@.jobs.len() == 0 && final(queue)@ == old(queue)@,
        },
{
    match queue.recv() {
        Some(job) => {
            let mut job = job;
            let timer = begin_callback_completion(&mut job);
            Some((job, timer))
        },
        None => None,
    }
}

/// Takes the job that waited longest, where there is one, and starts its completion at `now`.
pub fn receive_callback_job_at<P>(queue: &mut CallbackQueue<P>, now: Moment) -> (received: Option<
    (CallbackJob<P>, Option<PhaseTimer>),
>)
    requires
        old(queue)@.jobs.len() > 0 ==> old(queue)@.jobs[0].paired(),
    ensures
        match received {
            Some((job, timer)) => {
                &&& old(queue)@.jobs.len() > 0
                &&& job@ == old(queue)@.jobs[0].begun(now, now)
                &&& timer_view(timer) == begun_timer(old(queue)@.jobs[0], now)
                &&& final(queue)@ == (QueueView {
                    jobs: old(queue)@.jobs.drop_first(),
                    ..old(queue)@
                })
            },
            None => old(queue)@.jobs.len() == 0 && final(queue)@ == old(queue)@,
        },
{
    match queue.recv() {
        Some(job) => {
            let mut job = job;
            let timer = begin_callback_completion_at(&mut job, now, now);
            Some((job, timer))
        },
        None => None,
    }
}

/// The timer of the completion of a job whose wait ends at this moment.
pub open spec fn begun_timer<P>(job: JobView<P>, waited: Moment) -> Option<Option<PhaseId>> {
    match job.request {
        Some(request) => Some(
            request.phase_closed(timer_id(job.callback_queue), waited).started_id(),
        ),
        None => None,
    }
}

/// A job of an unsampled request gets no timer, neither when it is queued nor when it is taken, and
/// keeps its choice of completion.
pub proof fn law_unsampled_job_has_no_timers<P>(job: JobView<P>, queued: Moment, taken: Moment)
    requires
        job.request is None,
    ensures
        job.queued(queued).request is None,
        job.queued(queued).callback_queue is None,
        job.queued(queued).begun(taken, taken).request is None,
        begun_timer(job.queued(queued), taken) is None,
        job.queued(queued).begun(taken, taken).detailed_completion == job.detailed_completion,
{
}

/// A job is paired with its timers when it is made, queued and taken.
pub proof fn law_jobs_stay_paired<P>(job: JobView<P>, queued: Moment, taken: Moment)
    ensures
        job.callback_queue is None ==> job.paired(),
        job.queued(queued).paired(),
        job.begun(queued, taken).paired(),
        job.paired() && job.request is Some ==> job.begun(queued, taken).request.unwrap().started(
            timer_id(begun_timer(job, queued)),
        ),
{
}

/// The wait of a sampled job is measured from when it was queued until a worker took it, and its
/// completion is open from then on.
pub proof fn law_wait_is_measured<P>(job: JobView<P>, queued: Moment, taken: Moment)
    requires
        job.request matches Some(request) && !request.finished && request.ids_are_distinct(),
    ensures
        ({
            let request = job.request.unwrap();
            let begun = job.queued(queued).begun(taken, taken);
            &&& begun.callback_queue is None
            &&& begun.request matches Some(after) && after.phase_nanos
                == crate::metrics::context::add_nanos(
                request.phase_nanos,
                RequestMetricPhase::CallbackQueue,
                crate::metrics::clock::interval_nanos(queued, taken),
            ) && after.active.len() == request.active.len() + 1 && after.active.last().phase
                == RequestMetricPhase::CallbackComplete && after.active.last().started_at == taken
        }),
{
    let request = job.request.unwrap();
    crate::metrics::laws::law_timer_measures_its_phase(
        request,
        RequestMetricPhase::CallbackQueue,
        queued,
        taken,
    );
}

/// Ends the wait of a job in the queue and starts its completion, both now.
pub fn begin_callback_completion<P>(job: &mut CallbackJob<P>) -> (timer: Option<PhaseTimer>)
    requires
        old(job)@.paired(),
    ensures
        exists|waited: Instant, now: Instant|
            final(job)@ == #[trigger] old(job)@.begun_at(waited, now) && timer_view(timer)
                == begun_timer(old(job)@, old(job)@.shown(waited)),
        timer is Some == old(job)@.request is Some,
{
    let waited = job.now();
    let now = job.now();
    proof {
        let first = choose|instant: Instant| waited == #[trigger] job@.shown(instant);
        let second = choose|instant: Instant| now == #[trigger] job@.shown(instant);
        assert(job@.begun(waited, now) == job@.begun_at(first, second));
    }
    begin_callback_completion_at(job, waited, now)
}

/// Ends the wait of a job in the queue at `waited` and starts its completion at `now`.
pub fn begin_callback_completion_at<P>(
    job: &mut CallbackJob<P>,
    waited: Moment,
    now: Moment,
) -> (timer: Option<PhaseTimer>)
    requires
        old(job)@.paired(),
    ensures
        final(job)@ == old(job)@.begun(waited, now),
        timer_view(timer) == begun_timer(old(job)@, waited),
{
    let callback_queue = job.callback_queue;
    job.callback_queue = None;
    match &mut job.request_metrics {
        Some(context) => {
            match callback_queue {
                Some(timer) => {
                    timer.finish_at(context, waited);
                },
                None => {},
            }
            Some(context.start_phase_at(RequestMetricPhase::CallbackComplete, now))
        },
        None => None,
    }
}

/// Queueing a sampled job starts the wait of its request, and taking it closes that wait and starts
/// the completion; nothing else of the job changes.
pub proof fn law_job_times_its_request<P>(
    job: JobView<P>,
    queued: Moment,
    waited: Moment,
    taken: Moment,
    state: crate::metrics::state::StateView,
)
    ensures
        job.queued(queued).callback_id == job.callback_id,
        job.queued(queued).payload == job.payload,
        job.queued(queued).detailed_completion == job.detailed_completion,
        job.begun(waited, taken).callback_id == job.callback_id,
        job.begun(waited, taken).payload == job.payload,
        job.begun(waited, taken).detailed_completion == job.detailed_completion,
        job.request matches Some(request) ==> {
            let wait = crate::metrics::laws::RequestEvent::Started {
                phase: RequestMetricPhase::CallbackQueue,
                at: queued,
            };
            let closed = crate::metrics::laws::RequestEvent::Closed {
                id: request.started_id(),
                at: waited,
            };
            let complete = crate::metrics::laws::RequestEvent::Started {
                phase: RequestMetricPhase::CallbackComplete,
                at: taken,
            };
            let events = seq![wait, closed, complete];
            let before = crate::metrics::laws::after_events(request, state, seq![wait, closed]).0;
            &&& job.queued(queued).request == Some(
                crate::metrics::laws::after_event(request, state, wait).0,
            )
            &&& job.queued(queued).begun(waited, taken).request == Some(
                crate::metrics::laws::after_events(request, state, events).0,
            )
            &&& begun_timer(job.queued(queued), waited) == Some(before.started_id())
            &&& job.queued(queued).callback_queue == Some(request.started_id())
            &&& job.begun(waited, taken).callback_queue is None
        },
        job.request is None ==> job.begun(waited, taken).request is None && begun_timer(job, waited)
            is None && job.queued(queued).callback_queue is None,
{
    if job.request is Some {
        let request = job.request.unwrap();
        let wait = crate::metrics::laws::RequestEvent::Started {
            phase: RequestMetricPhase::CallbackQueue,
            at: queued,
        };
        let closed = crate::metrics::laws::RequestEvent::Closed {
            id: request.started_id(),
            at: waited,
        };
        let complete = crate::metrics::laws::RequestEvent::Started {
            phase: RequestMetricPhase::CallbackComplete,
            at: taken,
        };
        reveal_with_fuel(crate::metrics::laws::after_events, 4);
        let events = seq![wait, closed, complete];
        assert(events.drop_last() =~= seq![wait, closed]);
        assert(seq![wait, closed].drop_last() =~= seq![wait]);
        assert(seq![wait].drop_last() =~= seq![]);
    }
}

/// A job that is queued or taken at an instant is timed by the clock of its request.
pub proof fn law_jobs_are_timed_by_their_clock<P>(
    job: JobView<P>,
    first: Instant,
    second: Instant,
)
    ensures
        job.request matches Some(request) ==> {
            &&& job.shown(first) == request.clock.shows(first)
            &&& job.queued_at(first) == job.queued(request.clock.shows(first))
            &&& job.begun_at(first, second) == job.begun(
                request.clock.shows(first),
                request.clock.shows(second),
            )
        },
{
}

/// An open queue takes a job as its last and keeps the others in their order; a closed one hands it
/// back as it is.
pub proof fn law_queue_keeps_the_order<P>(
    before: QueueView<P>,
    after: QueueView<P>,
    job: JobView<P>,
    result: Result<(), CallbackJob<P>>,
)
    requires
        queued_outcome(before, after, job, result),
    ensures
        result is Ok <==> before.open,
        after.open == before.open,
        before.open ==> {
            &&& after.jobs.len() == before.jobs.len() + 1
            &&& after.jobs.last() == job
            &&& forall|i: int|
                0 <= i < before.jobs.len() ==> #[trigger] after.jobs[i] == before.jobs[i]
        },
        !before.open ==> after.jobs == before.jobs && (result matches Err(refused) && refused@
            == job),
{
}

/// A job shows what it holds.
pub proof fn law_job_shows_its_parts<P>(job: CallbackJob<P>)
    ensures
        job@.callback_id == job.callback_id,
        job@.payload == job.payload,
        job@.detailed_completion == job.detailed_completion,
        job@.request is Some <==> job.request_metrics is Some,
        job.request_metrics matches Some(request) ==> job@.request == Some(request@),
        job@.callback_queue is Some <==> job.callback_queue is Some,
        job.callback_queue matches Some(timer) ==> job@.callback_queue == Some(timer@),
        timer_id(job@.callback_queue) == (match job.callback_queue {
            Some(timer) => timer@,
            None => None,
        }),
{
}

/// The jobs of a queue show what they hold, each in its place.
pub proof fn law_jobs_show_themselves<P>(jobs: Seq<CallbackJob<P>>)
    ensures
        jobs_view(jobs).len() == jobs.len(),
        forall|i: int| 0 <= i < jobs.len() ==> #[trigger] jobs_view(jobs)[i] == jobs[i]@,
{
}

/// Taking any job closes the wait that it has, where it has one, and starts the completion of its
/// request; the timer that comes of it is that of the completion.
pub proof fn law_taken_job_starts_its_completion<P>(
    job: JobView<P>,
    request: ContextView,
    waited: Moment,
    taken: Moment,
    state: crate::metrics::state::StateView,
)
    requires
        job.request == Some(request),
    ensures
        ({
            let closed = crate::metrics::laws::after_event(
                request,
                state,
                crate::metrics::laws::RequestEvent::Closed {
                    id: match job.callback_queue {
                        Some(id) => id,
                        None => None,
                    },
                    at: waited,
                },
            ).0;
            let begun = crate::metrics::laws::after_event(
                closed,
                state,
                crate::metrics::laws::RequestEvent::Started {
                    phase: RequestMetricPhase::CallbackComplete,
                    at: taken,
                },
            ).0;
            &&& job.begun(waited, taken).request == Some(begun)
            &&& begun_timer(job, waited) == Some(closed.started_id())
        }),
{
}

} // verus!
