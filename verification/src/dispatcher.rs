//! The dispatcher core: the message protocol, the request queue, the
//! worker-pool accounting, and the per-message handlers.
//!
//! The dispatcher is the single owner of the queue.  The surrounding process
//! runs one long-lived loop that receives a [`Dispatch`] message, calls the
//! matching handler here, and performs the returned outward work: sending a
//! reply on the carrier a query arrived with, handing a popped request to a
//! worker, or posting `ProcessRequest` back to its own inbox.

use vstd::prelude::*;
use vstd::std_specs::cmp::PartialEqSpec;
use std::collections::VecDeque;
use crate::persistence::{
    b64_of, set_entry, spec_apply_namespace, spec_encode_entry, written_entry, JobOutcome,
    JobState, Persistence,
};
use crate::responder::{DispatcherStatus, JobStatus, WorkerStatus};
use crate::server::JobRequest;

verus! {

// ---------------------------------------------------------------------------
// Queries and the message protocol
// ---------------------------------------------------------------------------

/// A synchronous query into the dispatcher: a name for logging, and the
/// carrier the reply is to be sent back on.
///
/// Two queries are equal exactly when their names are equal; the reply
/// carrier has no identity of its own.
#[derive(Debug)]
pub struct Query<T> {
    pub name: String,
    pub status_tx: T,
}

impl<T> Query<T> {
    /// A query named `name` replying on `status_tx`.
    pub fn new(name: &str, status_tx: T) -> (r: Query<T>)
        ensures
            r.name@ == name@,
            r.status_tx == status_tx,
    {
        Query { name: name.to_owned(), status_tx }
    }
}

impl<T> PartialEq for Query<T> {
    fn eq(&self, other: &Query<T>) -> (r: bool) {
        self.name == other.name
    }
}

impl<T> vstd::std_specs::cmp::PartialEqSpecImpl for Query<T> {
    open spec fn obeys_eq_spec() -> bool {
        true
    }

    open spec fn eq_spec(&self, other: &Query<T>) -> bool {
        self.name@ == other.name@
    }
}

/// Queries compare equal exactly by name: the reply carrier never enters
/// into it.
pub proof fn lemma_query_eq_by_name<T>(a: Query<T>, b: Query<T>)
    ensures
        a.eq_spec(&b) <==> a.name@ == b.name@,
{
}

/// The dispatcher's inbox protocol.  `S` carries a status reply, `B` a
/// queue-full reply; the library never looks inside either.
#[derive(Debug)]
pub enum Dispatch<S, B> {
    StatusUpdate(Query<S>),
    CheckQueue(Query<B>),
    NewRequest(JobRequest),
    ProcessRequest,
    RequestComplete(JobRequest),
    RequestFailure(JobRequest),
    StopProcessing,
}

impl<S, B> PartialEq for Dispatch<S, B> {
    fn eq(&self, other: &Dispatch<S, B>) -> (r: bool) {
        match (self, other) {
            (Dispatch::StatusUpdate(a), Dispatch::StatusUpdate(b)) => a == b,
            (Dispatch::CheckQueue(a), Dispatch::CheckQueue(b)) => a == b,
            (Dispatch::NewRequest(a), Dispatch::NewRequest(b)) => a == b,
            (Dispatch::ProcessRequest, Dispatch::ProcessRequest) => true,
            (Dispatch::RequestComplete(a), Dispatch::RequestComplete(b)) => a == b,
            (Dispatch::RequestFailure(a), Dispatch::RequestFailure(b)) => a == b,
            (Dispatch::StopProcessing, Dispatch::StopProcessing) => true,
            _ => false,
        }
    }
}

impl<S, B> vstd::std_specs::cmp::PartialEqSpecImpl for Dispatch<S, B> {
    open spec fn obeys_eq_spec() -> bool {
        true
    }

    open spec fn eq_spec(&self, other: &Dispatch<S, B>) -> bool {
        match (self, other) {
            (Dispatch::StatusUpdate(a), Dispatch::StatusUpdate(b)) => a.name@ == b.name@,
            (Dispatch::CheckQueue(a), Dispatch::CheckQueue(b)) => a.name@ == b.name@,
            (Dispatch::NewRequest(a), Dispatch::NewRequest(b)) => a@ == b@,
            (Dispatch::ProcessRequest, Dispatch::ProcessRequest) => true,
            (Dispatch::RequestComplete(a), Dispatch::RequestComplete(b)) => a@ == b@,
            (Dispatch::RequestFailure(a), Dispatch::RequestFailure(b)) => a@ == b@,
            (Dispatch::StopProcessing, Dispatch::StopProcessing) => true,
            _ => false,
        }
    }
}

// ---------------------------------------------------------------------------
// The dispatcher and its worker pool accounting
// ---------------------------------------------------------------------------

/// Configuration and queue of the dispatching loop.
#[derive(Debug)]
pub struct Dispatcher {
    pub max_jobs: usize,
    pub max_workers: usize,
    pub requests_queue: VecDeque<JobRequest>,
}

impl Dispatcher {
    /// A dispatcher with an empty queue capped at `max_jobs`, driving a pool
    /// of `max_workers` workers.
    pub fn new(max_jobs: usize, max_workers: usize) -> (r: Dispatcher)
        ensures
            r.max_jobs == max_jobs,
            r.max_workers == max_workers,
            r.requests_queue@.len() == 0,
    {
        Dispatcher { max_jobs, max_workers, requests_queue: VecDeque::new() }
    }
}

/// Accounting for a fixed-size worker pool: how many tasks are running and
/// how many have been handed over and are waiting for a free worker.
#[derive(Debug, PartialEq, Eq, Structural)]
pub struct WorkerPool {
    pub capacity: usize,
    pub active: usize,
    pub held: usize,
}

impl WorkerPool {
    /// The pool's books are sound: never more running tasks than workers.
    pub open spec fn wf(&self) -> bool {
        self.active <= self.capacity
    }

    /// An idle pool of `capacity` workers.
    pub fn new(capacity: usize) -> (r: WorkerPool)
        ensures
            r == (WorkerPool { capacity, active: 0, held: 0 }),
            r.wf(),
    {
        WorkerPool { capacity, active: 0, held: 0 }
    }

    /// The constant number of workers.
    pub fn max_count(&self) -> (r: usize)
        ensures
            r == self.capacity,
    {
        self.capacity
    }

    /// The number of tasks currently running.
    pub fn active_count(&self) -> (r: usize)
        ensures
            r == self.active,
    {
        self.active
    }

    /// Books one task handed to the pool: it runs at once when a worker is
    /// free, else the pool holds it.  `active` never passes `capacity`.
    pub fn submit(&mut self)
        requires
            old(self).wf(),
            old(self).held < usize::MAX,
        ensures
            final(self).capacity == old(self).capacity,
            final(self).wf(),
            old(self).active < old(self).capacity ==> *final(self) == (WorkerPool {
                active: (old(self).active + 1) as usize,
                ..*old(self)
            }),
            old(self).active >= old(self).capacity ==> *final(self) == (WorkerPool {
                held: (old(self).held + 1) as usize,
                ..*old(self)
            }),
    {
        if self.active < self.capacity {
            self.active = self.active + 1;
        } else {
            self.held = self.held + 1;
        }
    }

    /// Books one task finishing: a held task takes the freed worker at once,
    /// if there is one.  `active` never passes `capacity`.
    pub fn finish(&mut self)
        requires
            old(self).wf(),
            old(self).active > 0,
        ensures
            final(self).capacity == old(self).capacity,
            final(self).wf(),
            old(self).held > 0 ==> *final(self) == (WorkerPool {
                held: (old(self).held - 1) as usize,
                ..*old(self)
            }),
            old(self).held == 0 ==> *final(self) == (WorkerPool {
                active: (old(self).active - 1) as usize,
                ..*old(self)
            }),
    {
        if self.held > 0 {
            self.held = self.held - 1;
        } else {
            self.active = self.active - 1;
        }
    }
}

// ---------------------------------------------------------------------------
// Per-message handlers
// ---------------------------------------------------------------------------

/// Snapshot of the dispatcher's counters, taken within a single dispatcher
/// turn: idle and active workers always sum to the pool size, and the queue
/// never reads over its cap.
pub fn get_dispatcher_status(
    requests_queue: &VecDeque<JobRequest>,
    max_jobs: usize,
    primary_pool: &WorkerPool,
) -> (r: DispatcherStatus)
    requires
        primary_pool.wf(),
        requests_queue@.len() <= max_jobs,
    ensures
        r == (DispatcherStatus {
            workers: WorkerStatus {
                total: primary_pool.capacity,
                idle: (primary_pool.capacity - primary_pool.active) as usize,
                active: primary_pool.active,
            },
            jobs: JobStatus { max_queue_size: max_jobs, in_queue: requests_queue@.len() as usize },
        }),
        r.workers.idle + r.workers.active == r.workers.total,
        r.jobs.in_queue <= r.jobs.max_queue_size,
{
    let total_workers: usize = primary_pool.max_count();
    let active_workers: usize = primary_pool.active_count();
    DispatcherStatus {
        workers: WorkerStatus {
            total: total_workers,
            idle: total_workers - active_workers,
            active: active_workers,
        },
        jobs: JobStatus { max_queue_size: max_jobs, in_queue: requests_queue.len() },
    }
}

/// Whether the queue has reached its cap.
pub fn is_queue_full(requests_queue: &VecDeque<JobRequest>, max_jobs: usize) -> (r: bool)
    ensures
        r == (requests_queue@.len() >= max_jobs),
{
    requests_queue.len() >= max_jobs
}

/// The store contents after a lifecycle write for `request` under the job's
/// namespaced key: either the record landed, or the store is unchanged — a
/// failed write never rolls back an admission.
pub open spec fn wrote_entry_or_unchanged<T: Persistence>(
    pre: T,
    post: T,
    job_id: Seq<char>,
    request: crate::server::JobRequestView,
    state: JobState,
    outcome: JobOutcome,
) -> bool {
    &&& post.spec_id() == pre.spec_id()
    &&& post.namespace() == pre.namespace()
    &&& (post.contents() == pre.contents() || post.contents() == pre.contents().insert(
        spec_apply_namespace(pre.namespace(), job_id),
        b64_of(spec_encode_entry(written_entry(request, state, outcome, pre.spec_id()))),
    ))
}

/// Admits a request: records it as `(QUEUED, WAITING)` in the store, appends
/// it to the queue, and reports whether a worker is free.  `Ok` asks the
/// caller to post `ProcessRequest`; with the pool saturated the job is still
/// admitted and the next completion will pick it up.  A full queue refuses
/// the request outright, so the queue never grows past `max_jobs`.
pub fn new_job_request<T: Persistence>(
    requests_queue: &mut VecDeque<JobRequest>,
    max_jobs: usize,
    primary_pool: &WorkerPool,
    persistence: &mut T,
    request: JobRequest,
) -> (r: Result<(), String>)
    ensures
        old(requests_queue)@.len() <= max_jobs ==> final(requests_queue)@.len() <= max_jobs,
        old(requests_queue)@.len() >= max_jobs ==> {
            &&& final(requests_queue)@ == old(requests_queue)@
            &&& *final(persistence) == *old(persistence)
            &&& (r matches Err(m) && m@ == "Queue is full, cannot add job"@)
        },
        old(requests_queue)@.len() < max_jobs ==> {
            &&& final(requests_queue)@ == old(requests_queue)@.push(request)
            &&& wrote_entry_or_unchanged(
                *old(persistence),
                *final(persistence),
                request.job_id@,
                request@,
                JobState::QUEUED,
                JobOutcome::WAITING,
            )
            &&& (r matches Ok(u) <==> primary_pool.active < primary_pool.capacity)
            &&& (primary_pool.active >= primary_pool.capacity ==> (r matches Err(m) && m@
                == "No threads available - waiting for a job to complete."@))
        },
{
    if requests_queue.len() >= max_jobs {
        return Err("Queue is full, cannot add job".to_owned());
    }
    set_entry(
        persistence,
        request.job_id.as_str(),
        &request,
        &JobState::QUEUED,
        &JobOutcome::WAITING,
    );
    admit_request(requests_queue, max_jobs, primary_pool, request)
}

/// Appends an admitted request to the queue and reports whether a worker is
/// free, exactly as [`new_job_request`] does, but with the store write
/// already made by the caller.
pub fn admit_request(
    requests_queue: &mut VecDeque<JobRequest>,
    max_jobs: usize,
    primary_pool: &WorkerPool,
    request: JobRequest,
) -> (r: Result<(), String>)
    ensures
        old(requests_queue)@.len() <= max_jobs ==> final(requests_queue)@.len() <= max_jobs,
        old(requests_queue)@.len() >= max_jobs ==> {
            &&& final(requests_queue)@ == old(requests_queue)@
            &&& (r matches Err(m) && m@ == "Queue is full, cannot add job"@)
        },
        old(requests_queue)@.len() < max_jobs ==> {
            &&& final(requests_queue)@ == old(requests_queue)@.push(request)
            &&& (r matches Ok(u) <==> primary_pool.active < primary_pool.capacity)
            &&& (primary_pool.active >= primary_pool.capacity ==> (r matches Err(m) && m@
                == "No threads available - waiting for a job to complete."@))
        },
{
    if requests_queue.len() >= max_jobs {
        return Err("Queue is full, cannot add job".to_owned());
    }
    requests_queue.push_back(request);
    if primary_pool.active_count() < primary_pool.max_count() {
        Ok(())
    } else {
        Err("No threads available - waiting for a job to complete.".to_owned())
    }
}

/// Pops the front of the queue and books it into the pool; the caller hands
/// the returned request to a worker.  On an empty queue nothing changes at
/// all: reposting `ProcessRequest` then is a no-op.
pub fn process_job_request(
    requests_queue: &mut VecDeque<JobRequest>,
    primary_pool: &mut WorkerPool,
) -> (r: Option<JobRequest>)
    requires
        old(primary_pool).wf(),
        old(primary_pool).held < usize::MAX,
    ensures
        final(primary_pool).wf(),
        final(primary_pool).capacity == old(primary_pool).capacity,
        old(requests_queue)@.len() == 0 ==> {
            &&& r is None
            &&& final(requests_queue)@ == old(requests_queue)@
            &&& *final(primary_pool) == *old(primary_pool)
        },
        old(requests_queue)@.len() > 0 ==> {
            &&& r == Some(old(requests_queue)@[0])
            &&& final(requests_queue)@ == old(requests_queue)@.drop_first()
            &&& (old(primary_pool).active < old(primary_pool).capacity ==> *final(primary_pool)
                == (WorkerPool { active: (old(primary_pool).active + 1) as usize, ..*old(primary_pool) }))
            &&& (old(primary_pool).active >= old(primary_pool).capacity ==> *final(primary_pool)
                == (WorkerPool { held: (old(primary_pool).held + 1) as usize, ..*old(primary_pool) }))
        },
{
    match requests_queue.pop_front() {
        Some(request) => {
            primary_pool.submit();
            proof {
                assert(old(requests_queue)@.subrange(1, old(requests_queue)@.len() as int)
                    =~= old(requests_queue)@.drop_first());
            }
            Some(request)
        },
        None => None,
    }
}

/// The worker's first step for a picked request: records it as
/// `(WORKING, RUNNING)` in the store.
pub fn start_job_request<T: Persistence>(persistence: &mut T, request: &JobRequest)
    ensures
        wrote_entry_or_unchanged(
            *old(persistence),
            *final(persistence),
            request.job_id@,
            request@,
            JobState::WORKING,
            JobOutcome::RUNNING,
        ),
{
    set_entry(
        persistence,
        request.job_id.as_str(),
        request,
        &JobState::WORKING,
        &JobOutcome::RUNNING,
    );
}

/// The argument vector a worker runs the command with: `run`, the factfile
/// path, then the request's own arguments in order.
pub fn build_command_args(request: &JobRequest) -> (r: Vec<String>)
    ensures
        r.deep_view() == seq!["run"@, request.factfile_path@] + request.factfile_args.deep_view(),
{
    let mut r: Vec<String> = Vec::new();
    r.push("run".to_owned());
    r.push(request.factfile_path.clone());
    let mut k: usize = 0;
    proof {
        assert(r.deep_view() =~= seq!["run"@, request.factfile_path@]
            + request.factfile_args.deep_view().subrange(0, 0));
    }
    while k < request.factfile_args.len()
        invariant
            k <= request.factfile_args@.len(),
            r@.len() == k + 2,
            r.deep_view() == seq!["run"@, request.factfile_path@]
                + request.factfile_args.deep_view().subrange(0, k as int),
        decreases request.factfile_args@.len() - k,
    {
        let ghost prev_dv = r.deep_view();
        let s: String = request.factfile_args[k].clone();
        r.push(s);
        k = k + 1;
        proof {
            let goal = seq!["run"@, request.factfile_path@]
                + request.factfile_args.deep_view().subrange(0, k as int);
            assert forall|i: int| 0 <= i < k as int + 2 implies r.deep_view()[i] == goal[i] by {
                if i < k as int + 1 {
                    assert(r.deep_view()[i] == prev_dv[i]);
                } else {
                    assert(r@[i] == s);
                }
            }
            assert(r.deep_view() =~= goal);
        }
    }
    proof {
        let dv = request.factfile_args.deep_view();
        assert(dv.subrange(0, dv.len() as int) =~= dv);
    }
    r
}

/// Records a finished request as `(DONE, SUCCEEDED)`; the caller posts
/// `ProcessRequest` afterwards so the queue keeps draining.
pub fn complete_job_request<T: Persistence>(persistence: &mut T, request: JobRequest) -> (r:
    String)
    ensures
        wrote_entry_or_unchanged(
            *old(persistence),
            *final(persistence),
            request.job_id@,
            request@,
            JobState::DONE,
            JobOutcome::SUCCEEDED,
        ),
        r@ == "COMPLETED JOB REQ  jobId:["@ + request.job_id@ + "]"@,
{
    set_entry(
        persistence,
        request.job_id.as_str(),
        &request,
        &JobState::DONE,
        &JobOutcome::SUCCEEDED,
    );
    completion_message(&request.job_id)
}

/// Records a failed request as `(DONE, FAILED)`; the caller posts
/// `ProcessRequest` afterwards so the queue keeps draining.
pub fn failed_job_request<T: Persistence>(persistence: &mut T, request: JobRequest) -> (r: String)
    ensures
        wrote_entry_or_unchanged(
            *old(persistence),
            *final(persistence),
            request.job_id@,
            request@,
            JobState::DONE,
            JobOutcome::FAILED,
        ),
        r@ == "FAILED JOB REQ jobId:["@ + request.job_id@ + "]"@,
{
    set_entry(persistence, request.job_id.as_str(), &request, &JobState::DONE, &JobOutcome::FAILED);
    failure_message(&request.job_id)
}

/// The log line reported for a completed request.
pub fn completion_message(job_id: &String) -> (r: String)
    ensures
        r@ == "COMPLETED JOB REQ  jobId:["@ + job_id@ + "]"@,
{
    job_message("COMPLETED JOB REQ  jobId:[", job_id)
}

/// The log line reported for a failed request.
pub fn failure_message(job_id: &String) -> (r: String)
    ensures
        r@ == "FAILED JOB REQ jobId:["@ + job_id@ + "]"@,
{
    job_message("FAILED JOB REQ jobId:[", job_id)
}

fn job_message(head: &str, job_id: &String) -> (r: String)
    ensures
        r@ == head@ + job_id@ + "]"@,
{
    let mut out: Vec<char> = Vec::new();
    crate::codec::push_str_chars(&mut out, head);
    crate::codec::push_str_chars(&mut out, job_id.as_str());
    crate::codec::push_str_chars(&mut out, "]");
    proof {
        assert(out@ =~= head@ + job_id@ + "]"@);
    }
    crate::codec::chars_to_string(&out)
}

/// Writes one lifecycle record and reports the write in a message: the
/// success message names the job and state written; the error message
/// reports the same write failing.
pub fn persist_entry<T: Persistence>(
    persistence: &mut T,
    client_job_id: &str,
    job_request: &JobRequest,
    job_state: &JobState,
    job_outcome: &JobOutcome,
) -> (r: Result<String, String>)
    ensures
        final(persistence).spec_id() == old(persistence).spec_id(),
        final(persistence).namespace() == old(persistence).namespace(),
        r matches Ok(m) ==> {
            &&& final(persistence).contents() == old(persistence).contents().insert(
                spec_apply_namespace(old(persistence).namespace(), client_job_id@),
                b64_of(
                    spec_encode_entry(
                        written_entry(
                            job_request@,
                            *job_state,
                            *job_outcome,
                            old(persistence).spec_id(),
                        ),
                    ),
                ),
            )
            &&& m@ == "Persist ["@ + client_job_id@ + "]::["@ + crate::persistence::state_name(
                *job_state,
            ) + "]"@
        },
        r matches Err(m) ==> {
            &&& final(persistence).contents() == old(persistence).contents()
            &&& m@ == "Persistence Error: Failed to update ["@ + client_job_id@ + "] to ["@
                + crate::persistence::state_name(*job_state) + "]"@
        },
{
    let output: bool = set_entry(persistence, client_job_id, job_request, job_state, job_outcome);
    let sname: &str = crate::persistence::state_name_str(job_state);
    if output {
        let mut out: Vec<char> = Vec::new();
        crate::codec::push_str_chars(&mut out, "Persist [");
        crate::codec::push_str_chars(&mut out, client_job_id);
        crate::codec::push_str_chars(&mut out, "]::[");
        crate::codec::push_str_chars(&mut out, sname);
        crate::codec::push_str_chars(&mut out, "]");
        proof {
            assert(out@ =~= "Persist ["@ + client_job_id@ + "]::["@ + crate::persistence::state_name(
                *job_state,
            ) + "]"@);
        }
        Ok(crate::codec::chars_to_string(&out))
    } else {
        let mut out: Vec<char> = Vec::new();
        crate::codec::push_str_chars(&mut out, "Persistence Error: Failed to update [");
        crate::codec::push_str_chars(&mut out, client_job_id);
        crate::codec::push_str_chars(&mut out, "] to [");
        crate::codec::push_str_chars(&mut out, sname);
        crate::codec::push_str_chars(&mut out, "]");
        proof {
            assert(out@ =~= "Persistence Error: Failed to update ["@ + client_job_id@ + "] to ["@
                + crate::persistence::state_name(*job_state) + "]"@);
        }
        Err(crate::codec::chars_to_string(&out))
    }
}

// ---------------------------------------------------------------------------
// The per-job protocol order
// ---------------------------------------------------------------------------

/// Where one admitted job stands in the dispatcher protocol.
pub enum LifecyclePhase {
    /// Admitted: `(QUEUED, WAITING)` written, request sitting in the queue.
    Admitted,
    /// Popped from the queue and handed to the pool; nothing written yet.
    Dispatched,
    /// Picked up by a worker: `(WORKING, RUNNING)` written.
    Started,
    /// Completed or failed: `(DONE, ...)` written.
    Finished,
}

/// The store writes the protocol has issued for a job by each phase.
pub open spec fn phase_writes(p: LifecyclePhase) -> Seq<JobState> {
    match p {
        LifecyclePhase::Admitted => seq![JobState::QUEUED],
        LifecyclePhase::Dispatched => seq![JobState::QUEUED],
        LifecyclePhase::Started => seq![JobState::QUEUED, JobState::WORKING],
        LifecyclePhase::Finished => seq![JobState::QUEUED, JobState::WORKING, JobState::DONE],
    }
}

/// The steps the protocol takes: admission to dispatch to start to finish.
pub open spec fn phase_step(a: LifecyclePhase, b: LifecyclePhase) -> bool {
    ||| (a == LifecyclePhase::Admitted && b == LifecyclePhase::Dispatched)
    ||| (a == LifecyclePhase::Dispatched && b == LifecyclePhase::Started)
    ||| (a == LifecyclePhase::Started && b == LifecyclePhase::Finished)
}

/// A write sequence that respects the lifecycle: `QUEUED`, then `WORKING`,
/// then `DONE`, stopping anywhere along the way.
pub open spec fn writes_in_lifecycle_order(w: Seq<JobState>) -> bool {
    w.is_prefix_of(seq![JobState::QUEUED, JobState::WORKING, JobState::DONE])
}

/// For every job the protocol runs, the store sees its states written in
/// lifecycle order — `QUEUED`, `WORKING`, `DONE` — and a protocol step only
/// appends to what was already written; no write goes backwards.
pub proof fn lemma_store_writes_in_order(a: LifecyclePhase, b: LifecyclePhase)
    requires
        phase_step(a, b),
    ensures
        writes_in_lifecycle_order(phase_writes(a)),
        writes_in_lifecycle_order(phase_writes(b)),
        phase_writes(a).is_prefix_of(phase_writes(b)),
{
    let full = seq![JobState::QUEUED, JobState::WORKING, JobState::DONE];
    assert(phase_writes(a) =~= full.subrange(0, phase_writes(a).len() as int));
    assert(phase_writes(b) =~= full.subrange(0, phase_writes(b).len() as int));
    assert(phase_writes(a) =~= phase_writes(b).subrange(0, phase_writes(a).len() as int));
}

} // verus!
