//! The decision logic behind the HTTP surface: settings updates, job
//! submission admission, and job lookup.  The surrounding process parses
//! requests and writes responses; everything decided about them is here.
//!
//! Responses are JSON text; a body is handed in already parsed, as a
//! `Result` whose error holds the parse failure's cause.

use vstd::prelude::*;
use crate::codec::{chars_to_string, dec_digits, json_escape, push_escaped, push_str_chars,
    push_u64};
use crate::command::Execution;
use crate::persistence::{
    b64_of, encode_entry, get_entry, spec_apply_namespace, spec_decode_entry, spec_encode_entry,
    JobState, Persistence,
};
use crate::server::{
    server_extra_args, uptime_text, utc_string_of, JobRequest, ServerManager, SettingsRequest,
    ValidationError,
};

verus! {

// ---------------------------------------------------------------------------
// Status report types
// ---------------------------------------------------------------------------

/// Worker and queue counters reported by `/status`.
#[derive(Debug, PartialEq, Eq, Structural)]
pub struct DispatcherStatus {
    pub workers: WorkerStatus,
    pub jobs: JobStatus,
}

/// Worker counters: `idle + active == total` in every snapshot the
/// dispatcher hands out.
#[derive(Debug, PartialEq, Eq, Structural)]
pub struct WorkerStatus {
    pub total: usize,
    pub idle: usize,
    pub active: usize,
}

/// Queue counters: what is waiting, against the hard cap.
#[derive(Debug, PartialEq, Eq, Structural)]
pub struct JobStatus {
    pub max_queue_size: usize,
    pub in_queue: usize,
}

/// The whole `/status` report.
#[derive(Debug, PartialEq)]
pub struct FactotumServerStatus {
    pub version: String,
    pub server: ServerStatus,
    pub dispatcher: DispatcherStatus,
}

/// The server half of the `/status` report.
#[derive(Debug, PartialEq)]
pub struct ServerStatus {
    pub start_time: String,
    pub up_time: String,
    pub state: String,
}

/// Assembles the `/status` report from the server state and a dispatcher
/// snapshot.
pub fn get_server_status(server: &ServerManager, version: &str, dispatcher_status: DispatcherStatus)
    -> (r: FactotumServerStatus)
    ensures
        r.version@ == version@,
        r.server.start_time@ == utc_string_of(server.start_time),
        exists|now_ms: u64| r.server.up_time@ == #[trigger] uptime_text(server.start_time, now_ms),
        r.server.state@ == server.state@,
        r.dispatcher == dispatcher_status,
{
    FactotumServerStatus {
        version: version.to_owned(),
        server: ServerStatus {
            start_time: server.get_start_time(),
            up_time: server.get_uptime(),
            state: server.state.clone(),
        },
        dispatcher: dispatcher_status,
    }
}

/// JSON text of a `/status` report.
pub open spec fn spec_encode_status(s: FactotumServerStatus) -> Seq<char> {
    "{\"version\":\""@ + json_escape(s.version@) + "\",\"server\":{\"startTime\":\""@
        + json_escape(s.server.start_time@) + "\",\"upTime\":\""@ + json_escape(
        s.server.up_time@,
    ) + "\",\"state\":\""@ + json_escape(s.server.state@)
        + "\"},\"dispatcher\":{\"workers\":{\"total\":"@ + dec_digits(
        s.dispatcher.workers.total as nat,
    ) + ",\"idle\":"@ + dec_digits(s.dispatcher.workers.idle as nat) + ",\"active\":"@
        + dec_digits(s.dispatcher.workers.active as nat) + "},\"jobs\":{\"maxQueueSize\":"@
        + dec_digits(s.dispatcher.jobs.max_queue_size as nat) + ",\"inQueue\":"@ + dec_digits(
        s.dispatcher.jobs.in_queue as nat,
    ) + "}}}"@
}

/// Encodes a `/status` report as JSON text.
pub fn encode_status(s: &FactotumServerStatus) -> (r: String)
    ensures
        r@ == spec_encode_status(*s),
{
    let mut out: Vec<char> = Vec::new();
    push_str_chars(&mut out, "{\"version\":\"");
    push_escaped(&mut out, s.version.as_str());
    push_str_chars(&mut out, "\",\"server\":{\"startTime\":\"");
    push_escaped(&mut out, s.server.start_time.as_str());
    push_str_chars(&mut out, "\",\"upTime\":\"");
    push_escaped(&mut out, s.server.up_time.as_str());
    push_str_chars(&mut out, "\",\"state\":\"");
    push_escaped(&mut out, s.server.state.as_str());
    push_str_chars(&mut out, "\"},\"dispatcher\":{\"workers\":{\"total\":");
    push_u64(&mut out, s.dispatcher.workers.total as u64);
    push_str_chars(&mut out, ",\"idle\":");
    push_u64(&mut out, s.dispatcher.workers.idle as u64);
    push_str_chars(&mut out, ",\"active\":");
    push_u64(&mut out, s.dispatcher.workers.active as u64);
    push_str_chars(&mut out, "},\"jobs\":{\"maxQueueSize\":");
    push_u64(&mut out, s.dispatcher.jobs.max_queue_size as u64);
    push_str_chars(&mut out, ",\"inQueue\":");
    push_u64(&mut out, s.dispatcher.jobs.in_queue as u64);
    push_str_chars(&mut out, "}}}");
    proof {
        assert(out@ =~= spec_encode_status(*s));
    }
    chars_to_string(&out)
}

// ---------------------------------------------------------------------------
// Response bodies
// ---------------------------------------------------------------------------

/// The `/help` object: each route with what it does and the parameters it
/// takes, as compact JSON with the routes in order.
pub fn get_help_message() -> (r: String)
    ensures
        r@ == "{\"/check\":{\"function\":\"Fetches the state of a job by the ID.\",\"params\":\"pretty=1, id=[id string]\"},\"/help\":{\"function\":\"Returns this message!\",\"params\":\"pretty=1\"},\"/settings\":{\"body\":{\"state\":\"run|drain\"},\"function\":\"Updates settings within the server.\",\"params\":\"pretty=1\"},\"/status\":{\"function\":\"Returns general information about the server and host system.\",\"params\":\"pretty=1\"},\"/submit\":{\"body\":{\"factfileArgs\":\"[ --start step-2 ]\",\"factfilePath\":\"/com.acme-main/factfile\",\"jobName\":\"com.acme-main\"},\"function\":\"Submits a job to the queue.\",\"params\":\"pretty=1\"}}"@,
{
    "{\"/check\":{\"function\":\"Fetches the state of a job by the ID.\",\"params\":\"pretty=1, id=[id string]\"},\"/help\":{\"function\":\"Returns this message!\",\"params\":\"pretty=1\"},\"/settings\":{\"body\":{\"state\":\"run|drain\"},\"function\":\"Updates settings within the server.\",\"params\":\"pretty=1\"},\"/status\":{\"function\":\"Returns general information about the server and host system.\",\"params\":\"pretty=1\"},\"/submit\":{\"body\":{\"factfileArgs\":\"[ --start step-2 ]\",\"factfilePath\":\"/com.acme-main/factfile\",\"jobName\":\"com.acme-main\"},\"function\":\"Submits a job to the queue.\",\"params\":\"pretty=1\"}}".to_owned()
}

/// A request body that could not be parsed; `cause` is the underlying
/// parse failure's message.
#[derive(Debug, PartialEq)]
pub struct BodyError {
    pub detail: String,
    pub cause: String,
}

/// The JSON response carrying one message.
pub open spec fn message_json(m: Seq<char>) -> Seq<char> {
    "{\"message\":\""@ + json_escape(m) + "\"}"@
}

/// Encodes a message as a JSON response body.
pub fn create_response(message: &str) -> (r: String)
    ensures
        r@ == message_json(message@),
{
    let mut out: Vec<char> = Vec::new();
    push_str_chars(&mut out, "{\"message\":\"");
    push_escaped(&mut out, message);
    push_str_chars(&mut out, "\"}");
    proof {
        assert(out@ =~= message_json(message@));
    }
    chars_to_string(&out)
}

/// A response body reporting a success.
pub fn create_ok_response(message: &str) -> (r: String)
    ensures
        r@ == message_json(message@),
{
    create_response(message)
}

/// A response body reporting a refusal.
pub fn create_warn_response(message: &str) -> (r: String)
    ensures
        r@ == message_json(message@),
{
    create_response(message)
}

fn msg3(a: &str, b: &str, c: &str) -> (r: String)
    ensures
        r@ == a@ + b@ + c@,
{
    let mut out: Vec<char> = Vec::new();
    push_str_chars(&mut out, a);
    push_str_chars(&mut out, b);
    push_str_chars(&mut out, c);
    proof {
        assert(out@ =~= a@ + b@ + c@);
    }
    chars_to_string(&out)
}

// ---------------------------------------------------------------------------
// Settings
// ---------------------------------------------------------------------------

/// Applies a `/settings` body to the server: a missing or unparsable body
/// and an unknown state are refused with the exact message, and only a valid
/// body changes the server's state.
pub fn process_settings(
    request_body: Result<Option<SettingsRequest>, BodyError>,
    server: &mut ServerManager,
) -> (r: (u16, String))
    ensures
        final(server).ip == old(server).ip,
        final(server).port == old(server).port,
        final(server).webhook_uri == old(server).webhook_uri,
        final(server).no_colour == old(server).no_colour,
        final(server).max_stdouterr_size == old(server).max_stdouterr_size,
        final(server).start_time == old(server).start_time,
        request_body matches Ok(None) ==> {
            &&& final(server).state == old(server).state
            &&& r.0 == 400
            &&& r.1@ == message_json("Error: No body found in POST request"@)
        },
        request_body matches Err(ref e) ==> {
            &&& final(server).state == old(server).state
            &&& r.0 == 400
            &&& r.1@ == message_json("Error decoding JSON string: "@ + e.cause@)
        },
        request_body matches Ok(Some(ref s)) ==> !(s.state@ == "run"@ || s.state@ == "drain"@)
            ==> {
            &&& final(server).state == old(server).state
            &&& r.0 == 400
            &&& r.1@ == message_json(
                "Validation Error: Invalid 'state', must be one of (run|drain)"@,
            )
        },
        request_body matches Ok(Some(ref s)) ==> (s.state@ == "run"@ || s.state@ == "drain"@)
            ==> {
            &&& final(server).state@ == s.state@
            &&& r.0 == 200
            &&& r.1@ == message_json("Update acknowledged: [state: "@ + s.state@ + "]"@)
        },
{
    let settings: SettingsRequest = match request_body {
        Ok(Some(decoded_settings)) => decoded_settings,
        Ok(None) => {
            return (400, create_warn_response("Error: No body found in POST request"));
        },
        Err(e) => {
            let m = msg3("Error decoding JSON string: ", e.cause.as_str(), "");
            proof {
                reveal_strlit("");
                assert(m@ =~= "Error decoding JSON string: "@ + e.cause@);
            }
            return (400, create_warn_response(m.as_str()));
        },
    };
    let validated_settings: SettingsRequest = match SettingsRequest::validate(settings) {
        Ok(v) => v,
        Err(e) => {
            return (400, create_warn_response(e.message.as_str()));
        },
    };
    server.state = validated_settings.state;
    let m = msg3("Update acknowledged: [state: ", server.state.as_str(), "]");
    (200, create_ok_response(m.as_str()))
}

// ---------------------------------------------------------------------------
// Submission
// ---------------------------------------------------------------------------

/// Whether the store holds a record for `job_id` whose latest state is not
/// `DONE`: such a job is queued or running, and a second submission of the
/// same identifier is refused while this holds.
pub open spec fn job_is_live<T: Persistence>(p: &T, job_id: Seq<char>) -> bool {
    exists|j: Seq<char>|
        {
            let k = spec_apply_namespace(p.namespace(), job_id);
            &&& p.contents().contains_key(k)
            &&& p.contents()[k] == #[trigger] b64_of(j)
            &&& match spec_decode_entry(j) {
                Some(ev) => ev.state != JobState::DONE,
                None => false,
            }
        }
}

/// Whether the store's record for the request's identifier is live.
pub fn is_job_queued_or_running<T: Persistence>(persistence: &T, job_request: &JobRequest) -> (r:
    bool)
    ensures
        r == job_is_live(persistence, job_request.job_id@),
{
    let ghost k = spec_apply_namespace(persistence.namespace(), job_request.job_id@);
    match get_entry(persistence, job_request.job_id.as_str()) {
        Some(job_entry) => {
            if job_entry.state != JobState::DONE {
                proof {
                    let j0 = choose|j: Seq<char>|
                        persistence.contents()[k] == b64_of(j) && #[trigger] spec_decode_entry(j)
                            == Some(job_entry@);
                    assert(persistence.contents()[k] == b64_of(j0));
                }
                true
            } else {
                proof {
                    if job_is_live(persistence, job_request.job_id@) {
                        let j1 = choose|j: Seq<char>|
                            {
                                &&& persistence.contents().contains_key(k)
                                &&& persistence.contents()[k] == #[trigger] b64_of(j)
                                &&& match spec_decode_entry(j) {
                                    Some(ev) => ev.state != JobState::DONE,
                                    None => false,
                                }
                            };
                        assert(spec_decode_entry(j1) is Some);
                    }
                }
                false
            }
        },
        None => {
            proof {
                if job_is_live(persistence, job_request.job_id@) {
                    let j1 = choose|j: Seq<char>|
                        {
                            &&& persistence.contents().contains_key(k)
                            &&& persistence.contents()[k] == #[trigger] b64_of(j)
                            &&& match spec_decode_entry(j) {
                                Some(ev) => ev.state != JobState::DONE,
                                None => false,
                            }
                        };
                    assert(spec_decode_entry(j1) is Some);
                }
            }
            false
        },
    }
}

/// The dispatched request is the validated one with the server's extra
/// runner flags appended; everything else carries over unchanged.
pub open spec fn with_server_args(out: JobRequest, v: JobRequest, s: ServerManager) -> bool {
    &&& out.job_id == v.job_id
    &&& out.job_name == v.job_name
    &&& out.factfile_path == v.factfile_path
    &&& out.start_time == v.start_time
    &&& out.end_time == v.end_time
    &&& out.exec_output == v.exec_output
    &&& out.factfile_args.deep_view() == v.factfile_args.deep_view() + server_extra_args(s)
}

/// Admission for `/submit`, with the validation and queue checks handed in:
/// refuses, in order, a missing or unparsable body, a draining server, an
/// invalid request, a duplicate live job, and a full queue; only then does
/// it append the server's runner flags and hand back the request to
/// dispatch.
pub fn process_valid_submission<T, U, C, F, G>(
    request_body: Result<Option<JobRequest>, BodyError>,
    server: &ServerManager,
    persistence: &T,
    command_store: &U,
    jobs_channel: &C,
    validate: F,
    is_requests_queue_full: G,
) -> (r: (u16, String, Option<JobRequest>)) where
    T: Persistence,
    U: Execution,
    F: Fn(JobRequest, &U) -> Result<JobRequest, ValidationError>,
    G: Fn(&C) -> bool,

    requires
        forall|req: JobRequest| #[trigger] call_requires(validate, (req, command_store)),
        call_requires(is_requests_queue_full, (jobs_channel,)),
    ensures
        request_body matches Ok(None) ==> r.0 == 400 && r.1@ == message_json(
            "Error: No body found in POST request"@,
        ) && r.2 is None,
        request_body matches Err(ref e) ==> r.0 == 400 && r.1@ == message_json(
            "Error decoding JSON string: "@ + e.cause@,
        ) && r.2 is None,
        request_body matches Ok(Some(ref req)) ==> server.state@ != "run"@ ==> r.0 == 400
            && r.1@ == message_json("Server in ["@ + server.state@ + "] state - cannot submit job"@)
            && r.2 is None,
        request_body matches Ok(Some(ref req)) ==> server.state@ == "run"@ ==> ({
            ||| (exists|err: ValidationError|
                #[trigger] call_ensures(validate, (*req, command_store), Err(err)) && r.0 == 400
                    && r.1@ == message_json(err.message@) && r.2 is None)
            ||| (exists|v: JobRequest|
                #[trigger] call_ensures(validate, (*req, command_store), Ok(v)) && ({
                    ||| (job_is_live(persistence, v.job_id@) && r.0 == 400 && r.1@ == message_json(
                        "Job is already being processed"@,
                    ) && r.2 is None)
                    ||| (!job_is_live(persistence, v.job_id@) && call_ensures(
                        is_requests_queue_full,
                        (jobs_channel,),
                        true,
                    ) && r.0 == 400 && r.1@ == message_json("Queue is full, cannot add job"@)
                        && r.2 is None)
                    ||| (!job_is_live(persistence, v.job_id@) && call_ensures(
                        is_requests_queue_full,
                        (jobs_channel,),
                        false,
                    ) && r.0 == 200 && r.1@ == message_json(
                        "SUBMITTING JOB REQ jobId:["@ + v.job_id@ + "]"@,
                    ) && (r.2 matches Some(out) && with_server_args(out, v, *server)))
                }))
        }),
{
    let job_request: JobRequest = match request_body {
        Ok(Some(decoded_job_request)) => decoded_job_request,
        Ok(None) => {
            return (400, create_warn_response("Error: No body found in POST request"), None);
        },
        Err(e) => {
            let m = msg3("Error decoding JSON string: ", e.cause.as_str(), "");
            proof {
                reveal_strlit("");
                assert(m@ =~= "Error decoding JSON string: "@ + e.cause@);
            }
            return (400, create_warn_response(m.as_str()), None);
        },
    };
    if !server.is_running() {
        let m = msg3("Server in [", server.state.as_str(), "] state - cannot submit job");
        return (400, create_warn_response(m.as_str()), None);
    }
    let mut validated_job_request: JobRequest = match validate(job_request, command_store) {
        Ok(v) => v,
        Err(e) => {
            return (400, create_warn_response(e.message.as_str()), None);
        },
    };
    if is_job_queued_or_running(persistence, &validated_job_request) {
        return (400, create_warn_response("Job is already being processed"), None);
    }
    if is_requests_queue_full(jobs_channel) {
        return (400, create_warn_response("Queue is full, cannot add job"), None);
    }
    JobRequest::append_job_args(server, &mut validated_job_request);
    let m = msg3("SUBMITTING JOB REQ jobId:[", validated_job_request.job_id.as_str(), "]");
    (200, create_ok_response(m.as_str()), Some(validated_job_request))
}

/// Admission for `/submit` with the library's own validation; the queue
/// check still queries the dispatcher and is handed in.
pub fn process_submission<T, U, C, G>(
    request_body: Result<Option<JobRequest>, BodyError>,
    server: &ServerManager,
    persistence: &T,
    command_store: &U,
    jobs_channel: &C,
    is_requests_queue_full: G,
) -> (r: (u16, String, Option<JobRequest>)) where
    T: Persistence,
    U: Execution,
    G: Fn(&C) -> bool,

    requires
        call_requires(is_requests_queue_full, (jobs_channel,)),
    ensures
        request_body matches Ok(None) ==> r.0 == 400 && r.1@ == message_json(
            "Error: No body found in POST request"@,
        ) && r.2 is None,
        request_body matches Err(ref e) ==> r.0 == 400 && r.1@ == message_json(
            "Error decoding JSON string: "@ + e.cause@,
        ) && r.2 is None,
        request_body matches Ok(Some(ref req)) ==> server.state@ != "run"@ ==> r.0 == 400
            && r.1@ == message_json("Server in ["@ + server.state@ + "] state - cannot submit job"@)
            && r.2 is None,
        request_body matches Ok(Some(ref req)) ==> server.state@ == "run"@ ==> {
            &&& req.job_id@.len() == 0 ==> r.0 == 400 && r.1@ == message_json(
                crate::server::empty_field_message("jobId"@),
            ) && r.2 is None
            &&& (req.job_id@.len() > 0 && req.job_name@.len() == 0) ==> r.0 == 400 && r.1@
                == message_json(crate::server::empty_field_message("jobName"@)) && r.2 is None
            &&& (req.job_id@.len() > 0 && req.job_name@.len() > 0 && req.factfile_path@.len()
                == 0) ==> r.0 == 400 && r.1@ == message_json(
                crate::server::empty_field_message("factfilePath"@),
            ) && r.2 is None
            &&& (req.job_id@.len() > 0 && req.job_name@.len() > 0 && req.factfile_path@.len() > 0
                && !command_store.commands().contains_key("factotum"@)) ==> r.0 == 400 && r.2
                is None
            &&& (req.job_id@.len() > 0 && req.job_name@.len() > 0 && req.factfile_path@.len() > 0
                && command_store.commands().contains_key("factotum"@)) ==> {
                &&& job_is_live(persistence, req.job_id@) ==> r.0 == 400 && r.1@ == message_json(
                    "Job is already being processed"@,
                ) && r.2 is None
                &&& !job_is_live(persistence, req.job_id@) ==> ({
                    ||| (call_ensures(is_requests_queue_full, (jobs_channel,), true) && r.0 == 400
                        && r.1@ == message_json("Queue is full, cannot add job"@) && r.2 is None)
                    ||| (call_ensures(is_requests_queue_full, (jobs_channel,), false) && r.0 == 200
                        && r.1@ == message_json("SUBMITTING JOB REQ jobId:["@ + req.job_id@ + "]"@)
                        && (r.2 matches Some(out) && with_server_args(out, *req, *server)))
                })
            }
        },
{
    process_valid_submission(
        request_body,
        server,
        persistence,
        command_store,
        jobs_channel,
        JobRequest::validate,
        is_requests_queue_full,
    )
}

/// Whether a store lookup result names a job still queued or running.
pub open spec fn entry_is_live(e: &Option<crate::persistence::JobEntry>) -> bool {
    match e {
        Some(en) => en.state != JobState::DONE,
        None => false,
    }
}

/// Admission for `/submit` from plain values: the store lookup for the job
/// identifier, the command resolution, and the queue-full answer are handed
/// in, already obtained.  The refusals, their order, and their messages are
/// those of [`process_submission`].
pub fn decide_submission(
    request_body: Result<Option<JobRequest>, BodyError>,
    server: &ServerManager,
    stored_entry: &Option<crate::persistence::JobEntry>,
    command_lookup: &Result<String, String>,
    queue_full: bool,
) -> (r: (u16, String, Option<JobRequest>))
    ensures
        request_body matches Ok(None) ==> r.0 == 400 && r.1@ == message_json(
            "Error: No body found in POST request"@,
        ) && r.2 is None,
        request_body matches Err(ref e) ==> r.0 == 400 && r.1@ == message_json(
            "Error decoding JSON string: "@ + e.cause@,
        ) && r.2 is None,
        request_body matches Ok(Some(ref req)) ==> server.state@ != "run"@ ==> r.0 == 400
            && r.1@ == message_json("Server in ["@ + server.state@ + "] state - cannot submit job"@)
            && r.2 is None,
        request_body matches Ok(Some(ref req)) ==> server.state@ == "run"@ ==> {
            &&& req.job_id@.len() == 0 ==> r.0 == 400 && r.1@ == message_json(
                crate::server::empty_field_message("jobId"@),
            ) && r.2 is None
            &&& (req.job_id@.len() > 0 && req.job_name@.len() == 0) ==> r.0 == 400 && r.1@
                == message_json(crate::server::empty_field_message("jobName"@)) && r.2 is None
            &&& (req.job_id@.len() > 0 && req.job_name@.len() > 0 && req.factfile_path@.len()
                == 0) ==> r.0 == 400 && r.1@ == message_json(
                crate::server::empty_field_message("factfilePath"@),
            ) && r.2 is None
            &&& (req.job_id@.len() > 0 && req.job_name@.len() > 0 && req.factfile_path@.len() > 0
                && command_lookup is Err) ==> (r.0 == 400 && r.2 is None
                && (command_lookup matches Err(c) ==> r.1@ == message_json(
                "Validation Error: "@ + c@,
            )))
            &&& (req.job_id@.len() > 0 && req.job_name@.len() > 0 && req.factfile_path@.len() > 0
                && command_lookup is Ok) ==> {
                &&& entry_is_live(stored_entry) ==> r.0 == 400 && r.1@ == message_json(
                    "Job is already being processed"@,
                ) && r.2 is None
                &&& (!entry_is_live(stored_entry) && queue_full) ==> r.0 == 400 && r.1@
                    == message_json("Queue is full, cannot add job"@) && r.2 is None
                &&& (!entry_is_live(stored_entry) && !queue_full) ==> r.0 == 200 && r.1@
                    == message_json("SUBMITTING JOB REQ jobId:["@ + req.job_id@ + "]"@) && (r.2
                    matches Some(out) && with_server_args(out, *req, *server))
            }
        },
{
    let job_request: JobRequest = match request_body {
        Ok(Some(decoded_job_request)) => decoded_job_request,
        Ok(None) => {
            return (400, create_warn_response("Error: No body found in POST request"), None);
        },
        Err(e) => {
            let m = msg3("Error decoding JSON string: ", e.cause.as_str(), "");
            proof {
                reveal_strlit("");
                assert(m@ =~= "Error decoding JSON string: "@ + e.cause@);
            }
            return (400, create_warn_response(m.as_str()), None);
        },
    };
    if !server.is_running() {
        let m = msg3("Server in [", server.state.as_str(), "] state - cannot submit job");
        return (400, create_warn_response(m.as_str()), None);
    }
    let mut validated_job_request: JobRequest = match JobRequest::validate_with_lookup(
        job_request,
        command_lookup,
    ) {
        Ok(v) => v,
        Err(e) => {
            return (400, create_warn_response(e.message.as_str()), None);
        },
    };
    let live: bool = match stored_entry {
        Some(e) => !(e.state == JobState::DONE),
        None => false,
    };
    if live {
        return (400, create_warn_response("Job is already being processed"), None);
    }
    if queue_full {
        return (400, create_warn_response("Queue is full, cannot add job"), None);
    }
    JobRequest::append_job_args(server, &mut validated_job_request);
    let m = msg3("SUBMITTING JOB REQ jobId:[", validated_job_request.job_id.as_str(), "]");
    (200, create_ok_response(m.as_str()), Some(validated_job_request))
}

// ---------------------------------------------------------------------------
// Job lookup
// ---------------------------------------------------------------------------

/// The value under the last pair named `key`, as a query-string map would
/// hold it.
pub open spec fn query_value(pairs: Seq<(String, String)>, key: Seq<char>) -> Option<Seq<char>>
    decreases pairs.len(),
{
    if pairs.len() == 0 {
        None
    } else if pairs.last().0@ == key {
        Some(pairs.last().1@)
    } else {
        query_value(pairs.drop_last(), key)
    }
}

/// The `/check` response from plain values: the `id` query parameter, if
/// any, and the store lookup for it, already decoded.
pub fn check_job_response(
    id_param: &Option<String>,
    stored_entry: &Option<crate::persistence::JobEntry>,
) -> (r: (u16, String))
    ensures
        id_param is None ==> r.0 == 400 && r.1@ == message_json(
            "Error: No 'id' found in URL query parameters"@,
        ),
        id_param matches Some(ref id) ==> match stored_entry {
            Some(e) => r.0 == 200 && r.1@ == spec_encode_entry(e@),
            None => r.0 == 400 && r.1@ == message_json(
                "Error: No job entry found for id='"@ + id@ + "'"@,
            ),
        },
{
    let job_request_id: &String = match id_param {
        Some(id) => id,
        None => {
            return (400, create_warn_response("Error: No 'id' found in URL query parameters"));
        },
    };
    match stored_entry {
        Some(job_entry) => (200, encode_entry(job_entry)),
        None => {
            let m = msg3("Error: No job entry found for id='", job_request_id.as_str(), "'");
            (400, create_warn_response(m.as_str()))
        },
    }
}

/// Looks up the last pair named `key`.
fn query_param(pairs: &Vec<(String, String)>, key: &str) -> (r: Option<String>)
    ensures
        match r {
            Some(v) => query_value(pairs@, key@) == Some(v@),
            None => query_value(pairs@, key@) is None,
        },
{
    let n: usize = pairs.len();
    let mut k: usize = n;
    proof {
        assert(pairs@.subrange(0, n as int) =~= pairs@);
    }
    while k > 0
        invariant
            n == pairs@.len(),
            k <= n,
            query_value(pairs@, key@) == query_value(pairs@.subrange(0, k as int), key@),
        decreases k,
    {
        k = k - 1;
        if crate::codec::str_eq(pairs[k].0.as_str(), key) {
            proof {
                assert(pairs@.subrange(0, k as int + 1).last() == pairs@[k as int]);
            }
            return Some(pairs[k].1.clone());
        }
        proof {
            assert(pairs@.subrange(0, k as int + 1).last() == pairs@[k as int]);
            assert(pairs@.subrange(0, k as int + 1).drop_last() =~= pairs@.subrange(0, k as int));
        }
    }
    proof {
        assert(pairs@.subrange(0, 0).len() == 0);
    }
    None
}

/// Looks up the job named by the `id` query parameter: a missing parameter
/// and an absent or undecodable record are refused with the exact message;
/// a stored record is returned re-encoded as the response body.
pub fn check_job_request<T: Persistence>(
    query_pairs: &Vec<(String, String)>,
    persistence: &T,
) -> (r: (u16, String))
    ensures
        query_value(query_pairs@, "id"@) is None ==> r.0 == 400 && r.1@ == message_json(
            "Error: No 'id' found in URL query parameters"@,
        ),
        query_value(query_pairs@, "id"@) matches Some(id) ==> ({
            let k = spec_apply_namespace(persistence.namespace(), id);
            &&& (forall|j: Seq<char>|
                (persistence.contents().contains_key(k) && persistence.contents()[k]
                    == #[trigger] b64_of(j) && spec_decode_entry(j) is Some) ==> r.0 == 200)
            &&& (r.0 == 200 ==> exists|j: Seq<char>|
                persistence.contents().contains_key(k) && persistence.contents()[k]
                    == #[trigger] b64_of(j) && match spec_decode_entry(j) {
                    Some(ev) => r.1@ == spec_encode_entry(ev),
                    None => false,
                })
            &&& (r.0 != 200 ==> r.0 == 400 && r.1@ == message_json(
                "Error: No job entry found for id='"@ + id + "'"@,
            ))
        }),
{
    let job_request_id: String = match query_param(query_pairs, "id") {
        Some(id) => id,
        None => {
            return (400, create_warn_response("Error: No 'id' found in URL query parameters"));
        },
    };
    match get_entry(persistence, job_request_id.as_str()) {
        Some(job_entry) => (200, encode_entry(&job_entry)),
        None => {
            let m = msg3("Error: No job entry found for id='", job_request_id.as_str(), "'");
            (400, create_warn_response(m.as_str()))
        },
    }
}

} // verus!
