use std::collections::VecDeque;

use factotum_server::command::Execution;
use factotum_server::dispatcher::{
    admit_request, build_command_args, complete_job_request, completion_message,
    failed_job_request, failure_message, get_dispatcher_status, is_queue_full, new_job_request,
    persist_entry, process_job_request, start_job_request, WorkerPool,
};
use factotum_server::persistence::{
    apply_namespace_if_absent, decode_entry, decode_store_value, encode_entry, encode_store_value,
    get_entry, set_entry, JobEntry, JobOutcome, JobState, MemoryStore, Persistence,
};
use factotum_server::responder::{
    check_job_request, create_response, decide_submission, encode_status,
    is_job_queued_or_running, BodyError, DispatcherStatus, FactotumServerStatus, JobStatus,
    ServerStatus, WorkerStatus,
};
use factotum_server::server::{JobRequest, ServerManager, ValidationError};

fn sample_request() -> JobRequest {
    JobRequest::new(
        "job-1",
        "acme main",
        "/data/factfile",
        vec!["--tag".to_string(), "nightly".to_string()],
    )
}

// --- the record round trip ---

#[test]
fn entry_round_trip_plain() {
    let request = sample_request();
    let entry = JobEntry::new(&JobState::QUEUED, &request, "server-a", &JobOutcome::WAITING);
    let text = encode_entry(&entry);
    let back = decode_entry(&text);
    assert_eq!(Some(entry), back);
}

#[test]
fn entry_round_trip_with_escapes_and_completion() {
    let mut request = JobRequest::new(
        "id \"quoted\"",
        "name\\with\\slashes",
        "/tmp/x",
        vec!["a\"b".to_string(), "c\\d".to_string()],
    );
    request.end_time = Some(1_234_567_890_123);
    request.exec_output = Some("line one \"two\" \\three".to_string());
    let entry = JobEntry::new(&JobState::DONE, &request, "srv \"x\"", &JobOutcome::SUCCEEDED);
    let text = encode_entry(&entry);
    let back = decode_entry(&text);
    assert_eq!(Some(entry), back);
}

#[test]
fn entry_encoding_is_json_shaped() {
    let mut request = JobRequest::new("a", "b", "/f", vec![]);
    request.start_time = 17;
    let entry = JobEntry::new(&JobState::WORKING, &request, "s", &JobOutcome::RUNNING);
    let text = encode_entry(&entry);
    assert_eq!(
        "{\"jobRequest\":{\"jobId\":\"a\",\"jobName\":\"b\",\"factfilePath\":\"/f\",\
         \"factfileArgs\":[],\"startTime\":17,\"endTime\":null,\"execOutput\":null},\
         \"state\":\"WORKING\",\"outcome\":\"RUNNING\",\"serverId\":\"s\"}",
        text
    );
}

#[test]
fn decode_rejects_tampered_text() {
    let request = sample_request();
    let entry = JobEntry::new(&JobState::QUEUED, &request, "srv", &JobOutcome::WAITING);
    let mut text = encode_entry(&entry);
    text.push('x');
    assert_eq!(None, decode_entry(&text));
    assert_eq!(None, decode_entry("{\"jobRequest\":"));
    assert_eq!(None, decode_entry(""));
}

// --- the store ---

#[test]
fn set_then_get_entry_round_trips_through_the_store() {
    let mut store = MemoryStore::new("server-a", "com.test/namespace");
    let request = sample_request();
    assert!(set_entry(&mut store, "job-1", &request, &JobState::QUEUED, &JobOutcome::WAITING));
    let back = get_entry(&store, "job-1").expect("entry expected");
    assert_eq!(JobState::QUEUED, back.state);
    assert_eq!(JobOutcome::WAITING, back.outcome);
    assert_eq!("server-a", back.server_id);
    assert_eq!(request, back.job_request);
}

#[test]
fn stored_value_is_base64_not_plain_text() {
    let mut store = MemoryStore::new("server-a", "ns");
    let request = sample_request();
    assert!(set_entry(&mut store, "job-1", &request, &JobState::QUEUED, &JobOutcome::WAITING));
    let (_, raw) = store.entries.last().expect("one write").clone();
    assert!(!raw.contains('{'));
    assert_ne!(raw, encode_entry(&JobEntry::new(
        &JobState::QUEUED,
        &request,
        "server-a",
        &JobOutcome::WAITING,
    )));
}

#[test]
fn get_entry_absent_and_undecodable() {
    let mut store = MemoryStore::new("server-a", "ns");
    assert!(get_entry(&store, "missing").is_none());
    store.set_key("ns/bad", "not base64 at all!");
    assert!(get_entry(&store, "bad").is_none());
}

#[test]
fn apply_namespace_is_idempotent() {
    let once = apply_namespace_if_absent("ns", "k");
    assert_eq!("ns/k", once);
    let twice = apply_namespace_if_absent("ns", &once);
    assert_eq!(once, twice);
    assert_eq!("a/b/c", apply_namespace_if_absent("a", "a/b/c"));
    assert_eq!("a/ab", apply_namespace_if_absent("a", "ab"));
}

// --- the dispatcher ---

#[test]
fn queue_never_grows_past_its_cap() {
    let mut queue: VecDeque<JobRequest> = VecDeque::new();
    let pool = WorkerPool::new(1);
    let mut store = MemoryStore::new("s", "ns");
    for k in 0..3 {
        let request =
            JobRequest::new(&format!("job-{}", k), "name", "/f", vec![]);
        let _ = new_job_request(&mut queue, 2, &pool, &mut store, request);
        assert!(queue.len() <= 2);
    }
    assert_eq!(2, queue.len());
    let request = JobRequest::new("job-9", "name", "/f", vec![]);
    let refused = new_job_request(&mut queue, 2, &pool, &mut store, request);
    assert_eq!(Err("Queue is full, cannot add job".to_string()), refused);
}

#[test]
fn admission_reports_saturated_pool_but_still_admits() {
    let mut queue: VecDeque<JobRequest> = VecDeque::new();
    let pool = WorkerPool::new(0);
    let mut store = MemoryStore::new("s", "ns");
    let request = JobRequest::new("job-1", "name", "/f", vec![]);
    let outcome = new_job_request(&mut queue, 10, &pool, &mut store, request);
    assert_eq!(
        Err("No threads available - waiting for a job to complete.".to_string()),
        outcome
    );
    assert_eq!(1, queue.len());
    assert!(get_entry(&store, "job-1").is_some());
}

#[test]
fn admission_with_free_worker_asks_for_a_dispatch() {
    let mut queue: VecDeque<JobRequest> = VecDeque::new();
    let pool = WorkerPool::new(1);
    let mut store = MemoryStore::new("s", "ns");
    let request = JobRequest::new("job-1", "name", "/f", vec![]);
    assert_eq!(Ok(()), new_job_request(&mut queue, 10, &pool, &mut store, request));
}

#[test]
fn process_request_on_empty_queue_is_a_no_op() {
    let mut queue: VecDeque<JobRequest> = VecDeque::new();
    let mut pool = WorkerPool::new(3);
    let popped = process_job_request(&mut queue, &mut pool);
    assert!(popped.is_none());
    assert!(queue.is_empty());
    assert_eq!(0, pool.active_count());
    assert_eq!(3, pool.max_count());
}

#[test]
fn dispatch_pops_fifo_and_books_the_pool() {
    let mut queue: VecDeque<JobRequest> = VecDeque::new();
    let pool_reader = WorkerPool::new(2);
    let mut store = MemoryStore::new("s", "ns");
    let first = JobRequest::new("first", "name", "/f", vec![]);
    let second = JobRequest::new("second", "name", "/f", vec![]);
    let _ = new_job_request(&mut queue, 10, &pool_reader, &mut store, first.clone());
    let _ = new_job_request(&mut queue, 10, &pool_reader, &mut store, second);
    let mut pool = WorkerPool::new(2);
    let popped = process_job_request(&mut queue, &mut pool).expect("a request");
    assert_eq!(first, popped);
    assert_eq!(1, queue.len());
    assert_eq!(1, pool.active_count());
}

#[test]
fn pool_books_overflow_as_held_and_frees_on_finish() {
    let mut pool = WorkerPool::new(1);
    pool.submit();
    assert_eq!(1, pool.active_count());
    pool.submit();
    assert_eq!(1, pool.active_count());
    assert_eq!(1, pool.max_count());
    pool.finish();
    assert_eq!(1, pool.active_count());
    pool.finish();
    assert_eq!(0, pool.active_count());
}

#[test]
fn status_snapshot_counters_add_up() {
    let mut queue: VecDeque<JobRequest> = VecDeque::new();
    queue.push_back(sample_request());
    let mut pool = WorkerPool::new(5);
    pool.submit();
    pool.submit();
    let status = get_dispatcher_status(&queue, 8, &pool);
    assert_eq!(5, status.workers.total);
    assert_eq!(2, status.workers.active);
    assert_eq!(3, status.workers.idle);
    assert_eq!(status.workers.total, status.workers.idle + status.workers.active);
    assert_eq!(8, status.jobs.max_queue_size);
    assert_eq!(1, status.jobs.in_queue);
    assert!(!is_queue_full(&queue, 8));
    assert!(is_queue_full(&queue, 1));
}

#[test]
fn worker_lifecycle_writes_queued_working_done() {
    let mut store = MemoryStore::new("s", "ns");
    let mut queue: VecDeque<JobRequest> = VecDeque::new();
    let pool = WorkerPool::new(1);
    let request = sample_request();
    let _ = new_job_request(&mut queue, 10, &pool, &mut store, request.clone());
    assert_eq!(JobState::QUEUED, get_entry(&store, "job-1").unwrap().state);
    start_job_request(&mut store, &request);
    assert_eq!(JobState::WORKING, get_entry(&store, "job-1").unwrap().state);
    let message = complete_job_request(&mut store, request);
    assert_eq!("COMPLETED JOB REQ  jobId:[job-1]", message);
    let done = get_entry(&store, "job-1").unwrap();
    assert_eq!(JobState::DONE, done.state);
    assert_eq!(JobOutcome::SUCCEEDED, done.outcome);
}

#[test]
fn failed_job_is_recorded_as_done_failed() {
    let mut store = MemoryStore::new("s", "ns");
    let request = sample_request();
    let message = failed_job_request(&mut store, request);
    assert_eq!("FAILED JOB REQ jobId:[job-1]", message);
    let done = get_entry(&store, "job-1").unwrap();
    assert_eq!(JobState::DONE, done.state);
    assert_eq!(JobOutcome::FAILED, done.outcome);
}

#[test]
fn persist_entry_reports_the_write() {
    let mut store = MemoryStore::new("s", "ns");
    let request = sample_request();
    let message =
        persist_entry(&mut store, "job-1", &request, &JobState::WORKING, &JobOutcome::RUNNING);
    assert_eq!(Ok("Persist [job-1]::[WORKING]".to_string()), message);
}

#[test]
fn command_args_are_run_path_then_own_args() {
    let request = sample_request();
    let args = build_command_args(&request);
    assert_eq!(
        vec![
            "run".to_string(),
            "/data/factfile".to_string(),
            "--tag".to_string(),
            "nightly".to_string(),
        ],
        args
    );
}

// --- admission against the store ---

#[test]
fn live_job_blocks_resubmission_until_done() {
    let mut store = MemoryStore::new("s", "ns");
    let request = sample_request();
    assert!(!is_job_queued_or_running(&store, &request));
    set_entry(&mut store, "job-1", &request, &JobState::QUEUED, &JobOutcome::WAITING);
    assert!(is_job_queued_or_running(&store, &request));
    set_entry(&mut store, "job-1", &request, &JobState::WORKING, &JobOutcome::RUNNING);
    assert!(is_job_queued_or_running(&store, &request));
    set_entry(&mut store, "job-1", &request, &JobState::DONE, &JobOutcome::SUCCEEDED);
    assert!(!is_job_queued_or_running(&store, &request));
}

#[derive(Debug)]
struct EmptyCommandStore;

impl Execution for EmptyCommandStore {
    fn commands(&self) -> vstd::map::Map<vstd::seq::Seq<char>, vstd::seq::Seq<char>> {
        panic!()
    }

    fn get_command(&self, name: &str) -> Result<String, String> {
        Err(format!("Command <{}> not found", name))
    }

    fn execute(&self, _: String, _: Vec<String>) -> Result<String, String> {
        Err("nothing to run".to_string())
    }
}

#[derive(Debug)]
struct OneCommandStore;

impl Execution for OneCommandStore {
    fn commands(&self) -> vstd::map::Map<vstd::seq::Seq<char>, vstd::seq::Seq<char>> {
        panic!()
    }

    fn get_command(&self, _: &str) -> Result<String, String> {
        Ok("/usr/bin/factotum".to_string())
    }

    fn execute(&self, _: String, _: Vec<String>) -> Result<String, String> {
        Ok("ok".to_string())
    }
}

#[test]
fn validate_refuses_each_empty_field() {
    let store = OneCommandStore;
    let r = JobRequest::validate(JobRequest::new("", "n", "/f", vec![]), &store);
    assert_eq!(
        Err(ValidationError {
            message: "Validation Error: No valid value found: field 'jobId' cannot be empty"
                .to_string()
        }),
        r
    );
    let r = JobRequest::validate(JobRequest::new("i", "", "/f", vec![]), &store);
    assert_eq!(
        Err(ValidationError {
            message: "Validation Error: No valid value found: field 'jobName' cannot be empty"
                .to_string()
        }),
        r
    );
    let r = JobRequest::validate(JobRequest::new("i", "n", "", vec![]), &store);
    assert_eq!(
        Err(ValidationError {
            message:
                "Validation Error: No valid value found: field 'factfilePath' cannot be empty"
                    .to_string()
        }),
        r
    );
}

#[test]
fn validate_requires_the_command_to_resolve() {
    let request = JobRequest::new("i", "n", "/f", vec![]);
    assert_eq!(Ok(request.clone()), JobRequest::validate(request.clone(), &OneCommandStore));
    let refused = JobRequest::validate(request, &EmptyCommandStore);
    assert_eq!(
        Err(ValidationError {
            message: "Validation Error: Command <factotum> not found".to_string()
        }),
        refused
    );
}

#[test]
fn server_args_are_appended_after_validation() {
    let server = ServerManager::new(
        Some("0.0.0.0".to_string()),
        8080,
        "http://hook.test/".to_string(),
        true,
        512,
    );
    let mut request = sample_request();
    JobRequest::append_job_args(&server, &mut request);
    assert_eq!(
        vec![
            "--tag".to_string(),
            "nightly".to_string(),
            "--webhook".to_string(),
            "http://hook.test/".to_string(),
            "--max-stdouterr-size".to_string(),
            "512".to_string(),
            "--no-colour".to_string(),
        ],
        request.factfile_args
    );
}

// --- the HTTP-facing helpers ---

#[test]
fn response_messages_are_escaped_json() {
    assert_eq!(r#"{"message":"plain"}"#, create_response("plain"));
    assert_eq!(
        "{\"message\":\"a \\\"quote\\\" and \\\\slash\"}",
        create_response("a \"quote\" and \\slash")
    );
}

#[test]
fn status_report_encodes_as_camel_case_json() {
    let report = FactotumServerStatus {
        version: "0.1.0".to_string(),
        server: ServerStatus {
            start_time: "2020-01-01T00:00:00+00:00".to_string(),
            up_time: "0 days, 0 hours, 1 minutes, 5 seconds".to_string(),
            state: "run".to_string(),
        },
        dispatcher: DispatcherStatus {
            workers: WorkerStatus { total: 4, idle: 3, active: 1 },
            jobs: JobStatus { max_queue_size: 20, in_queue: 2 },
        },
    };
    assert_eq!(
        "{\"version\":\"0.1.0\",\"server\":{\"startTime\":\"2020-01-01T00:00:00+00:00\",\
         \"upTime\":\"0 days, 0 hours, 1 minutes, 5 seconds\",\"state\":\"run\"},\
         \"dispatcher\":{\"workers\":{\"total\":4,\"idle\":3,\"active\":1},\
         \"jobs\":{\"maxQueueSize\":20,\"inQueue\":2}}}",
        encode_status(&report)
    );
}

#[test]
fn check_looks_up_by_id_parameter() {
    let mut store = MemoryStore::new("s", "ns");
    let request = sample_request();
    set_entry(&mut store, "job-1", &request, &JobState::WORKING, &JobOutcome::RUNNING);

    let no_id: Vec<(String, String)> = vec![("pretty".to_string(), "1".to_string())];
    let (status, response) = check_job_request(&no_id, &store);
    assert_eq!(400, status);
    assert_eq!(r#"{"message":"Error: No 'id' found in URL query parameters"}"#, response);

    let with_id: Vec<(String, String)> = vec![("id".to_string(), "job-1".to_string())];
    let (status, response) = check_job_request(&with_id, &store);
    assert_eq!(200, status);
    let entry = JobEntry::new(&JobState::WORKING, &request, "s", &JobOutcome::RUNNING);
    assert_eq!(encode_entry(&entry), response);

    let unknown: Vec<(String, String)> = vec![("id".to_string(), "nope".to_string())];
    let (status, response) = check_job_request(&unknown, &store);
    assert_eq!(400, status);
    assert_eq!(r#"{"message":"Error: No job entry found for id='nope'"}"#, response);
}

// --- the plain-value admission path ---

#[test]
fn decide_submission_walks_the_same_cascade() {
    let server = ServerManager::new(Some("0.0.0.0".to_string()), 8080, String::new(), false, 512);
    let lookup: Result<String, String> = Ok("/usr/bin/factotum".to_string());
    let request = sample_request();

    let (status, response, dispatched) =
        decide_submission(Ok(None), &server, &None, &lookup, false);
    assert_eq!((400, r#"{"message":"Error: No body found in POST request"}"#.to_string(), None),
        (status, response, dispatched));

    let (status, response, dispatched) = decide_submission(
        Err(BodyError { detail: "d".to_string(), cause: "bad stuff".to_string() }),
        &server,
        &None,
        &lookup,
        false,
    );
    assert_eq!((400, r#"{"message":"Error decoding JSON string: bad stuff"}"#.to_string(), None),
        (status, response, dispatched));

    let live = Some(JobEntry::new(&JobState::QUEUED, &request, "s", &JobOutcome::WAITING));
    let (status, response, _) =
        decide_submission(Ok(Some(request.clone())), &server, &live, &lookup, false);
    assert_eq!(400, status);
    assert_eq!(r#"{"message":"Job is already being processed"}"#, response);

    let done = Some(JobEntry::new(&JobState::DONE, &request, "s", &JobOutcome::SUCCEEDED));
    let (status, _, _) =
        decide_submission(Ok(Some(request.clone())), &server, &done, &lookup, true);
    assert_eq!(400, status);

    let (status, response, dispatched) =
        decide_submission(Ok(Some(request.clone())), &server, &done, &lookup, false);
    assert_eq!(200, status);
    assert_eq!(r#"{"message":"SUBMITTING JOB REQ jobId:[job-1]"}"#, response);
    assert_eq!(Some(request), dispatched);

    let broken: Result<String, String> = Err("Command <factotum> not found".to_string());
    let (status, response, _) =
        decide_submission(Ok(Some(sample_request())), &server, &None, &broken, false);
    assert_eq!(400, status);
    assert_eq!(r#"{"message":"Validation Error: Command <factotum> not found"}"#, response);
}

#[test]
fn admit_request_matches_full_admission() {
    let mut queue: VecDeque<JobRequest> = VecDeque::new();
    let pool = WorkerPool::new(1);
    assert_eq!(Ok(()), admit_request(&mut queue, 1, &pool, sample_request()));
    assert_eq!(
        Err("Queue is full, cannot add job".to_string()),
        admit_request(&mut queue, 1, &pool, sample_request())
    );
    assert_eq!(1, queue.len());
}

#[test]
fn store_value_helpers_round_trip() {
    let request = sample_request();
    let value = encode_store_value(&request, &JobState::WORKING, &JobOutcome::RUNNING, "srv");
    let back = decode_store_value(&value).expect("a record");
    assert_eq!(JobEntry::new(&JobState::WORKING, &request, "srv", &JobOutcome::RUNNING), back);
    assert_eq!(None, decode_store_value("###"));
}

#[test]
fn completion_and_failure_lines_name_the_job() {
    assert_eq!("COMPLETED JOB REQ  jobId:[a]", completion_message(&"a".to_string()));
    assert_eq!("FAILED JOB REQ jobId:[a]", failure_message(&"a".to_string()));
}

#[test]
fn help_message_is_canonical_json() {
    let text = factotum_server::responder::get_help_message();
    let value: serde_json::Value = serde_json::from_str(&text).expect("valid JSON");
    assert_eq!(
        "Submits a job to the queue.",
        value["/submit"]["function"].as_str().unwrap()
    );
    assert_eq!("run|drain", value["/settings"]["body"]["state"].as_str().unwrap());
    assert_eq!(text, serde_json::to_string(&value).unwrap());
}

#[test]
fn start_time_renders_the_stamped_instant() {
    let mut server =
        ServerManager::new(Some("0.0.0.0".to_string()), 8080, String::new(), false, 512);
    server.start_time = 0;
    assert_eq!("1970-01-01T00:00:00+00:00", server.get_start_time());
    server.start_time = 1_577_836_800_000;
    assert_eq!("2020-01-01T00:00:00+00:00", server.get_start_time());
}

#[test]
fn uptime_reads_as_days_hours_minutes_seconds() {
    let server =
        ServerManager::new(Some("0.0.0.0".to_string()), 8080, String::new(), false, 512);
    let uptime = server.get_uptime();
    assert!(uptime.starts_with("0 days, 0 hours, 0 minutes, "));
    assert!(uptime.ends_with(" seconds"));
}
