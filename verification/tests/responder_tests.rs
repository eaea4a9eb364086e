use std::sync::mpsc;
use std::sync::mpsc::Sender;
use std::time::Duration;

use factotum_server::command::Execution;
use factotum_server::dispatcher::Dispatch;
use factotum_server::persistence::{JobOutcome, JobState, MemoryStore};
use factotum_server::responder::{
    process_settings, process_submission, process_valid_submission, BodyError, DispatcherStatus,
};
use factotum_server::server::{JobRequest, ServerManager, SettingsRequest, ValidationError};

type JobsChannel = Sender<Dispatch<Sender<DispatcherStatus>, Sender<bool>>>;

#[derive(Debug)]
struct NoopCommandMock;

impl Execution for NoopCommandMock {
    fn commands(&self) -> vstd::map::Map<vstd::seq::Seq<char>, vstd::seq::Seq<char>> {
        panic!()
    }

    fn get_command(&self, _: &str) -> Result<String, String> {
        Ok("/noop/command".to_string())
    }

    fn execute(&self, _: String, _: Vec<String>) -> Result<String, String> {
        Ok("NOOP command".to_string())
    }
}

#[derive(Debug)]
struct FakeCommandStore;

impl Execution for FakeCommandStore {
    fn commands(&self) -> vstd::map::Map<vstd::seq::Seq<char>, vstd::seq::Seq<char>> {
        panic!()
    }

    fn get_command(&self, _: &str) -> Result<String, String> {
        Ok("/tmp/fake_command".to_string())
    }

    fn execute(&self, _: String, _: Vec<String>) -> Result<String, String> {
        Ok("fake output".to_string())
    }
}

fn validate_ok_mock<U: Execution>(request: JobRequest, _: &U) -> Result<JobRequest, ValidationError> {
    Ok(request)
}

fn queue_is_full(_: &JobsChannel) -> bool {
    true
}

fn queue_is_not_full(_: &JobsChannel) -> bool {
    false
}

#[test]
fn process_settings_fail_no_body() {
    let request_body = Ok(None);
    let mut server_manager = ServerManager::new(
        Some("0.0.0.0".to_string()),
        8080,
        "http://dummy.test/".to_string(),
        false,
        10_000,
    );

    let (status, response) = process_settings(request_body, &mut server_manager);

    assert_eq!(400, status);
    assert_eq!(r#"{"message":"Error: No body found in POST request"}"#, response);
}

#[test]
fn process_settings_fail_invalid_json() {
    let request_body = Err(BodyError {
        detail: "dummy error".to_string(),
        cause: "bad stuff".to_string(),
    });
    let mut server_manager = ServerManager::new(
        Some("0.0.0.0".to_string()),
        8080,
        "http://dummy.test/".to_string(),
        false,
        10_000,
    );

    let (status, response) = process_settings(request_body, &mut server_manager);

    assert_eq!(400, status);
    assert_eq!(r#"{"message":"Error decoding JSON string: bad stuff"}"#, response);
}

#[test]
fn process_settings_fail_invalid_settings_request() {
    let request_body = Ok(Some(SettingsRequest::new("INVALID")));
    let mut server_manager = ServerManager::new(
        Some("0.0.0.0".to_string()),
        8080,
        "http://dummy.test/".to_string(),
        false,
        10_000,
    );

    let (status, response) = process_settings(request_body, &mut server_manager);

    assert_eq!(400, status);
    assert_eq!(
        r#"{"message":"Validation Error: Invalid 'state', must be one of (run|drain)"}"#,
        response
    );
}

#[test]
fn process_settings_success() {
    let request_body = Ok(Some(SettingsRequest::new("drain")));
    let mut server_manager = ServerManager::new(
        Some("0.0.0.0".to_string()),
        8080,
        "http://dummy.test/".to_string(),
        false,
        10_000,
    );

    assert_eq!("run", server_manager.state);

    let (status, response) = process_settings(request_body, &mut server_manager);

    assert_eq!("drain", server_manager.state);
    assert_eq!(200, status);
    assert_eq!(r#"{"message":"Update acknowledged: [state: drain]"}"#, response);
}

#[test]
fn process_submission_fail_no_body() {
    let request_body = Ok(None);
    let server_manager = ServerManager::new(
        Some("0.0.0.0".to_string()),
        8080,
        "http://dummy.test/".to_string(),
        false,
        10_000,
    );
    let persistence = MemoryStore::new("test", "com.test/namespace");
    let command_store = FakeCommandStore;
    let (tx, _rx) = mpsc::channel();

    let (status, response, dispatched) = process_submission(
        request_body,
        &server_manager,
        &persistence,
        &command_store,
        &tx,
        queue_is_not_full,
    );

    assert_eq!(400, status);
    assert_eq!(r#"{"message":"Error: No body found in POST request"}"#, response);
    assert!(dispatched.is_none());
}

#[test]
fn process_submission_fail_invalid_json() {
    let request_body = Err(BodyError {
        detail: "dummy error".to_string(),
        cause: "bad stuff".to_string(),
    });
    let server_manager = ServerManager::new(
        Some("0.0.0.0".to_string()),
        8080,
        "http://dummy.test/".to_string(),
        false,
        10_000,
    );
    let persistence = MemoryStore::new("test", "com.test/namespace");
    let command_store = FakeCommandStore;
    let (tx, _rx) = mpsc::channel();

    let (status, response, dispatched) = process_submission(
        request_body,
        &server_manager,
        &persistence,
        &command_store,
        &tx,
        queue_is_not_full,
    );

    assert_eq!(400, status);
    assert_eq!(r#"{"message":"Error decoding JSON string: bad stuff"}"#, response);
    assert!(dispatched.is_none());
}

#[test]
fn process_submission_fail_server_in_drain_state() {
    let request_body = Ok(Some(JobRequest::new(
        "1",
        "dummy",
        "/tmp/somewhere",
        vec!["--first-arg".to_string()],
    )));
    let mut server_manager = ServerManager::new(
        Some("0.0.0.0".to_string()),
        8080,
        "http://dummy.test/".to_string(),
        false,
        10_000,
    );
    let persistence = MemoryStore::new("test", "com.test/namespace");
    let command_store = FakeCommandStore;
    let (tx, _rx) = mpsc::channel();

    server_manager.state = "drain".to_string();
    let (status, response, dispatched) = process_submission(
        request_body,
        &server_manager,
        &persistence,
        &command_store,
        &tx,
        queue_is_not_full,
    );

    assert_eq!(400, status);
    assert_eq!(r#"{"message":"Server in [drain] state - cannot submit job"}"#, response);
    assert!(dispatched.is_none());
}

#[test]
fn process_submission_fail_invalid_job_request() {
    let request_body = Ok(Some(JobRequest::new(
        "1",
        "",
        "/tmp/somewhere",
        vec!["--first-arg".to_string()],
    )));
    let server_manager = ServerManager::new(
        Some("0.0.0.0".to_string()),
        8080,
        "http://dummy.test/".to_string(),
        false,
        10_000,
    );
    let persistence = MemoryStore::new("test", "com.test/namespace");
    let command_store = FakeCommandStore;
    let (tx, _rx) = mpsc::channel();

    let (status, response, dispatched) = process_submission(
        request_body,
        &server_manager,
        &persistence,
        &command_store,
        &tx,
        queue_is_not_full,
    );

    assert_eq!(400, status);
    assert_eq!(
        r#"{"message":"Validation Error: No valid value found: field 'jobName' cannot be empty"}"#,
        response
    );
    assert!(dispatched.is_none());
}

#[test]
fn process_valid_submission_fail_job_already_run() {
    let server_manager = ServerManager::new(
        Some("0.0.0.0".to_string()),
        8080,
        "http://dummy.test/".to_string(),
        false,
        10_000,
    );
    let mut persistence = MemoryStore::new("test_submission_fail", "com.test/namespace");
    let request = JobRequest::new("dummy_id_1", "dummy", "/tmp", vec!["--no-colour".to_string()]);
    let written = factotum_server::persistence::set_entry(
        &mut persistence,
        "dummy_id_1",
        &request,
        &JobState::QUEUED,
        &JobOutcome::WAITING,
    );
    assert!(written);
    assert!(persistence
        .entries
        .iter()
        .any(|(k, _)| k == "com.test/namespace/dummy_id_1"));
    let noop_command = NoopCommandMock;
    let request_body = Ok(Some(request));
    let (tx, _rx) = mpsc::channel();

    let (status, response, dispatched) = process_valid_submission(
        request_body,
        &server_manager,
        &persistence,
        &noop_command,
        &tx,
        validate_ok_mock,
        queue_is_not_full,
    );

    assert_eq!(400, status);
    assert_eq!(r#"{"message":"Job is already being processed"}"#, response);
    assert!(dispatched.is_none());
}

#[test]
fn process_valid_submission_fail_queue_is_full() {
    let server_manager = ServerManager::new(
        Some("0.0.0.0".to_string()),
        8080,
        "http://dummy.test/".to_string(),
        false,
        10_000,
    );
    let persistence = MemoryStore::new("test_submission_fail", "com.test/namespace");
    let request = JobRequest::new("dummy_id_1", "dummy", "/tmp", vec!["--no-colour".to_string()]);
    let noop_command = NoopCommandMock;
    let request_body = Ok(Some(request));
    let (tx, _rx) = mpsc::channel();

    let (status, response, dispatched) = process_valid_submission(
        request_body,
        &server_manager,
        &persistence,
        &noop_command,
        &tx,
        validate_ok_mock,
        queue_is_full,
    );

    assert_eq!(400, status);
    assert_eq!(r#"{"message":"Queue is full, cannot add job"}"#, response);
    assert!(dispatched.is_none());
}

#[test]
fn process_valid_submission_success() {
    let server_manager =
        ServerManager::new(Some("0.0.0.0".to_string()), 8080, String::new(), false, 10_000);
    let persistence = MemoryStore::new("test_submission_success", "com.test/namespace");
    let request = JobRequest::new("dummy_id_1", "dummy", "/tmp", vec!["--no-colour".to_string()]);
    let noop_command = NoopCommandMock;
    let request_body = Ok(Some(request.clone()));
    let (tx, rx) = mpsc::channel();

    let (status, response, dispatched) = process_valid_submission(
        request_body,
        &server_manager,
        &persistence,
        &noop_command,
        &tx,
        validate_ok_mock,
        queue_is_not_full,
    );

    if let Some(validated) = dispatched {
        tx.send(Dispatch::NewRequest(validated)).unwrap();
    }
    let result = rx.recv_timeout(Duration::from_millis(1000)).unwrap();
    assert_eq!(Dispatch::NewRequest(request), result);

    assert_eq!(200, status);
    assert_eq!(r#"{"message":"SUBMITTING JOB REQ jobId:[dummy_id_1]"}"#, response);
}
