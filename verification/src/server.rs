//! Server-side data types: the job request record and the server manager.

use vstd::prelude::*;
use crate::codec::{chars_to_string, dec_digits, push_str_chars, push_u64, str_eq};
use crate::command::Execution;

verus! {

/// A client-submitted description of a job to run.
///
/// `start_time` is the admission timestamp in milliseconds since the Unix
/// epoch; `end_time` and `exec_output` stay unset until the job completes
/// or fails.
#[derive(Clone, Debug)]
pub struct JobRequest {
    pub job_id: String,
    pub job_name: String,
    pub factfile_path: String,
    pub factfile_args: Vec<String>,
    pub start_time: u64,
    pub end_time: Option<u64>,
    pub exec_output: Option<String>,
}

/// Mathematical image of a `JobRequest`.
#[verifier::ext_equal]
pub struct JobRequestView {
    pub job_id: Seq<char>,
    pub job_name: Seq<char>,
    pub factfile_path: Seq<char>,
    pub factfile_args: Seq<Seq<char>>,
    pub start_time: u64,
    pub end_time: Option<u64>,
    pub exec_output: Option<Seq<char>>,
}

impl View for JobRequest {
    type V = JobRequestView;

    open spec fn view(&self) -> JobRequestView {
        JobRequestView {
            job_id: self.job_id@,
            job_name: self.job_name@,
            factfile_path: self.factfile_path@,
            factfile_args: self.factfile_args.deep_view(),
            start_time: self.start_time,
            end_time: self.end_time,
            exec_output: match self.exec_output {
                Some(ref s) => Some(s@),
                None => None,
            },
        }
    }
}

/// Whether two string vectors hold the same strings in the same order.
pub fn string_vecs_eq(a: &Vec<String>, b: &Vec<String>) -> (r: bool)
    ensures
        r == (a.deep_view() == b.deep_view()),
{
    if a.len() != b.len() {
        proof {
            assert(a.deep_view().len() != b.deep_view().len());
        }
        return false;
    }
    let n: usize = a.len();
    let mut k: usize = 0;
    while k < n
        invariant
            n == a@.len(),
            n == b@.len(),
            k <= n,
            forall|i: int| 0 <= i < k as int ==> a.deep_view()[i] == b.deep_view()[i],
        decreases n - k,
    {
        if !(a[k] == b[k]) {
            proof {
                assert(a.deep_view()[k as int] != b.deep_view()[k as int]);
            }
            return false;
        }
        k = k + 1;
    }
    proof {
        assert(a.deep_view() =~= b.deep_view());
    }
    true
}

fn opt_u64_eq(a: &Option<u64>, b: &Option<u64>) -> (r: bool)
    ensures
        r == (*a == *b),
{
    match (a, b) {
        (Some(x), Some(y)) => *x == *y,
        (None, None) => true,
        _ => false,
    }
}

fn opt_string_eq(a: &Option<String>, b: &Option<String>) -> (r: bool)
    ensures
        r == (match (a, b) {
            (Some(x), Some(y)) => x@ == y@,
            (None, None) => true,
            _ => false,
        }),
{
    match (a, b) {
        (Some(x), Some(y)) => *x == *y,
        (None, None) => true,
        _ => false,
    }
}

impl PartialEq for JobRequest {
    fn eq(&self, other: &JobRequest) -> (r: bool) {
        if !(self.job_id == other.job_id) {
            return false;
        }
        if !(self.job_name == other.job_name) {
            return false;
        }
        if !(self.factfile_path == other.factfile_path) {
            return false;
        }
        if !string_vecs_eq(&self.factfile_args, &other.factfile_args) {
            return false;
        }
        if self.start_time != other.start_time {
            return false;
        }
        if !opt_u64_eq(&self.end_time, &other.end_time) {
            return false;
        }
        if !opt_string_eq(&self.exec_output, &other.exec_output) {
            return false;
        }
        proof {
            assert(self@.job_id == other@.job_id);
            assert(self@.job_name == other@.job_name);
            assert(self@.factfile_path == other@.factfile_path);
            assert(self@.factfile_args == other@.factfile_args);
            assert(self@.start_time == other@.start_time);
            assert(self@.end_time == other@.end_time);
            assert(self@.exec_output == other@.exec_output);
            assert(self@ =~= other@);
        }
        true
    }
}

impl vstd::std_specs::cmp::PartialEqSpecImpl for JobRequest {
    open spec fn obeys_eq_spec() -> bool {
        true
    }

    open spec fn eq_spec(&self, other: &JobRequest) -> bool {
        self@ == other@
    }
}

/// Copies a vector of strings.
pub fn clone_strings(v: &Vec<String>) -> (r: Vec<String>)
    ensures
        r.deep_view() == v.deep_view(),
{
    let mut r: Vec<String> = Vec::new();
    let mut k: usize = 0;
    proof {
        assert(r.deep_view() =~= v.deep_view().subrange(0, 0));
    }
    while k < v.len()
        invariant
            k <= v@.len(),
            r@.len() == k,
            r.deep_view() == v.deep_view().subrange(0, k as int),
        decreases v@.len() - k,
    {
        let ghost prev_dv = r.deep_view();
        let s: String = v[k].clone();
        r.push(s);
        k = k + 1;
        proof {
            assert forall|i: int| 0 <= i < k as int implies r.deep_view()[i]
                == v.deep_view()[i] by {
                if i < k as int - 1 {
                    assert(prev_dv[i] == v.deep_view().subrange(0, k as int - 1)[i]);
                } else {
                    assert(r@[i] == s);
                }
            }
            assert(r.deep_view() =~= v.deep_view().subrange(0, k as int));
        }
    }
    proof {
        assert(v.deep_view().subrange(0, v.deep_view().len() as int) =~= v.deep_view());
    }
    r
}

impl JobRequest {
    /// Copies the request; the copy has the same view.
    pub fn duplicate(&self) -> (r: JobRequest)
        ensures
            r@ == self@,
    {
        let r = JobRequest {
            job_id: self.job_id.clone(),
            job_name: self.job_name.clone(),
            factfile_path: self.factfile_path.clone(),
            factfile_args: clone_strings(&self.factfile_args),
            start_time: self.start_time,
            end_time: self.end_time,
            exec_output: match &self.exec_output {
                Some(s) => Some(s.clone()),
                None => None,
            },
        };
        proof {
            assert(r@ =~= self@);
        }
        r
    }

    /// A fresh request with the admission time stamped now; completion
    /// fields start unset.
    pub fn new(job_id: &str, job_name: &str, factfile_path: &str, factfile_args: Vec<String>)
        -> (r: JobRequest)
        ensures
            r.job_id@ == job_id@,
            r.job_name@ == job_name@,
            r.factfile_path@ == factfile_path@,
            r.factfile_args == factfile_args,
            r.end_time is None,
            r.exec_output is None,
    {
        JobRequest {
            job_id: job_id.to_owned(),
            job_name: job_name.to_owned(),
            factfile_path: factfile_path.to_owned(),
            factfile_args,
            start_time: current_epoch_millis(),
            end_time: None,
            exec_output: None,
        }
    }

    /// Checks the request: the identifier, name and factfile path must be
    /// non-empty, and the job-running command must resolve.  A valid request
    /// passes through unchanged.
    pub fn validate<U: Execution>(request: JobRequest, command_store: &U) -> (r: Result<
        JobRequest,
        ValidationError,
    >)
        ensures
            request.job_id@.len() == 0 ==> (r matches Err(e) && e.message@ == empty_field_message(
                "jobId"@,
            )),
            request.job_id@.len() > 0 && request.job_name@.len() == 0 ==> (r matches Err(e)
                && e.message@ == empty_field_message("jobName"@)),
            request.job_id@.len() > 0 && request.job_name@.len() > 0
                && request.factfile_path@.len() == 0 ==> (r matches Err(e) && e.message@
                == empty_field_message("factfilePath"@)),
            request.job_id@.len() > 0 && request.job_name@.len() > 0
                && request.factfile_path@.len() > 0 ==> {
                &&& command_store.commands().contains_key("factotum"@) ==> r == Ok::<
                    JobRequest,
                    ValidationError,
                >(request)
                &&& !command_store.commands().contains_key("factotum"@) ==> r is Err
            },
    {
        let lookup: Result<String, String> = command_store.get_command(
            crate::command::factotum_command_name(),
        );
        JobRequest::validate_with_lookup(request, &lookup)
    }

    /// The same check as [`JobRequest::validate`], with the command
    /// resolution already made: `lookup` is what resolving the job-running
    /// command returned.
    pub fn validate_with_lookup(request: JobRequest, lookup: &Result<String, String>) -> (r:
        Result<JobRequest, ValidationError>)
        ensures
            request.job_id@.len() == 0 ==> (r matches Err(e) && e.message@ == empty_field_message(
                "jobId"@,
            )),
            request.job_id@.len() > 0 && request.job_name@.len() == 0 ==> (r matches Err(e)
                && e.message@ == empty_field_message("jobName"@)),
            request.job_id@.len() > 0 && request.job_name@.len() > 0
                && request.factfile_path@.len() == 0 ==> (r matches Err(e) && e.message@
                == empty_field_message("factfilePath"@)),
            request.job_id@.len() > 0 && request.job_name@.len() > 0
                && request.factfile_path@.len() > 0 ==> {
                &&& lookup matches Ok(p) ==> r == Ok::<JobRequest, ValidationError>(request)
                &&& lookup matches Err(c) ==> (r matches Err(e) && e.message@
                    == "Validation Error: "@ + c@)
            },
    {
        if request.job_id.as_str().unicode_len() == 0 {
            return Err(ValidationError::empty_field("jobId"));
        }
        if request.job_name.as_str().unicode_len() == 0 {
            return Err(ValidationError::empty_field("jobName"));
        }
        if request.factfile_path.as_str().unicode_len() == 0 {
            return Err(ValidationError::empty_field("factfilePath"));
        }
        match lookup {
            Ok(_) => Ok(request),
            Err(e) => Err(ValidationError::from_cause(e.as_str())),
        }
    }

    /// Appends the server-wide runner flags to the request's arguments: the
    /// webhook target with its output cap when a webhook is set, and the
    /// colour switch when colour is off.  Nothing else changes.
    pub fn append_job_args(server: &ServerManager, request: &mut JobRequest)
        ensures
            final(request).factfile_args.deep_view() == old(
                request,
            ).factfile_args.deep_view() + server_extra_args(*server),
            final(request).job_id == old(request).job_id,
            final(request).job_name == old(request).job_name,
            final(request).factfile_path == old(request).factfile_path,
            final(request).start_time == old(request).start_time,
            final(request).end_time == old(request).end_time,
            final(request).exec_output == old(request).exec_output,
    {
        let ghost base = request.factfile_args.deep_view();
        if server.webhook_uri.as_str().unicode_len() > 0 {
            push_arg(&mut request.factfile_args, "--webhook".to_owned());
            push_arg(&mut request.factfile_args, server.webhook_uri.clone());
            push_arg(&mut request.factfile_args, "--max-stdouterr-size".to_owned());
            push_arg(&mut request.factfile_args, crate::codec::u64_string(
                server.max_stdouterr_size as u64,
            ));
        }
        if server.no_colour {
            push_arg(&mut request.factfile_args, "--no-colour".to_owned());
        }
        proof {
            assert(request.factfile_args.deep_view() =~= base + server_extra_args(*server));
        }
    }
}

/// The runner flags a server configuration adds to every admitted request.
pub open spec fn server_extra_args(s: ServerManager) -> Seq<Seq<char>> {
    (if s.webhook_uri@.len() > 0 {
        seq![
            "--webhook"@,
            s.webhook_uri@,
            "--max-stdouterr-size"@,
            dec_digits(s.max_stdouterr_size as nat),
        ]
    } else {
        Seq::empty()
    }) + (if s.no_colour {
        seq!["--no-colour"@]
    } else {
        Seq::empty()
    })
}

fn push_arg(args: &mut Vec<String>, arg: String)
    ensures
        final(args).deep_view() == old(args).deep_view().push(arg@),
{
    let ghost prev = args.deep_view();
    args.push(arg);
    proof {
        assert forall|i: int| 0 <= i < args.deep_view().len() implies args.deep_view()[i]
            == prev.push(arg@)[i] by {
            if i < prev.len() {
                assert(args@[i] == old(args)@[i]);
            }
        }
        assert(args.deep_view() =~= prev.push(arg@));
    }
}

/// The message carried by a refused settings update or job submission.
#[derive(Clone, Debug, PartialEq)]
pub struct ValidationError {
    pub message: String,
}

/// The message refusing an empty required field.
pub open spec fn empty_field_message(field: Seq<char>) -> Seq<char> {
    "Validation Error: No valid value found: field '"@ + field + "' cannot be empty"@
}

impl ValidationError {
    /// The error refusing an empty required field.
    pub fn empty_field(field: &str) -> (r: ValidationError)
        ensures
            r.message@ == empty_field_message(field@),
    {
        let mut out: Vec<char> = Vec::new();
        push_str_chars(&mut out, "Validation Error: No valid value found: field '");
        push_str_chars(&mut out, field);
        push_str_chars(&mut out, "' cannot be empty");
        proof {
            assert(out@ =~= empty_field_message(field@));
        }
        ValidationError { message: chars_to_string(&out) }
    }

    /// The error wrapping an underlying cause.
    pub fn from_cause(cause: &str) -> (r: ValidationError)
        ensures
            r.message@ == "Validation Error: "@ + cause@,
    {
        let mut out: Vec<char> = Vec::new();
        push_str_chars(&mut out, "Validation Error: ");
        push_str_chars(&mut out, cause);
        proof {
            assert(out@ =~= "Validation Error: "@ + cause@);
        }
        ValidationError { message: chars_to_string(&out) }
    }
}

/// A request to update the server's run state.
#[derive(Clone, Debug, PartialEq)]
pub struct SettingsRequest {
    pub state: String,
}

impl SettingsRequest {
    /// A settings request asking for `state`.
    pub fn new(state: &str) -> (r: SettingsRequest)
        ensures
            r.state@ == state@,
    {
        SettingsRequest { state: state.to_owned() }
    }

    /// Accepts exactly the states `run` and `drain`.
    pub fn validate(settings: SettingsRequest) -> (r: Result<SettingsRequest, ValidationError>)
        ensures
            (settings.state@ == "run"@ || settings.state@ == "drain"@) <==> r is Ok,
            r matches Ok(v) ==> v == settings,
            r matches Err(e) ==> e.message@
                == "Validation Error: Invalid 'state', must be one of (run|drain)"@,
    {
        if str_eq(settings.state.as_str(), "run") || str_eq(settings.state.as_str(), "drain") {
            Ok(settings)
        } else {
            Err(
                ValidationError {
                    message: "Validation Error: Invalid 'state', must be one of (run|drain)".to_owned(),
                },
            )
        }
    }
}

// ---------------------------------------------------------------------------
// The server manager
// ---------------------------------------------------------------------------

/// Relies on chrono's `Utc::now`: the clock decides the result, so nothing
/// is promised of it.
#[verifier::external_body]
fn now_timestamp_millis() -> i64 {
    chrono::Utc::now().timestamp_millis()
}

/// The current time in milliseconds since the Unix epoch, clamped below at
/// zero.
pub fn current_epoch_millis() -> u64 {
    let t: i64 = now_timestamp_millis();
    if t < 0 {
        0
    } else {
        t as u64
    }
}

/// What chrono renders a millisecond timestamp as; left uninterpreted: the
/// rendering depends on the timestamp alone.
pub uninterp spec fn utc_string_of(ms: u64) -> Seq<char>;

/// Relies on chrono's `DateTime::from_timestamp_millis` and `to_rfc3339`:
/// together they render a timestamp as text depending on the timestamp
/// alone; a timestamp out of chrono's range renders as the empty string.
#[verifier::external_body]
fn format_utc_millis(ms: u64) -> (r: String)
    ensures
        r@ == utc_string_of(ms),
{
    match chrono::DateTime::<chrono::Utc>::from_timestamp_millis(ms as i64) {
        Some(t) => t.to_rfc3339(),
        None => String::new(),
    }
}

/// The uptime rendering for a server started at `start` observed at `now`,
/// both in milliseconds.
pub open spec fn uptime_text(start: u64, now: u64) -> Seq<char> {
    let e = if now < start {
        0
    } else {
        ((now - start) / 1000) as u64
    };
    dec_digits((e / 86400) as nat) + " days, "@ + dec_digits((((e / 3600) % 24)) as nat)
        + " hours, "@ + dec_digits(((e / 60) % 60) as nat) + " minutes, "@ + dec_digits(
        (e % 60) as nat,
    ) + " seconds"@
}

/// The server-wide configuration and run state.
#[derive(Debug)]
pub struct ServerManager {
    pub ip: String,
    pub port: u32,
    pub state: String,
    pub webhook_uri: String,
    pub no_colour: bool,
    pub max_stdouterr_size: usize,
    pub start_time: u64,
}

impl ServerManager {
    /// A server in the `run` state, started now, bound to the given address.
    pub fn new(
        ip: Option<String>,
        port: u32,
        webhook_uri: String,
        no_colour: bool,
        max_stdouterr_size: usize,
    ) -> (r: ServerManager)
        ensures
            r.ip@ == (match ip {
                Some(ref s) => s@,
                None => "0.0.0.0"@,
            }),
            r.port == port,
            r.state@ == "run"@,
            r.webhook_uri == webhook_uri,
            r.no_colour == no_colour,
            r.max_stdouterr_size == max_stdouterr_size,
    {
        ServerManager {
            ip: match ip {
                Some(s) => s,
                None => "0.0.0.0".to_owned(),
            },
            port,
            state: "run".to_owned(),
            webhook_uri,
            no_colour,
            max_stdouterr_size,
            start_time: current_epoch_millis(),
        }
    }

    /// Whether the server accepts new submissions.
    pub fn is_running(&self) -> (r: bool)
        ensures
            r == (self.state@ == "run"@),
    {
        str_eq(self.state.as_str(), "run")
    }

    /// The start time rendered as text.
    pub fn get_start_time(&self) -> (r: String)
        ensures
            r@ == utc_string_of(self.start_time),
    {
        format_utc_millis(self.start_time)
    }

    /// The time since start, rendered against the clock's current reading.
    pub fn get_uptime(&self) -> (r: String)
        ensures
            exists|now_ms: u64| r@ == #[trigger] uptime_text(self.start_time, now_ms),
    {
        let now: u64 = current_epoch_millis();
        let e: u64 = if now < self.start_time {
            0
        } else {
            (now - self.start_time) / 1000
        };
        let mut out: Vec<char> = Vec::new();
        push_u64(&mut out, e / 86400);
        push_str_chars(&mut out, " days, ");
        push_u64(&mut out, (e / 3600) % 24);
        push_str_chars(&mut out, " hours, ");
        push_u64(&mut out, (e / 60) % 60);
        push_str_chars(&mut out, " minutes, ");
        push_u64(&mut out, e % 60);
        push_str_chars(&mut out, " seconds");
        proof {
            assert(out@ =~= uptime_text(self.start_time, now));
        }
        chars_to_string(&out)
    }
}

} // verus!
