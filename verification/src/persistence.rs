//! The persisted job record: its state machine, its text encoding, and the
//! proof that decoding inverts encoding.

use vstd::prelude::*;
use crate::codec::{
    chars_eq_lit, chars_to_string, dec_digits, is_digit, lemma_dec_digits_head,
    lemma_parse_lit_inv, lemma_parse_string_consumes, lemma_parse_string_inv, lemma_parse_u64_inv,
    parse_lit, parse_string, parse_u64, push_str_chars, push_strlit, push_u64, spec_parse_lit,
    spec_parse_string, spec_parse_u64, strlit,
};
use crate::server::JobRequest;
use crate::server::JobRequestView;

verus! {

/// Lifecycle state of a job as recorded in the store.
#[derive(Clone, Copy, Debug, PartialEq, Eq, Structural)]
pub enum JobState {
    QUEUED,
    WORKING,
    DONE,
}

/// Outcome of a job as recorded in the store.
#[derive(Clone, Copy, Debug, PartialEq, Eq, Structural)]
pub enum JobOutcome {
    WAITING,
    RUNNING,
    SUCCEEDED,
    FAILED,
}

/// Position of a state in the lifecycle order.
pub open spec fn state_rank(s: JobState) -> int {
    match s {
        JobState::QUEUED => 0,
        JobState::WORKING => 1,
        JobState::DONE => 2,
    }
}

/// The only transitions the dispatcher protocol ever writes.
pub open spec fn valid_transition(a: JobState, b: JobState) -> bool {
    ||| (a == JobState::QUEUED && b == JobState::WORKING)
    ||| (a == JobState::WORKING && b == JobState::DONE)
}

/// Every allowed transition moves strictly forward in the lifecycle order:
/// no write ever takes a job's state backwards.
pub proof fn lemma_transitions_move_forward(a: JobState, b: JobState)
    requires
        valid_transition(a, b),
    ensures
        state_rank(a) < state_rank(b),
{
}

// ---------------------------------------------------------------------------
// The stored record
// ---------------------------------------------------------------------------

/// The value stored for one job: the request, its latest state and outcome,
/// and the identifier of the server that wrote the record.
#[derive(Clone, Debug, PartialEq)]
pub struct JobEntry {
    pub job_request: JobRequest,
    pub state: JobState,
    pub outcome: JobOutcome,
    pub server_id: String,
}

/// Mathematical image of a `JobEntry`.
#[verifier::ext_equal]
pub struct JobEntryView {
    pub job_request: JobRequestView,
    pub state: JobState,
    pub outcome: JobOutcome,
    pub server_id: Seq<char>,
}

impl View for JobEntry {
    type V = JobEntryView;

    open spec fn view(&self) -> JobEntryView {
        JobEntryView {
            job_request: self.job_request@,
            state: self.state,
            outcome: self.outcome,
            server_id: self.server_id@,
        }
    }
}

impl JobEntry {
    /// Builds the record stored for `job_request` at the given point of its
    /// lifecycle.
    pub fn new(state: &JobState, job_request: &JobRequest, server_id: &str, outcome: &JobOutcome)
        -> (r: JobEntry)
        ensures
            r@ == (JobEntryView {
                job_request: job_request@,
                state: *state,
                outcome: *outcome,
                server_id: server_id@,
            }),
    {
        let r = JobEntry {
            job_request: job_request.duplicate(),
            state: *state,
            outcome: *outcome,
            server_id: server_id.to_owned(),
        };
        proof {
            assert(r@ =~= (JobEntryView {
                job_request: job_request@,
                state: *state,
                outcome: *outcome,
                server_id: server_id@,
            }));
        }
        r
    }
}

// ---------------------------------------------------------------------------
// State and outcome names
// ---------------------------------------------------------------------------

/// Name under which a state is written in the record.
pub open spec fn state_name(s: JobState) -> Seq<char> {
    match s {
        JobState::QUEUED => "QUEUED"@,
        JobState::WORKING => "WORKING"@,
        JobState::DONE => "DONE"@,
    }
}

/// State named by `n`, if any.
pub open spec fn state_of_name(n: Seq<char>) -> Option<JobState> {
    if n == state_name(JobState::QUEUED) {
        Some(JobState::QUEUED)
    } else if n == state_name(JobState::WORKING) {
        Some(JobState::WORKING)
    } else if n == state_name(JobState::DONE) {
        Some(JobState::DONE)
    } else {
        None
    }
}

/// Name under which an outcome is written in the record.
pub open spec fn outcome_name(o: JobOutcome) -> Seq<char> {
    match o {
        JobOutcome::WAITING => "WAITING"@,
        JobOutcome::RUNNING => "RUNNING"@,
        JobOutcome::SUCCEEDED => "SUCCEEDED"@,
        JobOutcome::FAILED => "FAILED"@,
    }
}

/// Outcome named by `n`, if any.
pub open spec fn outcome_of_name(n: Seq<char>) -> Option<JobOutcome> {
    if n == outcome_name(JobOutcome::WAITING) {
        Some(JobOutcome::WAITING)
    } else if n == outcome_name(JobOutcome::RUNNING) {
        Some(JobOutcome::RUNNING)
    } else if n == outcome_name(JobOutcome::SUCCEEDED) {
        Some(JobOutcome::SUCCEEDED)
    } else if n == outcome_name(JobOutcome::FAILED) {
        Some(JobOutcome::FAILED)
    } else {
        None
    }
}

proof fn lemma_state_name_inv(s: JobState)
    ensures
        state_of_name(state_name(s)) == Some(s),
{
    reveal_strlit("QUEUED");
    reveal_strlit("WORKING");
    reveal_strlit("DONE");
    assert("QUEUED"@.len() == 6);
    assert("WORKING"@.len() == 7);
    assert("DONE"@.len() == 4);
}

proof fn lemma_outcome_name_inv(o: JobOutcome)
    ensures
        outcome_of_name(outcome_name(o)) == Some(o),
{
    reveal_strlit("WAITING");
    reveal_strlit("RUNNING");
    reveal_strlit("SUCCEEDED");
    reveal_strlit("FAILED");
    assert("WAITING"@.len() == 7);
    assert("RUNNING"@.len() == 7);
    assert("SUCCEEDED"@.len() == 9);
    assert("FAILED"@.len() == 6);
    assert("WAITING"@[0] == 'W');
    assert("RUNNING"@[0] == 'R');
}

/// The written name of a state.
pub fn state_name_str(s: &JobState) -> (r: &'static str)
    ensures
        r@ == state_name(*s),
{
    match s {
        JobState::QUEUED => "QUEUED",
        JobState::WORKING => "WORKING",
        JobState::DONE => "DONE",
    }
}

fn outcome_str(o: &JobOutcome) -> (r: &'static str)
    ensures
        r@ == outcome_name(*o),
{
    match o {
        JobOutcome::WAITING => "WAITING",
        JobOutcome::RUNNING => "RUNNING",
        JobOutcome::SUCCEEDED => "SUCCEEDED",
        JobOutcome::FAILED => "FAILED",
    }
}

fn state_of_chars(v: &Vec<char>) -> (r: Option<JobState>)
    ensures
        r == state_of_name(v@),
{
    if chars_eq_lit(v, "QUEUED") {
        Some(JobState::QUEUED)
    } else if chars_eq_lit(v, "WORKING") {
        Some(JobState::WORKING)
    } else if chars_eq_lit(v, "DONE") {
        Some(JobState::DONE)
    } else {
        None
    }
}

fn outcome_of_chars(v: &Vec<char>) -> (r: Option<JobOutcome>)
    ensures
        r == outcome_of_name(v@),
{
    if chars_eq_lit(v, "WAITING") {
        Some(JobOutcome::WAITING)
    } else if chars_eq_lit(v, "RUNNING") {
        Some(JobOutcome::RUNNING)
    } else if chars_eq_lit(v, "SUCCEEDED") {
        Some(JobOutcome::SUCCEEDED)
    } else if chars_eq_lit(v, "FAILED") {
        Some(JobOutcome::FAILED)
    } else {
        None
    }
}

// ---------------------------------------------------------------------------
// Optional values
// ---------------------------------------------------------------------------

/// Encoding of an optional number: `null`, or its decimal digits.
pub open spec fn spec_opt_num(o: Option<u64>) -> Seq<char> {
    match o {
        None => "null"@,
        Some(n) => dec_digits(n as nat),
    }
}

/// Consumes an optional number from the front of `s`.
pub open spec fn spec_parse_opt_num(s: Seq<char>) -> Option<(Option<u64>, Seq<char>)> {
    if s.len() > 0 && s[0] == 'n' {
        match spec_parse_lit(s, "null"@) {
            Some(rest) => Some((None, rest)),
            None => None,
        }
    } else {
        match spec_parse_u64(s) {
            Some((n, rest)) => Some((Some(n), rest)),
            None => None,
        }
    }
}

proof fn lemma_parse_opt_num_inv(o: Option<u64>, rest: Seq<char>)
    requires
        rest.len() > 0 && !is_digit(rest[0]),
    ensures
        spec_parse_opt_num(spec_opt_num(o) + rest) == Some((o, rest)),
{
    reveal_strlit("null");
    match o {
        None => {
            let s = "null"@ + rest;
            assert(s[0] == 'n');
            lemma_parse_lit_inv("null"@, rest);
        },
        Some(n) => {
            let s = dec_digits(n as nat) + rest;
            lemma_dec_digits_head(n as nat);
            assert(s[0] == dec_digits(n as nat)[0]);
            assert(s[0] != 'n');
            lemma_parse_u64_inv(n, rest);
        },
    }
}

/// Encoding of an optional string: `null`, or a quoted string value.
pub open spec fn spec_opt_str(o: Option<Seq<char>>) -> Seq<char> {
    match o {
        None => "null"@,
        Some(s) => strlit(s),
    }
}

/// Consumes an optional string from the front of `s`.
pub open spec fn spec_parse_opt_str(s: Seq<char>) -> Option<(Option<Seq<char>>, Seq<char>)> {
    if s.len() > 0 && s[0] == '"' {
        match spec_parse_string(s) {
            Some((x, rest)) => Some((Some(x), rest)),
            None => None,
        }
    } else {
        match spec_parse_lit(s, "null"@) {
            Some(rest) => Some((None, rest)),
            None => None,
        }
    }
}

proof fn lemma_parse_opt_str_inv(o: Option<Seq<char>>, rest: Seq<char>)
    ensures
        spec_parse_opt_str(spec_opt_str(o) + rest) == Some((o, rest)),
{
    reveal_strlit("null");
    match o {
        None => {
            let s = "null"@ + rest;
            assert(s[0] == 'n');
            lemma_parse_lit_inv("null"@, rest);
        },
        Some(x) => {
            let s = strlit(x) + rest;
            assert(s[0] == '"');
            lemma_parse_string_inv(x, rest);
        },
    }
}

fn push_opt_num(out: &mut Vec<char>, o: &Option<u64>)
    ensures
        final(out)@ == old(out)@ + spec_opt_num(*o),
{
    match o {
        None => push_str_chars(out, "null"),
        Some(n) => push_u64(out, *n),
    }
}

fn push_opt_str(out: &mut Vec<char>, o: &Option<String>)
    ensures
        final(out)@ == old(out)@ + spec_opt_str(match *o {
            Some(ref s) => Some(s@),
            None => None,
        }),
{
    match o {
        None => push_str_chars(out, "null"),
        Some(s) => push_strlit(out, s.as_str()),
    }
}

fn parse_opt_num(v: &Vec<char>, i: usize) -> (r: Option<(Option<u64>, usize)>)
    requires
        i <= v@.len(),
    ensures
        match r {
            Some((o, j)) => {
                &&& i <= j <= v@.len()
                &&& spec_parse_opt_num(v@.skip(i as int)) == Some((o, v@.skip(j as int)))
            },
            None => spec_parse_opt_num(v@.skip(i as int)) is None,
        },
{
    if i < v.len() && v[i] == 'n' {
        match parse_lit(v, i, "null") {
            Some(j) => Some((None, j)),
            None => None,
        }
    } else {
        match parse_u64(v, i) {
            Some((n, j)) => Some((Some(n), j)),
            None => None,
        }
    }
}

fn parse_opt_str(v: &Vec<char>, i: usize) -> (r: Option<(Option<String>, usize)>)
    requires
        i <= v@.len(),
    ensures
        match r {
            Some((o, j)) => {
                &&& i <= j <= v@.len()
                &&& spec_parse_opt_str(v@.skip(i as int)) == Some((
                    match o {
                        Some(s) => Some(s@),
                        None => None,
                    },
                    v@.skip(j as int),
                ))
            },
            None => spec_parse_opt_str(v@.skip(i as int)) is None,
        },
{
    if i < v.len() && v[i] == '"' {
        match parse_string(v, i) {
            Some((content, j)) => {
                let s = chars_to_string(&content);
                Some((Some(s), j))
            },
            None => None,
        }
    } else {
        match parse_lit(v, i, "null") {
            Some(j) => Some((None, j)),
            None => None,
        }
    }
}

// ---------------------------------------------------------------------------
// Argument lists
// ---------------------------------------------------------------------------

/// Encoding of the items of an argument list after the first: each preceded
/// by a comma, then the closing bracket.
pub open spec fn encode_args_rest(items: Seq<Seq<char>>) -> Seq<char>
    decreases items.len(),
{
    if items.len() == 0 {
        seq![']']
    } else {
        seq![','] + strlit(items[0]) + encode_args_rest(items.skip(1))
    }
}

/// Encoding of an argument list: quoted strings between square brackets.
pub open spec fn spec_encode_args(items: Seq<Seq<char>>) -> Seq<char> {
    if items.len() == 0 {
        seq!['[', ']']
    } else {
        seq!['['] + strlit(items[0]) + encode_args_rest(items.skip(1))
    }
}

/// Consumes the items of an argument list after the first.
pub open spec fn spec_parse_args_rest(s: Seq<char>, acc: Seq<Seq<char>>) -> Option<
    (Seq<Seq<char>>, Seq<char>),
>
    decreases s.len(),
{
    if s.len() == 0 {
        None
    } else if s[0] == ']' {
        Some((acc, s.skip(1)))
    } else if s[0] == ',' {
        match spec_parse_string(s.skip(1)) {
            Some((x, r)) => if r.len() < s.len() {
                spec_parse_args_rest(r, acc.push(x))
            } else {
                None
            },
            None => None,
        }
    } else {
        None
    }
}

/// Consumes a whole argument list from the front of `s`.
pub open spec fn spec_parse_args(s: Seq<char>) -> Option<(Seq<Seq<char>>, Seq<char>)> {
    if s.len() == 0 || s[0] != '[' {
        None
    } else {
        let t = s.skip(1);
        if t.len() > 0 && t[0] == ']' {
            Some((Seq::empty(), t.skip(1)))
        } else {
            match spec_parse_string(t) {
                Some((x, r)) => if r.len() < s.len() {
                    spec_parse_args_rest(r, seq![x])
                } else {
                    None
                },
                None => None,
            }
        }
    }
}

proof fn lemma_parse_args_rest_inv(items: Seq<Seq<char>>, acc: Seq<Seq<char>>, rest: Seq<char>)
    ensures
        spec_parse_args_rest(encode_args_rest(items) + rest, acc) == Some((acc + items, rest)),
    decreases items.len(),
{
    let s = encode_args_rest(items) + rest;
    if items.len() == 0 {
        assert(s[0] == ']');
        assert(s.skip(1) =~= rest);
        assert(acc + items =~= acc);
    } else {
        let x = items[0];
        let tail = items.skip(1);
        assert(s =~= seq![','] + strlit(x) + (encode_args_rest(tail) + rest));
        assert(s[0] == ',');
        assert(strlit(x)[0] == '"');
        assert(s.skip(1) =~= strlit(x) + (encode_args_rest(tail) + rest));
        lemma_parse_string_inv(x, encode_args_rest(tail) + rest);
        let r = encode_args_rest(tail) + rest;
        assert(r.len() < s.len()) by {
            assert(s.len() == 1 + strlit(x).len() + r.len());
            assert(strlit(x).len() >= 2);
        }
        lemma_parse_args_rest_inv(tail, acc.push(x), rest);
        assert(acc.push(x) + tail =~= acc + items);
    }
}

/// Parsing an encoded argument list yields the original items and leaves
/// exactly the trailing input.
pub proof fn lemma_parse_args_inv(items: Seq<Seq<char>>, rest: Seq<char>)
    ensures
        spec_parse_args(spec_encode_args(items) + rest) == Some((items, rest)),
{
    let s = spec_encode_args(items) + rest;
    if items.len() == 0 {
        assert(s[0] == '[');
        assert(s.skip(1) =~= seq![']'] + rest);
        assert(s.skip(1)[0] == ']');
        assert(s.skip(1).skip(1) =~= rest);
        assert(Seq::<Seq<char>>::empty() =~= items);
    } else {
        let x = items[0];
        let tail = items.skip(1);
        assert(s =~= seq!['['] + (strlit(x) + (encode_args_rest(tail) + rest)));
        assert(s[0] == '[');
        let t = s.skip(1);
        assert(t =~= strlit(x) + (encode_args_rest(tail) + rest));
        assert(t[0] == '"');
        lemma_parse_string_inv(x, encode_args_rest(tail) + rest);
        let r = encode_args_rest(tail) + rest;
        assert(r.len() < s.len()) by {
            assert(s.len() == 1 + strlit(x).len() + r.len());
            assert(strlit(x).len() >= 2);
        }
        lemma_parse_args_rest_inv(tail, seq![x], rest);
        assert(seq![x] + tail =~= items);
    }
}

fn push_args_rest(out: &mut Vec<char>, args: &Vec<String>, k: usize)
    requires
        k <= args@.len(),
    ensures
        final(out)@ == old(out)@ + encode_args_rest(args.deep_view().skip(k as int)),
    decreases args@.len() - k,
{
    if k == args.len() {
        out.push(']');
        proof {
            assert(args.deep_view().skip(k as int) =~= Seq::<Seq<char>>::empty());
            assert(out@ =~= old(out)@ + encode_args_rest(args.deep_view().skip(k as int)));
        }
    } else {
        out.push(',');
        push_strlit(out, args[k].as_str());
        push_args_rest(out, args, k + 1);
        proof {
            let dv = args.deep_view();
            assert(dv.skip(k as int)[0] == dv[k as int]);
            assert(dv.skip(k as int).skip(1) =~= dv.skip(k as int + 1));
            assert(out@ =~= old(out)@ + encode_args_rest(dv.skip(k as int)));
        }
    }
}

/// Appends the encoding of an argument list to `out`.
fn push_args(out: &mut Vec<char>, args: &Vec<String>)
    ensures
        final(out)@ == old(out)@ + spec_encode_args(args.deep_view()),
{
    out.push('[');
    if args.len() == 0 {
        out.push(']');
        proof {
            assert(out@ =~= old(out)@ + spec_encode_args(args.deep_view()));
        }
    } else {
        push_strlit(out, args[0].as_str());
        push_args_rest(out, args, 1);
        proof {
            let dv = args.deep_view();
            assert(dv[0] == args[0]@);
            assert(out@ =~= old(out)@ + spec_encode_args(dv));
        }
    }
}

fn parse_args_rest(v: &Vec<char>, i: usize, acc: Vec<String>) -> (r: Option<(Vec<String>, usize)>)
    requires
        i <= v@.len(),
    ensures
        match r {
            Some((items, j)) => {
                &&& i <= j <= v@.len()
                &&& spec_parse_args_rest(v@.skip(i as int), acc.deep_view()) == Some((
                    items.deep_view(),
                    v@.skip(j as int),
                ))
            },
            None => spec_parse_args_rest(v@.skip(i as int), acc.deep_view()) is None,
        },
    decreases v@.len() - i,
{
    if i == v.len() {
        return None;
    }
    let c: char = v[i];
    if c == ']' {
        proof {
            assert(v@.skip(i as int).skip(1) =~= v@.skip(i as int + 1));
        }
        return Some((acc, i + 1));
    }
    if c != ',' {
        return None;
    }
    proof {
        assert(v@.skip(i as int).skip(1) =~= v@.skip(i as int + 1));
    }
    match parse_string(v, i + 1) {
        Some((content, j)) => {
            proof {
                lemma_parse_string_consumes(v@.skip(i as int + 1));
            }
            if j > i {
                let ghost acc_dv = acc.deep_view();
                let mut acc2 = acc;
                acc2.push(chars_to_string(&content));
                proof {
                    assert(acc2.deep_view() =~= acc_dv.push(content@));
                }
                parse_args_rest(v, j, acc2)
            } else {
                None
            }
        },
        None => None,
    }
}

/// Parses an argument list at position `i` of `v`.
fn parse_args(v: &Vec<char>, i: usize) -> (r: Option<(Vec<String>, usize)>)
    requires
        i <= v@.len(),
    ensures
        match r {
            Some((items, j)) => {
                &&& i <= j <= v@.len()
                &&& spec_parse_args(v@.skip(i as int)) == Some((
                    items.deep_view(),
                    v@.skip(j as int),
                ))
            },
            None => spec_parse_args(v@.skip(i as int)) is None,
        },
{
    if i == v.len() || v[i] != '[' {
        return None;
    }
    proof {
        assert(v@.skip(i as int).skip(1) =~= v@.skip(i as int + 1));
    }
    if i + 1 < v.len() && v[i + 1] == ']' {
        let items: Vec<String> = Vec::new();
        proof {
            assert(v@.skip(i as int + 1).skip(1) =~= v@.skip(i as int + 2));
            assert(items.deep_view() =~= Seq::<Seq<char>>::empty());
        }
        return Some((items, i + 2));
    }
    match parse_string(v, i + 1) {
        Some((content, j)) => {
            proof {
                lemma_parse_string_consumes(v@.skip(i as int + 1));
            }
            if j > i {
                let mut acc: Vec<String> = Vec::new();
                acc.push(chars_to_string(&content));
                proof {
                    assert(acc.deep_view() =~= seq![content@]);
                }
                parse_args_rest(v, j, acc)
            } else {
                None
            }
        },
        None => None,
    }
}

// ---------------------------------------------------------------------------
// The record encoding
// ---------------------------------------------------------------------------

/// Text encoding of a job request: a JSON object with one member per field.
pub open spec fn spec_encode_request(v: JobRequestView) -> Seq<char> {
    "{\"jobId\":"@ + strlit(v.job_id) + ",\"jobName\":"@ + strlit(v.job_name)
        + ",\"factfilePath\":"@ + strlit(v.factfile_path) + ",\"factfileArgs\":"@
        + spec_encode_args(v.factfile_args) + ",\"startTime\":"@ + dec_digits(
        v.start_time as nat,
    ) + ",\"endTime\":"@ + spec_opt_num(v.end_time) + ",\"execOutput\":"@ + spec_opt_str(
        v.exec_output,
    ) + "}"@
}

/// Text encoding of a stored job record.
pub open spec fn spec_encode_entry(v: JobEntryView) -> Seq<char> {
    "{\"jobRequest\":"@ + spec_encode_request(v.job_request) + ",\"state\":"@ + strlit(
        state_name(v.state),
    ) + ",\"outcome\":"@ + strlit(outcome_name(v.outcome)) + ",\"serverId\":"@ + strlit(
        v.server_id,
    ) + "}"@
}

/// Consumes the encoding of a job request from the front of `s`.
pub open spec fn spec_parse_request(s: Seq<char>) -> Option<(JobRequestView, Seq<char>)> {
    match spec_parse_lit(s, "{\"jobId\":"@) {
        Some(s1) => match spec_parse_string(s1) {
            Some((job_id, s2)) => match spec_parse_lit(s2, ",\"jobName\":"@) {
                Some(s3) => match spec_parse_string(s3) {
                    Some((job_name, s4)) => match spec_parse_lit(s4, ",\"factfilePath\":"@) {
                        Some(s5) => match spec_parse_string(s5) {
                            Some((factfile_path, s6)) => match spec_parse_lit(
                                s6,
                                ",\"factfileArgs\":"@,
                            ) {
                                Some(s7) => match spec_parse_args(s7) {
                                    Some((factfile_args, s8)) => match spec_parse_lit(
                                        s8,
                                        ",\"startTime\":"@,
                                    ) {
                                        Some(s9) => match spec_parse_u64(s9) {
                                            Some((start_time, s10)) => match spec_parse_lit(
                                                s10,
                                                ",\"endTime\":"@,
                                            ) {
                                                Some(s11) => match spec_parse_opt_num(s11) {
                                                    Some((end_time, s12)) => match spec_parse_lit(
                                                        s12,
                                                        ",\"execOutput\":"@,
                                                    ) {
                                                        Some(s13) => match spec_parse_opt_str(
                                                            s13,
                                                        ) {
                                                            Some((exec_output, s14)) => match spec_parse_lit(
                                                                s14,
                                                                "}"@,
                                                            ) {
                                                                Some(s15) => Some(
                                                                    (
                                                                        JobRequestView {
                                                                            job_id,
                                                                            job_name,
                                                                            factfile_path,
                                                                            factfile_args,
                                                                            start_time,
                                                                            end_time,
                                                                            exec_output,
                                                                        },
                                                                        s15,
                                                                    ),
                                                                ),
                                                                None => None,
                                                            },
                                                            None => None,
                                                        },
                                                        None => None,
                                                    },
                                                    None => None,
                                                },
                                                None => None,
                                            },
                                            None => None,
                                        },
                                        None => None,
                                    },
                                    None => None,
                                },
                                None => None,
                            },
                            None => None,
                        },
                        None => None,
                    },
                    None => None,
                },
                None => None,
            },
            None => None,
        },
        None => None,
    }
}

/// Consumes the encoding of a stored job record from the front of `s`.
pub open spec fn spec_parse_entry(s: Seq<char>) -> Option<(JobEntryView, Seq<char>)> {
    match spec_parse_lit(s, "{\"jobRequest\":"@) {
        Some(s1) => match spec_parse_request(s1) {
            Some((job_request, s2)) => match spec_parse_lit(s2, ",\"state\":"@) {
                Some(s3) => match spec_parse_string(s3) {
                    Some((sname, s4)) => match state_of_name(sname) {
                        Some(state) => match spec_parse_lit(s4, ",\"outcome\":"@) {
                            Some(s5) => match spec_parse_string(s5) {
                                Some((oname, s6)) => match outcome_of_name(oname) {
                                    Some(outcome) => match spec_parse_lit(s6, ",\"serverId\":"@) {
                                        Some(s7) => match spec_parse_string(s7) {
                                            Some((server_id, s8)) => match spec_parse_lit(
                                                s8,
                                                "}"@,
                                            ) {
                                                Some(s9) => Some(
                                                    (
                                                        JobEntryView {
                                                            job_request,
                                                            state,
                                                            outcome,
                                                            server_id,
                                                        },
                                                        s9,
                                                    ),
                                                ),
                                                None => None,
                                            },
                                            None => None,
                                        },
                                        None => None,
                                    },
                                    None => None,
                                },
                                None => None,
                            },
                            None => None,
                        },
                        None => None,
                    },
                    None => None,
                },
                None => None,
            },
            None => None,
        },
        None => None,
    }
}

/// Decoding of a whole record: the encoding must span the entire input.
pub open spec fn spec_decode_entry(s: Seq<char>) -> Option<JobEntryView> {
    match spec_parse_entry(s) {
        Some((e, rest)) => if rest.len() == 0 {
            Some(e)
        } else {
            None
        },
        None => None,
    }
}

/// Parsing the encoding of a job request yields the original view and leaves
/// exactly the trailing input.
#[verifier::rlimit(50)]
pub proof fn lemma_parse_request_inv(v: JobRequestView, rest: Seq<char>)
    ensures
        spec_parse_request(spec_encode_request(v) + rest) == Some((v, rest)),
{
    reveal_strlit(",\"endTime\":");
    reveal_strlit(",\"execOutput\":");
    let t14 = "}"@ + rest;
    let t13 = spec_opt_str(v.exec_output) + t14;
    let t12 = ",\"execOutput\":"@ + t13;
    let t11 = spec_opt_num(v.end_time) + t12;
    let t10 = ",\"endTime\":"@ + t11;
    let t9 = dec_digits(v.start_time as nat) + t10;
    let t8 = ",\"startTime\":"@ + t9;
    let t7 = spec_encode_args(v.factfile_args) + t8;
    let t6 = ",\"factfileArgs\":"@ + t7;
    let t5 = strlit(v.factfile_path) + t6;
    let t4 = ",\"factfilePath\":"@ + t5;
    let t3 = strlit(v.job_name) + t4;
    let t2 = ",\"jobName\":"@ + t3;
    let t1 = strlit(v.job_id) + t2;
    let s = spec_encode_request(v) + rest;
    assert(s =~= "{\"jobId\":"@ + t1);
    lemma_parse_lit_inv("{\"jobId\":"@, t1);
    lemma_parse_string_inv(v.job_id, t2);
    lemma_parse_lit_inv(",\"jobName\":"@, t3);
    lemma_parse_string_inv(v.job_name, t4);
    lemma_parse_lit_inv(",\"factfilePath\":"@, t5);
    lemma_parse_string_inv(v.factfile_path, t6);
    lemma_parse_lit_inv(",\"factfileArgs\":"@, t7);
    lemma_parse_args_inv(v.factfile_args, t8);
    lemma_parse_lit_inv(",\"startTime\":"@, t9);
    assert(t10[0] == ',' && !is_digit(','));
    lemma_parse_u64_inv(v.start_time, t10);
    lemma_parse_lit_inv(",\"endTime\":"@, t11);
    assert(t12[0] == ',' && !is_digit(','));
    lemma_parse_opt_num_inv(v.end_time, t12);
    lemma_parse_lit_inv(",\"execOutput\":"@, t13);
    lemma_parse_opt_str_inv(v.exec_output, t14);
    lemma_parse_lit_inv("}"@, rest);
    assert(spec_parse_request(s) matches Some((pv, prest)) && prest == rest && pv =~= v);
}

/// Parsing the encoding of a stored record yields the original view and
/// leaves exactly the trailing input.
#[verifier::rlimit(50)]
pub proof fn lemma_parse_entry_inv(v: JobEntryView, rest: Seq<char>)
    ensures
        spec_parse_entry(spec_encode_entry(v) + rest) == Some((v, rest)),
{
    let t8 = "}"@ + rest;
    let t7 = strlit(v.server_id) + t8;
    let t6 = ",\"serverId\":"@ + t7;
    let t5 = strlit(outcome_name(v.outcome)) + t6;
    let t4 = ",\"outcome\":"@ + t5;
    let t3 = strlit(state_name(v.state)) + t4;
    let t2 = ",\"state\":"@ + t3;
    let t1 = spec_encode_request(v.job_request) + t2;
    let s = spec_encode_entry(v) + rest;
    assert(s =~= "{\"jobRequest\":"@ + t1);
    lemma_parse_lit_inv("{\"jobRequest\":"@, t1);
    lemma_parse_request_inv(v.job_request, t2);
    lemma_parse_lit_inv(",\"state\":"@, t3);
    lemma_parse_string_inv(state_name(v.state), t4);
    lemma_state_name_inv(v.state);
    lemma_parse_lit_inv(",\"outcome\":"@, t5);
    lemma_parse_string_inv(outcome_name(v.outcome), t6);
    lemma_outcome_name_inv(v.outcome);
    lemma_parse_lit_inv(",\"serverId\":"@, t7);
    lemma_parse_string_inv(v.server_id, t8);
    lemma_parse_lit_inv("}"@, rest);
    assert(spec_parse_entry(s) matches Some((pv, prest)) && prest == rest && pv =~= v);
}

/// Decoding inverts encoding: a record written by the encoder reads back as
/// the value it was written from.
pub proof fn lemma_entry_round_trip(v: JobEntryView)
    ensures
        spec_decode_entry(spec_encode_entry(v)) == Some(v),
{
    lemma_parse_entry_inv(v, Seq::empty());
    assert(spec_encode_entry(v) + Seq::<char>::empty() =~= spec_encode_entry(v));
}

/// Appends the encoding of a job request to `out`.
pub fn encode_job_request(out: &mut Vec<char>, r: &JobRequest)
    ensures
        final(out)@ == old(out)@ + spec_encode_request(r@),
{
    push_str_chars(out, "{\"jobId\":");
    push_strlit(out, self_str(&r.job_id));
    push_str_chars(out, ",\"jobName\":");
    push_strlit(out, self_str(&r.job_name));
    push_str_chars(out, ",\"factfilePath\":");
    push_strlit(out, self_str(&r.factfile_path));
    push_str_chars(out, ",\"factfileArgs\":");
    push_args(out, &r.factfile_args);
    push_str_chars(out, ",\"startTime\":");
    push_u64(out, r.start_time);
    push_str_chars(out, ",\"endTime\":");
    push_opt_num(out, &r.end_time);
    push_str_chars(out, ",\"execOutput\":");
    push_opt_str(out, &r.exec_output);
    push_str_chars(out, "}");
    proof {
        assert(out@ =~= old(out)@ + spec_encode_request(r@));
    }
}

fn self_str(s: &String) -> (r: &str)
    ensures
        r@ == s@,
{
    s.as_str()
}

/// Encodes a stored job record as text.
pub fn encode_entry(e: &JobEntry) -> (r: String)
    ensures
        r@ == spec_encode_entry(e@),
{
    let mut out: Vec<char> = Vec::new();
    push_str_chars(&mut out, "{\"jobRequest\":");
    encode_job_request(&mut out, &e.job_request);
    push_str_chars(&mut out, ",\"state\":");
    push_strlit(&mut out, state_name_str(&e.state));
    push_str_chars(&mut out, ",\"outcome\":");
    push_strlit(&mut out, outcome_str(&e.outcome));
    push_str_chars(&mut out, ",\"serverId\":");
    push_strlit(&mut out, self_str(&e.server_id));
    push_str_chars(&mut out, "}");
    proof {
        assert(out@ =~= spec_encode_entry(e@));
    }
    chars_to_string(&out)
}

/// Parses a job request at position `i` of `v`.
fn parse_job_request(v: &Vec<char>, i: usize) -> (r: Option<(JobRequest, usize)>)
    requires
        i <= v@.len(),
    ensures
        match r {
            Some((req, j)) => {
                &&& i <= j <= v@.len()
                &&& spec_parse_request(v@.skip(i as int)) == Some((req@, v@.skip(j as int)))
            },
            None => spec_parse_request(v@.skip(i as int)) is None,
        },
{
    let j1: usize = match parse_lit(v, i, "{\"jobId\":") {
        Some(j) => j,
        None => {
            return None;
        },
    };
    let (job_id, j2): (Vec<char>, usize) = match parse_string(v, j1) {
        Some(x) => x,
        None => {
            return None;
        },
    };
    let j3: usize = match parse_lit(v, j2, ",\"jobName\":") {
        Some(j) => j,
        None => {
            return None;
        },
    };
    let (job_name, j4): (Vec<char>, usize) = match parse_string(v, j3) {
        Some(x) => x,
        None => {
            return None;
        },
    };
    let j5: usize = match parse_lit(v, j4, ",\"factfilePath\":") {
        Some(j) => j,
        None => {
            return None;
        },
    };
    let (factfile_path, j6): (Vec<char>, usize) = match parse_string(v, j5) {
        Some(x) => x,
        None => {
            return None;
        },
    };
    let j7: usize = match parse_lit(v, j6, ",\"factfileArgs\":") {
        Some(j) => j,
        None => {
            return None;
        },
    };
    let (factfile_args, j8): (Vec<String>, usize) = match parse_args(v, j7) {
        Some(x) => x,
        None => {
            return None;
        },
    };
    let j9: usize = match parse_lit(v, j8, ",\"startTime\":") {
        Some(j) => j,
        None => {
            return None;
        },
    };
    let (start_time, j10): (u64, usize) = match parse_u64(v, j9) {
        Some(x) => x,
        None => {
            return None;
        },
    };
    let j11: usize = match parse_lit(v, j10, ",\"endTime\":") {
        Some(j) => j,
        None => {
            return None;
        },
    };
    let (end_time, j12): (Option<u64>, usize) = match parse_opt_num(v, j11) {
        Some(x) => x,
        None => {
            return None;
        },
    };
    let j13: usize = match parse_lit(v, j12, ",\"execOutput\":") {
        Some(j) => j,
        None => {
            return None;
        },
    };
    let (exec_output, j14): (Option<String>, usize) = match parse_opt_str(v, j13) {
        Some(x) => x,
        None => {
            return None;
        },
    };
    let j15: usize = match parse_lit(v, j14, "}") {
        Some(j) => j,
        None => {
            return None;
        },
    };
    let req = JobRequest {
        job_id: chars_to_string(&job_id),
        job_name: chars_to_string(&job_name),
        factfile_path: chars_to_string(&factfile_path),
        factfile_args,
        start_time,
        end_time,
        exec_output,
    };
    proof {
        let parsed = spec_parse_request(v@.skip(i as int));
        assert(parsed matches Some((pv, prest)) && pv =~= req@ && prest == v@.skip(j15 as int));
    }
    Some((req, j15))
}

/// Parses a stored job record at position `i` of `v`.
fn parse_entry(v: &Vec<char>, i: usize) -> (r: Option<(JobEntry, usize)>)
    requires
        i <= v@.len(),
    ensures
        match r {
            Some((e, j)) => {
                &&& i <= j <= v@.len()
                &&& spec_parse_entry(v@.skip(i as int)) == Some((e@, v@.skip(j as int)))
            },
            None => spec_parse_entry(v@.skip(i as int)) is None,
        },
{
    let j1: usize = match parse_lit(v, i, "{\"jobRequest\":") {
        Some(j) => j,
        None => {
            return None;
        },
    };
    let (job_request, j2): (JobRequest, usize) = match parse_job_request(v, j1) {
        Some(x) => x,
        None => {
            return None;
        },
    };
    let j3: usize = match parse_lit(v, j2, ",\"state\":") {
        Some(j) => j,
        None => {
            return None;
        },
    };
    let (sname, j4): (Vec<char>, usize) = match parse_string(v, j3) {
        Some(x) => x,
        None => {
            return None;
        },
    };
    let state: JobState = match state_of_chars(&sname) {
        Some(s) => s,
        None => {
            return None;
        },
    };
    let j5: usize = match parse_lit(v, j4, ",\"outcome\":") {
        Some(j) => j,
        None => {
            return None;
        },
    };
    let (oname, j6): (Vec<char>, usize) = match parse_string(v, j5) {
        Some(x) => x,
        None => {
            return None;
        },
    };
    let outcome: JobOutcome = match outcome_of_chars(&oname) {
        Some(o) => o,
        None => {
            return None;
        },
    };
    let j7: usize = match parse_lit(v, j6, ",\"serverId\":") {
        Some(j) => j,
        None => {
            return None;
        },
    };
    let (server_id, j8): (Vec<char>, usize) = match parse_string(v, j7) {
        Some(x) => x,
        None => {
            return None;
        },
    };
    let j9: usize = match parse_lit(v, j8, "}") {
        Some(j) => j,
        None => {
            return None;
        },
    };
    let e = JobEntry { job_request, state, outcome, server_id: chars_to_string(&server_id) };
    proof {
        let parsed = spec_parse_entry(v@.skip(i as int));
        assert(parsed matches Some((pv, prest)) && pv =~= e@ && prest == v@.skip(j9 as int));
    }
    Some((e, j9))
}

/// Decodes a stored job record from text; fails on anything the encoder
/// would not have written.
pub fn decode_entry(s: &str) -> (r: Option<JobEntry>)
    ensures
        match r {
            Some(e) => spec_decode_entry(s@) == Some(e@),
            None => spec_decode_entry(s@) is None,
        },
{
    let v: Vec<char> = crate::codec::str_to_chars(s);
    proof {
        assert(v@.skip(0) =~= s@);
    }
    match parse_entry(&v, 0) {
        Some((e, j)) => {
            if j == v.len() {
                proof {
                    assert(v@.skip(j as int).len() == 0);
                }
                Some(e)
            } else {
                proof {
                    assert(v@.skip(j as int).len() > 0);
                }
                None
            }
        },
        None => None,
    }
}

// ---------------------------------------------------------------------------
// Namespacing
// ---------------------------------------------------------------------------

/// `key` if it already starts with `ns` followed by a slash, else `ns/key`.
pub open spec fn spec_apply_namespace(ns: Seq<char>, key: Seq<char>) -> Seq<char> {
    let p = ns + seq!['/'];
    if key.len() >= p.len() && key.subrange(0, p.len() as int) == p {
        key
    } else {
        p + key
    }
}

/// Prepending a namespace twice changes nothing beyond the first time.
pub proof fn lemma_apply_namespace_idempotent(ns: Seq<char>, key: Seq<char>)
    ensures
        spec_apply_namespace(ns, spec_apply_namespace(ns, key)) == spec_apply_namespace(ns, key),
{
    let p = ns + seq!['/'];
    let r = spec_apply_namespace(ns, key);
    if !(key.len() >= p.len() && key.subrange(0, p.len() as int) == p) {
        assert(r == p + key);
        assert(r.subrange(0, p.len() as int) =~= p);
    }
}

/// Whether `key` begins with `namespace` followed by a slash.
fn has_namespace_prefix(namespace: &str, key: &str) -> (r: bool)
    ensures
        r == (key@.len() >= namespace@.len() + 1 && key@.subrange(0, namespace@.len() as int + 1)
            == namespace@ + seq!['/']),
{
    let ghost p = namespace@ + seq!['/'];
    let nslen: usize = namespace.unicode_len();
    let keylen: usize = key.unicode_len();
    if keylen <= nslen {
        return false;
    }
    if key.get_char(nslen) != '/' {
        proof {
            assert(p[nslen as int] == '/');
            if key@.subrange(0, nslen as int + 1) == p {
                assert(key@.subrange(0, nslen as int + 1)[nslen as int] == p[nslen as int]);
            }
        }
        return false;
    }
    let mut k: usize = 0;
    while k < nslen
        invariant
            nslen == namespace@.len(),
            keylen == key@.len(),
            keylen > nslen,
            k <= nslen,
            p == namespace@ + seq!['/'],
            key@.subrange(0, k as int) == p.subrange(0, k as int),
        decreases nslen - k,
    {
        if key.get_char(k) != namespace.get_char(k) {
            proof {
                assert(p[k as int] == namespace@[k as int]);
                if key@.subrange(0, nslen as int + 1) == p {
                    assert(key@.subrange(0, nslen as int + 1)[k as int] == p[k as int]);
                }
            }
            return false;
        }
        k = k + 1;
        proof {
            assert(p[k as int - 1] == namespace@[k as int - 1]);
            assert(key@.subrange(0, k as int) =~= p.subrange(0, k as int));
        }
    }
    proof {
        assert(key@.subrange(0, nslen as int + 1) =~= p);
    }
    true
}

/// Returns `key` unchanged when it already begins with `namespace` and a
/// slash; otherwise returns the key with `namespace/` prepended.
pub fn apply_namespace_if_absent(namespace: &str, key: &str) -> (r: String)
    ensures
        r@ == spec_apply_namespace(namespace@, key@),
{
    let ghost p = namespace@ + seq!['/'];
    if has_namespace_prefix(namespace, key) {
        key.to_owned()
    } else {
        let mut out: Vec<char> = crate::codec::str_to_chars(namespace);
        out.push('/');
        proof {
            assert(out@ =~= p + key@.subrange(0, 0));
        }
        let keylen: usize = key.unicode_len();
        let mut k: usize = 0;
        while k < keylen
            invariant
                keylen == key@.len(),
                k <= keylen,
                out@ == p + key@.subrange(0, k as int),
                p == namespace@ + seq!['/'],
            decreases keylen - k,
        {
            out.push(key.get_char(k));
            k = k + 1;
            proof {
                assert(out@ =~= p + key@.subrange(0, k as int));
            }
        }
        proof {
            assert(out@ =~= p + key@);
        }
        chars_to_string(&out)
    }
}

// ---------------------------------------------------------------------------
// The store interface
// ---------------------------------------------------------------------------

/// What the base64 encoding of a string is; left uninterpreted and pinned
/// down only through the contracts of the two wrappers below.
pub uninterp spec fn b64_of(s: Seq<char>) -> Seq<char>;

/// Relies on base64's `Engine::encode` with the standard padded engine: the
/// result is a pure function of the input bytes.
#[verifier::external_body]
fn b64_encode(s: &str) -> (r: String)
    ensures
        r@ == b64_of(s@),
{
    base64::Engine::encode(&base64::engine::general_purpose::STANDARD, s.as_bytes())
}

/// Relies on base64's `Engine::decode` with the standard padded engine: in
/// its canonical-padding configuration it accepts exactly the strings the
/// encoder produces and returns the bytes they were produced from, so a
/// success names the unique preimage and a failure means the input is no
/// encoding at all.
#[verifier::external_body]
fn b64_decode(s: &str) -> (r: Option<String>)
    ensures
        match r {
            Some(v) => s@ == b64_of(v@) && forall|t: Seq<char>| s@ == b64_of(t) ==> t == v@,
            None => forall|t: Seq<char>| s@ != b64_of(t),
        },
{
    match base64::Engine::decode(&base64::engine::general_purpose::STANDARD, s.as_bytes()) {
        Ok(bytes) => String::from_utf8(bytes).ok(),
        Err(_) => None,
    }
}

/// A namespaced key/value store holding one encoded record per job.
///
/// A deployed server keeps these records in an external store; tests and
/// in-process use keep them in a [`MemoryStore`].  An implementation reports
/// its contents as a map from full keys to stored strings.
pub trait Persistence: Sized {
    /// Identifier the store writes into each record.
    spec fn spec_id(&self) -> Seq<char>;

    /// Namespace prepended to bare job identifiers.
    spec fn namespace(&self) -> Seq<char>;

    /// Current contents: full key to stored value.
    spec fn contents(&self) -> Map<Seq<char>, Seq<char>>;

    /// Identifier the store writes into each record.
    fn id(&self) -> (r: &str)
        ensures
            r@ == self.spec_id(),
    ;

    /// The full key for `key`.
    fn prepend_namespace(&self, key: &str) -> (r: String)
        ensures
            r@ == spec_apply_namespace(self.namespace(), key@),
    ;

    /// Stores `value` under `key`; reports whether the write took effect.
    fn set_key(&mut self, key: &str, value: &str) -> (r: bool)
        ensures
            final(self).spec_id() == old(self).spec_id(),
            final(self).namespace() == old(self).namespace(),
            r ==> final(self).contents() == old(self).contents().insert(key@, value@),
            !r ==> final(self).contents() == old(self).contents(),
    ;

    /// Reads the value stored under `key`, if any.
    fn get_key(&self, key: &str) -> (r: Option<String>)
        ensures
            match r {
                Some(v) => self.contents().contains_key(key@) && v@ == self.contents()[key@],
                None => !self.contents().contains_key(key@),
            },
    ;
}

/// Map described by an association list; later entries shadow earlier ones.
pub open spec fn kv_map(s: Seq<(String, String)>) -> Map<Seq<char>, Seq<char>>
    decreases s.len(),
{
    if s.len() == 0 {
        Map::empty()
    } else {
        kv_map(s.drop_last()).insert(s.last().0@, s.last().1@)
    }
}

proof fn lemma_kv_map_found(s: Seq<(String, String)>, m: int, key: Seq<char>)
    requires
        0 <= m < s.len(),
        s[m].0@ == key,
        forall|idx: int| m < idx < s.len() ==> #[trigger] s[idx].0@ != key,
    ensures
        kv_map(s).contains_key(key),
        kv_map(s)[key] == s[m].1@,
    decreases s.len(),
{
    if m == s.len() - 1 {
    } else {
        lemma_kv_map_found(s.drop_last(), m, key);
    }
}

proof fn lemma_kv_map_absent(s: Seq<(String, String)>, key: Seq<char>)
    requires
        forall|idx: int| 0 <= idx < s.len() ==> #[trigger] s[idx].0@ != key,
    ensures
        !kv_map(s).contains_key(key),
    decreases s.len(),
{
    if s.len() > 0 {
        lemma_kv_map_absent(s.drop_last(), key);
    }
}

/// An in-process store: an append-only association list of writes.
pub struct MemoryStore {
    pub server_id: String,
    pub store_namespace: String,
    pub entries: Vec<(String, String)>,
}

impl MemoryStore {
    /// An empty store with the given identifier and namespace.
    pub fn new(server_id: &str, store_namespace: &str) -> (r: MemoryStore)
        ensures
            r.spec_id() == server_id@,
            r.namespace() == store_namespace@,
            r.contents() == Map::<Seq<char>, Seq<char>>::empty(),
    {
        MemoryStore {
            server_id: server_id.to_owned(),
            store_namespace: store_namespace.to_owned(),
            entries: Vec::new(),
        }
    }
}

impl Persistence for MemoryStore {
    open spec fn spec_id(&self) -> Seq<char> {
        self.server_id@
    }

    open spec fn namespace(&self) -> Seq<char> {
        self.store_namespace@
    }

    open spec fn contents(&self) -> Map<Seq<char>, Seq<char>> {
        kv_map(self.entries@)
    }

    fn id(&self) -> (r: &str) {
        self.server_id.as_str()
    }

    fn prepend_namespace(&self, key: &str) -> (r: String) {
        apply_namespace_if_absent(self.store_namespace.as_str(), key)
    }

    fn set_key(&mut self, key: &str, value: &str) -> (r: bool) {
        let ghost prev = self.entries@;
        self.entries.push((key.to_owned(), value.to_owned()));
        proof {
            assert(self.entries@.drop_last() =~= prev);
        }
        true
    }

    fn get_key(&self, key: &str) -> (r: Option<String>) {
        let n: usize = self.entries.len();
        let mut k: usize = n;
        while k > 0
            invariant
                n == self.entries@.len(),
                k <= n,
                forall|idx: int| k <= idx < n ==> #[trigger] self.entries@[idx].0@ != key@,
            decreases k,
        {
            k = k - 1;
            if crate::codec::str_eq(self.entries[k].0.as_str(), key) {
                proof {
                    lemma_kv_map_found(self.entries@, k as int, key@);
                }
                return Some(self.entries[k].1.clone());
            }
        }
        proof {
            lemma_kv_map_absent(self.entries@, key@);
        }
        None
    }
}

// ---------------------------------------------------------------------------
// The persistence mediator
// ---------------------------------------------------------------------------

/// The record view that `set_entry` writes for the given arguments.
pub open spec fn written_entry(
    job_request: JobRequestView,
    state: JobState,
    outcome: JobOutcome,
    server_id: Seq<char>,
) -> JobEntryView {
    JobEntryView { job_request, state, outcome, server_id }
}

/// The text stored for `job_request` at the given lifecycle point: the
/// encoded record, base64.
pub fn encode_store_value(
    job_request: &JobRequest,
    job_state: &JobState,
    job_outcome: &JobOutcome,
    server_id: &str,
) -> (r: String)
    ensures
        r@ == b64_of(
            spec_encode_entry(written_entry(job_request@, *job_state, *job_outcome, server_id@)),
        ),
{
    let entry = JobEntry::new(job_state, job_request, server_id, job_outcome);
    let json = encode_entry(&entry);
    b64_encode(json.as_str())
}

/// Decodes a stored value back to the record it was written from; anything
/// that is not a stored record comes back as `None`.
pub fn decode_store_value(value: &str) -> (r: Option<JobEntry>)
    ensures
        r matches Some(e) ==> exists|j: Seq<char>|
            value@ == b64_of(j) && #[trigger] spec_decode_entry(j) == Some(e@),
        forall|j: Seq<char>|
            (value@ == b64_of(j) && #[trigger] spec_decode_entry(j) is Some) ==> (r matches Some(
                e2,
            ) && Some(e2@) == spec_decode_entry(j)),
{
    match b64_decode(value) {
        Some(json) => decode_entry(json.as_str()),
        None => None,
    }
}

/// Builds the record for `job_request` at the given lifecycle point,
/// encodes it, and writes it under the namespaced job key; reports whether
/// the write took effect.
pub fn set_entry<T: Persistence>(
    persistence: &mut T,
    client_job_id: &str,
    job_request: &JobRequest,
    job_state: &JobState,
    job_outcome: &JobOutcome,
) -> (r: bool)
    ensures
        final(persistence).spec_id() == old(persistence).spec_id(),
        final(persistence).namespace() == old(persistence).namespace(),
        r ==> final(persistence).contents() == old(persistence).contents().insert(
            spec_apply_namespace(old(persistence).namespace(), client_job_id@),
            b64_of(
                spec_encode_entry(
                    written_entry(
                        job_request@,
                        *job_state,
                        *job_outcome,
                        old(persistence).spec_id(),
                    ),
                ),
            ),
        ),
        !r ==> final(persistence).contents() == old(persistence).contents(),
{
    let encoded = encode_store_value(job_request, job_state, job_outcome, persistence.id());
    let nskey = persistence.prepend_namespace(client_job_id);
    persistence.set_key(nskey.as_str(), encoded.as_str())
}

/// Reads the record stored under the namespaced job key and decodes it;
/// absence and anything that does not decode both come back as `None`.
pub fn get_entry<T: Persistence>(persistence: &T, client_job_id: &str) -> (r: Option<JobEntry>)
    ensures
        ({
            let k = spec_apply_namespace(persistence.namespace(), client_job_id@);
            &&& (r matches Some(e) ==> persistence.contents().contains_key(k)
                && exists|j: Seq<char>|
                    persistence.contents()[k] == b64_of(j) && #[trigger] spec_decode_entry(j)
                        == Some(e@))
            &&& forall|j: Seq<char>|
                (persistence.contents().contains_key(k) && persistence.contents()[k] == b64_of(j)
                    && #[trigger] spec_decode_entry(j) is Some) ==> (r matches Some(e2)
                    && Some(e2@) == spec_decode_entry(j))
        }),
{
    let nskey = persistence.prepend_namespace(client_job_id);
    match persistence.get_key(nskey.as_str()) {
        Some(value) => decode_store_value(value.as_str()),
        None => None,
    }
}

} // verus!
