//! One execution session: the ordered event sequence of one child process
//! run, from the `task_started` event through exactly one terminal event.
//! The session owns the translation of child output lines into typed events
//! and the construction of the terminal outcome, and its invariant pins the
//! shape of the whole sequence.

use vstd::prelude::*;
use vstd::string::StringExecFns;
use crate::event::{Event, is_terminal};
use crate::jsonrpc::{
    fresh_uuid_string, json_check, json_compact, json_doc_field, json_doc_text, json_field_doc,
    json_field_i64, json_field_str, json_i64_field, json_parse_res, json_str_field,
};
use crate::payload::{
    completed_payload, handshake_text, parse_error_payload, recorded_exit_code, render_completed,
    render_handshake, render_parse_error, render_started, render_timeout, started_payload,
    status_text, timeout_payload,
};
use crate::record::SessionPersistData;
use crate::textfmt::{str_equal, views};
use crate::types::{spec_effective_timeout, DEFAULT_TIMEOUT_MS};

verus! {

/// The text put before the parser's own message in a malformed-line event.
pub open spec fn parse_fail_prefix() -> Seq<char> {
    "failed to parse stdout line: "@
}

/// What one child stdout line adds to the event sequence: the raw line
/// event, then, for a line that does not parse, exactly one malformed-line
/// error; for a line that parses, a progress event when the document carries
/// the progress method, and a result event when it answers the execution
/// call and carries a result.
pub open spec fn stdout_events_match(sid: Seq<char>, l: Seq<char>, evs: Seq<Event>) -> bool {
    match json_parse_res(l) {
        Err(msg) => {
            &&& evs.len() == 2
            &&& evs[0] matches Event::StdoutLine { data } && data@ == l
            &&& evs[1] matches Event::ParseError { data } && data@ == parse_error_payload(
                sid,
                parse_fail_prefix() + msg,
                l,
            )
        },
        Ok(_) => {
            let prog = json_field_str(l, "method"@) == Some("task/progress"@);
            let res = json_field_i64(l, "id"@) == Some(2int) && json_field_doc(l, "result"@)
                is Some;
            &&& evs.len() == 1 + (if prog {
                1int
            } else {
                0int
            }) + (if res {
                1int
            } else {
                0int
            })
            &&& evs[0] matches Event::StdoutLine { data } && data@ == l
            &&& prog ==> (evs[1] matches Event::TaskProgress { data } && data@ == json_compact(l))
            &&& res ==> (evs[evs.len() - 1] matches Event::TaskResult { data } && Some(data@)
                == json_field_doc(l, "result"@))
        },
    }
}

/// One single-use session: identifier, request data, the accumulated output
/// of both child streams, and the event sequence produced so far.
pub struct Session {
    pub session_id: String,
    pub prompt: String,
    pub timeout_ms: u64,
    pub stdout_lines: Vec<String>,
    pub stderr_lines: Vec<String>,
    pub events: Vec<Event>,
    pub finished: bool,
}

/// Copies a vector of lines.
fn clone_lines(v: &Vec<String>) -> (r: Vec<String>)
    ensures
        r@ == v@,
{
    let mut r: Vec<String> = Vec::new();
    let mut i: usize = 0;
    while i < v.len()
        invariant
            i <= v.len(),
            r@ =~= v@.subrange(0, i as int),
        decreases v.len() - i,
    {
        r.push(v[i].clone());
        i += 1;
    }
    proof {
        assert(v@.subrange(0, v@.len() as int) =~= v@);
    }
    r
}

impl Session {
    /// The session invariant: the sequence starts with its only
    /// `task_started` event; while the session runs no event is terminal;
    /// once it is finished the last event is terminal and no other one is.
    pub open spec fn wf(&self) -> bool {
        &&& self.events@.len() >= 1
        &&& self.events@[0] matches Event::TaskStarted { data } && data@ == started_payload(
            self.session_id@,
        )
        &&& forall|i: int|
            1 <= i < self.events@.len() ==> !((#[trigger] self.events@[i]) is TaskStarted)
        &&& self.finished ==> is_terminal(self.events@.last())
        &&& self.finished ==> forall|i: int|
            0 <= i < self.events@.len() - 1 ==> !is_terminal(#[trigger] self.events@[i])
        &&& !self.finished ==> forall|i: int|
            0 <= i < self.events@.len() ==> !is_terminal(#[trigger] self.events@[i])
    }

    /// Opens a session: the deadline defaults when absent, the identifier is
    /// the caller's or a fresh 36-character one, and the sequence starts
    /// with the `task_started` event.
    pub fn start(prompt: String, timeout_ms: Option<u64>, session_id: Option<String>) -> (s:
        Session)
        ensures
            s.wf(),
            !s.finished,
            s.prompt == prompt,
            s.timeout_ms == spec_effective_timeout(timeout_ms),
            session_id matches Some(id) ==> s.session_id == id,
            session_id is None ==> s.session_id@.len() == 36,
            s.events@.len() == 1,
            s.stdout_lines@.len() == 0,
            s.stderr_lines@.len() == 0,
    {
        let sid = match session_id {
            Some(id) => id,
            None => fresh_uuid_string(),
        };
        let t = match timeout_ms {
            Some(t) => t,
            None => DEFAULT_TIMEOUT_MS,
        };
        let data = render_started(sid.as_str());
        let mut events: Vec<Event> = Vec::new();
        events.push(Event::TaskStarted { data });
        Session {
            session_id: sid,
            prompt,
            timeout_ms: t,
            stdout_lines: Vec::new(),
            stderr_lines: Vec::new(),
            events,
            finished: false,
        }
    }

    /// The two JSON-RPC calls written to the child's input, in order, each
    /// newline-terminated.
    pub fn handshake(&self) -> (r: String)
        ensures
            r@ == handshake_text(self.prompt@, self.timeout_ms as nat),
    {
        render_handshake(self.prompt.as_str(), self.timeout_ms)
    }

    /// Takes one line of the child's standard output: accumulates it, emits
    /// the raw line event, and translates the line. A line that is not valid
    /// JSON adds one malformed-line error and nothing else; the session goes
    /// on either way.
    pub fn on_stdout_line(&mut self, line: String)
        requires
            old(self).wf(),
            !old(self).finished,
        ensures
            final(self).wf(),
            !final(self).finished,
            final(self).session_id == old(self).session_id,
            final(self).prompt == old(self).prompt,
            final(self).timeout_ms == old(self).timeout_ms,
            final(self).stderr_lines == old(self).stderr_lines,
            final(self).stdout_lines@ == old(self).stdout_lines@.push(line),
            final(self).events@.len() > old(self).events@.len(),
            final(self).events@.subrange(0, old(self).events@.len() as int) == old(self).events@,
            stdout_events_match(
                old(self).session_id@,
                line@,
                final(self).events@.skip(old(self).events@.len() as int),
            ),
    {
        let ghost n = old(self).events@.len() as int;
        let ghost l = line@;
        self.stdout_lines.push(line.clone());
        self.events.push(Event::StdoutLine { data: line.clone() });
        match json_check(line.as_str()) {
            Err(msg) => {
                let mut m = String::from_str("failed to parse stdout line: ");
                m.append(msg.as_str());
                let data = render_parse_error(self.session_id.as_str(), m.as_str(), line.as_str());
                self.events.push(Event::ParseError { data });
                proof {
                    assert(self.events@.subrange(0, n) =~= old(self).events@);
                    assert(self.events@.skip(n) =~= seq![
                        self.events@[n],
                        self.events@[n + 1],
                    ]);
                }
            },
            Ok(_) => {
                let is_prog = match json_str_field(line.as_str(), "method") {
                    Some(meth) => str_equal(meth.as_str(), "task/progress"),
                    None => false,
                };
                if is_prog {
                    match json_doc_text(line.as_str()) {
                        Some(doc) => {
                            self.events.push(Event::TaskProgress { data: doc });
                        },
                        None => {
                            // a line that parsed has a reserialization
                            proof {
                                assert(false);
                            }
                        },
                    }
                }
                let has_id = match json_i64_field(line.as_str(), "id") {
                    Some(v) => v == 2,
                    None => false,
                };
                if has_id {
                    match json_doc_field(line.as_str(), "result") {
                        Some(rd) => {
                            self.events.push(Event::TaskResult { data: rd });
                        },
                        None => {},
                    }
                }
                proof {
                    let ghost prog = json_field_str(l, "method"@) == Some("task/progress"@);
                    let ghost res = json_field_i64(l, "id"@) == Some(2int) && json_field_doc(
                        l,
                        "result"@,
                    ) is Some;
                    assert(self.events@.subrange(0, n) =~= old(self).events@);
                    if prog && res {
                        assert(self.events@.skip(n) =~= seq![
                            self.events@[n],
                            self.events@[n + 1],
                            self.events@[n + 2],
                        ]);
                    } else if prog || res {
                        assert(self.events@.skip(n) =~= seq![
                            self.events@[n],
                            self.events@[n + 1],
                        ]);
                    } else {
                        assert(self.events@.skip(n) =~= seq![self.events@[n]]);
                    }
                }
            },
        }
        proof {
            let evs = self.events@;
            assert forall|i: int| 1 <= i < evs.len() implies !((#[trigger] evs[i]) is TaskStarted) by {
                if i < n {
                    assert(evs[i] == old(self).events@[i]);
                }
            }
            assert forall|i: int| 0 <= i < evs.len() implies !is_terminal(#[trigger] evs[i]) by {
                if i < n {
                    assert(evs[i] == old(self).events@[i]);
                }
            }
            assert(evs[0] == old(self).events@[0]);
        }
    }

    /// Takes one line of the child's standard error: accumulates it and
    /// emits its raw line event.
    pub fn on_stderr_line(&mut self, line: String)
        requires
            old(self).wf(),
            !old(self).finished,
        ensures
            final(self).wf(),
            !final(self).finished,
            final(self).session_id == old(self).session_id,
            final(self).prompt == old(self).prompt,
            final(self).timeout_ms == old(self).timeout_ms,
            final(self).stdout_lines == old(self).stdout_lines,
            final(self).stderr_lines@ == old(self).stderr_lines@.push(line),
            final(self).events@ == old(self).events@.push(
                Event::StderrLine { data: line },
            ),
    {
        let ghost n = old(self).events@.len() as int;
        self.stderr_lines.push(line.clone());
        self.events.push(Event::StderrLine { data: line });
        proof {
            let evs = self.events@;
            assert forall|i: int| 1 <= i < evs.len() implies !((#[trigger] evs[i]) is TaskStarted) by {
                if i < n {
                    assert(evs[i] == old(self).events@[i]);
                }
            }
            assert forall|i: int| 0 <= i < evs.len() implies !is_terminal(#[trigger] evs[i]) by {
                if i < n {
                    assert(evs[i] == old(self).events@[i]);
                }
            }
            assert(evs[0] == old(self).events@[0]);
        }
    }

    /// Ends the session on a failure of its own machinery (spawn, pipe or
    /// write failure): one terminal error event carrying the plain message.
    pub fn fail(&mut self, message: String)
        requires
            old(self).wf(),
            !old(self).finished,
        ensures
            final(self).wf(),
            final(self).finished,
            final(self).events@ == old(self).events@.push(Event::FailError { data: message }),
    {
        let ghost n = old(self).events@.len() as int;
        self.events.push(Event::FailError { data: message });
        self.finished = true;
        proof {
            let evs = self.events@;
            assert forall|i: int| 1 <= i < evs.len() implies !((#[trigger] evs[i]) is TaskStarted) by {
                if i < n {
                    assert(evs[i] == old(self).events@[i]);
                }
            }
            assert forall|i: int| 0 <= i < evs.len() - 1 implies !is_terminal(#[trigger] evs[i]) by {
                assert(evs[i] == old(self).events@[i]);
            }
            assert(evs[0] == old(self).events@[0]);
        }
    }

    /// Ends a session whose child exited before the deadline: exactly one
    /// completion event summarizing exit code, elapsed time, status and both
    /// captured streams, and the record handed to the archival collaborator.
    /// The status is `completed` exactly for exit code zero; a child that
    /// left no exit code is recorded as -1 and `failed`.
    pub fn finish_completed(
        &mut self,
        exit_code: Option<i32>,
        execution_time_ms: u64,
        timestamp: String,
    ) -> (rec: SessionPersistData)
        requires
            old(self).wf(),
            !old(self).finished,
        ensures
            final(self).wf(),
            final(self).finished,
            final(self).events@.len() == old(self).events@.len() + 1,
            final(self).events@.subrange(0, old(self).events@.len() as int) == old(self).events@,
            final(self).events@.last() matches Event::TaskCompleted { data } && data@
                == completed_payload(
                old(self).session_id@,
                exit_code,
                execution_time_ms as nat,
                views(old(self).stdout_lines@),
                views(old(self).stderr_lines@),
            ),
            rec.session_id == old(self).session_id,
            rec.prompt == old(self).prompt,
            rec.exit_code as int == recorded_exit_code(exit_code),
            rec.status@ == status_text(exit_code),
            rec.status@ == "completed"@ <==> exit_code == Some(0i32),
            rec.execution_time_ms == execution_time_ms,
            rec.stdout@ == old(self).stdout_lines@,
            rec.stderr@ == old(self).stderr_lines@,
            rec.created_files is None,
            rec.timestamp == timestamp,
            rec.metadata@ == "{}"@,
    {
        let ghost n = old(self).events@.len() as int;
        let data = render_completed(
            self.session_id.as_str(),
            exit_code,
            execution_time_ms,
            &self.stdout_lines,
            &self.stderr_lines,
        );
        let code: i32 = match exit_code {
            Some(c) => c,
            None => -1,
        };
        let status = match exit_code {
            Some(0) => String::from_str("completed"),
            _ => String::from_str("failed"),
        };
        let rec = SessionPersistData {
            session_id: self.session_id.clone(),
            prompt: self.prompt.clone(),
            exit_code: code,
            status,
            execution_time_ms,
            stdout: clone_lines(&self.stdout_lines),
            stderr: clone_lines(&self.stderr_lines),
            created_files: None,
            timestamp,
            metadata: String::from_str("{}"),
        };
        self.events.push(Event::TaskCompleted { data });
        self.finished = true;
        proof {
            reveal_strlit("completed");
            reveal_strlit("failed");
            let evs = self.events@;
            assert(evs.subrange(0, n) =~= old(self).events@);
            assert forall|i: int| 1 <= i < evs.len() implies !((#[trigger] evs[i]) is TaskStarted) by {
                if i < n {
                    assert(evs[i] == old(self).events@[i]);
                }
            }
            assert forall|i: int| 0 <= i < evs.len() - 1 implies !is_terminal(#[trigger] evs[i]) by {
                assert(evs[i] == old(self).events@[i]);
            }
            assert(evs[0] == old(self).events@[0]);
        }
        rec
    }

    /// Ends a session whose deadline fired first: exactly one terminal
    /// timeout error event, and a record with status `timeout`, exit code
    /// -1, the deadline as elapsed time and no captured output. The caller
    /// kills the child before emitting anything further; no completion event
    /// exists for such a session.
    pub fn finish_timeout(&mut self, timestamp: String) -> (rec: SessionPersistData)
        requires
            old(self).wf(),
            !old(self).finished,
        ensures
            final(self).wf(),
            final(self).finished,
            final(self).events@.len() == old(self).events@.len() + 1,
            final(self).events@.subrange(0, old(self).events@.len() as int) == old(self).events@,
            final(self).events@.last() matches Event::TimeoutError { data } && data@
                == timeout_payload(old(self).session_id@, old(self).timeout_ms as nat),
            rec.session_id == old(self).session_id,
            rec.prompt == old(self).prompt,
            rec.exit_code == -1,
            rec.status@ == "timeout"@,
            rec.execution_time_ms == old(self).timeout_ms,
            rec.stdout@.len() == 0,
            rec.stderr@.len() == 0,
            rec.created_files is None,
            rec.timestamp == timestamp,
            rec.metadata@ == "{\"error\":\"timeout\"}"@,
    {
        let ghost n = old(self).events@.len() as int;
        let data = render_timeout(self.session_id.as_str(), self.timeout_ms);
        let rec = SessionPersistData {
            session_id: self.session_id.clone(),
            prompt: self.prompt.clone(),
            exit_code: -1,
            status: String::from_str("timeout"),
            execution_time_ms: self.timeout_ms,
            stdout: Vec::new(),
            stderr: Vec::new(),
            created_files: None,
            timestamp,
            metadata: String::from_str("{\"error\":\"timeout\"}"),
        };
        self.events.push(Event::TimeoutError { data });
        self.finished = true;
        proof {
            let evs = self.events@;
            assert(evs.subrange(0, n) =~= old(self).events@);
            assert forall|i: int| 1 <= i < evs.len() implies !((#[trigger] evs[i]) is TaskStarted) by {
                if i < n {
                    assert(evs[i] == old(self).events@[i]);
                }
            }
            assert forall|i: int| 0 <= i < evs.len() - 1 implies !is_terminal(#[trigger] evs[i]) by {
                assert(evs[i] == old(self).events@[i]);
            }
            assert(evs[0] == old(self).events@[0]);
        }
        rec
    }
}

/// Law: a finished session's event sequence begins with its only
/// `task_started` event and ends with its only terminal event.
pub proof fn lemma_exactly_one_terminal(s: &Session)
    requires
        s.wf(),
        s.finished,
    ensures
        s.events@.len() >= 1,
        s.events@[0] is TaskStarted,
        forall|i: int| 1 <= i < s.events@.len() ==> !((#[trigger] s.events@[i]) is TaskStarted),
        is_terminal(s.events@.last()),
        forall|i: int| 0 <= i < s.events@.len() - 1 ==> !is_terminal(#[trigger] s.events@[i]),
{
}

/// Law: a session ended by the deadline carries no completion event
/// anywhere in its sequence.
pub proof fn lemma_timeout_excludes_completion(s: &Session)
    requires
        s.wf(),
        s.finished,
        s.events@.last() is TimeoutError,
    ensures
        forall|i: int| 0 <= i < s.events@.len() ==> !((#[trigger] s.events@[i]) is TaskCompleted),
{
    assert forall|i: int|
        0 <= i < s.events@.len() implies !((#[trigger] s.events@[i]) is TaskCompleted) by {
        if i < s.events@.len() - 1 {
            assert(!is_terminal(s.events@[i]));
        } else {
            assert(s.events@[i] == s.events@.last());
        }
    }
}

} // verus!
