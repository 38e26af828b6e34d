//! The exact wire text of every payload the bridge emits or writes: the two
//! JSON-RPC handshake lines sent to the child, and the data of each typed
//! event. Keys of every object are emitted in sorted order, compactly.

use vstd::prelude::*;
use vstd::string::StringExecFns;
use crate::textfmt::{
    dec_digits, int_dec, i32_dec, json_quoted, json_str_array, json_string, json_string_array,
    push_char, u64_dec, views,
};

verus! {

/// Data of the event announcing a session: its identifier and phase.
pub open spec fn started_payload(sid: Seq<char>) -> Seq<char> {
    "{\"session_id\":"@ + json_quoted(sid) + ",\"status\":\"initializing\"}"@
}

/// Renders the session-start payload.
pub fn render_started(sid: &str) -> (r: String)
    ensures
        r@ == started_payload(sid@),
{
    let mut out = String::from_str("{\"session_id\":");
    let q = json_string(sid);
    out.append(q.as_str());
    out.append(",\"status\":\"initializing\"}");
    out
}

/// The JSON-RPC `initialize` call, request id 1.
pub open spec fn init_line() -> Seq<char> {
    "{\"id\":1,\"jsonrpc\":\"2.0\",\"method\":\"initialize\",\"params\":{\"clientInfo\":{\"name\":\"cloud-wrapper\",\"version\":\"1.0.0\"}}}"@
}

/// Renders the `initialize` call line.
pub fn render_init_line() -> (r: String)
    ensures
        r@ == init_line(),
{
    String::from_str(
        "{\"id\":1,\"jsonrpc\":\"2.0\",\"method\":\"initialize\",\"params\":{\"clientInfo\":{\"name\":\"cloud-wrapper\",\"version\":\"1.0.0\"}}}",
    )
}

/// The JSON-RPC `execOneOffCommand` call, request id 2, carrying the prompt,
/// the deadline and the sandbox-bypass policy.
pub open spec fn exec_line(prompt: Seq<char>, timeout_ms: nat) -> Seq<char> {
    "{\"id\":2,\"jsonrpc\":\"2.0\",\"method\":\"execOneOffCommand\",\"params\":{\"command\":["@
        + json_quoted(prompt) + "],\"sandboxPolicy\":\"DangerFullAccess\",\"timeoutMs\":"@
        + dec_digits(timeout_ms) + "}}"@
}

/// Renders the `execOneOffCommand` call line.
pub fn render_exec_line(prompt: &str, timeout_ms: u64) -> (r: String)
    ensures
        r@ == exec_line(prompt@, timeout_ms as nat),
{
    let mut out = String::from_str(
        "{\"id\":2,\"jsonrpc\":\"2.0\",\"method\":\"execOneOffCommand\",\"params\":{\"command\":[",
    );
    let q = json_string(prompt);
    out.append(q.as_str());
    out.append("],\"sandboxPolicy\":\"DangerFullAccess\",\"timeoutMs\":");
    let t = u64_dec(timeout_ms);
    out.append(t.as_str());
    out.append("}}");
    out
}

/// Both handshake lines in the order they are written to the child's input,
/// each newline-terminated.
pub open spec fn handshake_text(prompt: Seq<char>, timeout_ms: nat) -> Seq<char> {
    init_line() + seq!['\n'] + exec_line(prompt, timeout_ms) + seq!['\n']
}

/// Renders the complete handshake written to the child's input.
pub fn render_handshake(prompt: &str, timeout_ms: u64) -> (r: String)
    ensures
        r@ == handshake_text(prompt@, timeout_ms as nat),
{
    let mut out = render_init_line();
    push_char(&mut out, '\n');
    let e = render_exec_line(prompt, timeout_ms);
    out.append(e.as_str());
    push_char(&mut out, '\n');
    proof {
        assert(out@ =~= init_line() + seq!['\n'] + exec_line(prompt@, timeout_ms as nat)
            + seq!['\n']);
    }
    out
}

/// Data of the non-terminal error event for a child output line that is not
/// valid JSON.
pub open spec fn parse_error_payload(sid: Seq<char>, message: Seq<char>, line: Seq<char>) -> Seq<
    char,
> {
    "{\"error\":\"json_parse\",\"line\":"@ + json_quoted(line) + ",\"message\":"@ + json_quoted(
        message,
    ) + ",\"session_id\":"@ + json_quoted(sid) + "}"@
}

/// Renders the malformed-line error payload.
pub fn render_parse_error(sid: &str, message: &str, line: &str) -> (r: String)
    ensures
        r@ == parse_error_payload(sid@, message@, line@),
{
    let mut out = String::from_str("{\"error\":\"json_parse\",\"line\":");
    let ql = json_string(line);
    out.append(ql.as_str());
    out.append(",\"message\":");
    let qm = json_string(message);
    out.append(qm.as_str());
    out.append(",\"session_id\":");
    let qs = json_string(sid);
    out.append(qs.as_str());
    out.append("}");
    out
}

/// Data of the terminal error event emitted when the deadline fires.
pub open spec fn timeout_payload(sid: Seq<char>, timeout_ms: nat) -> Seq<char> {
    "{\"error\":\"timeout\",\"message\":\"subprocess exceeded the time limit of "@ + dec_digits(
        timeout_ms,
    ) + "ms and was terminated\",\"session_id\":"@ + json_quoted(sid) + "}"@
}

/// Renders the deadline-expiry payload.
pub fn render_timeout(sid: &str, timeout_ms: u64) -> (r: String)
    ensures
        r@ == timeout_payload(sid@, timeout_ms as nat),
{
    let mut out = String::from_str(
        "{\"error\":\"timeout\",\"message\":\"subprocess exceeded the time limit of ",
    );
    let t = u64_dec(timeout_ms);
    out.append(t.as_str());
    out.append("ms and was terminated\",\"session_id\":");
    let qs = json_string(sid);
    out.append(qs.as_str());
    out.append("}");
    out
}

/// The status word for an exit outcome: `completed` only for exit code zero,
/// `failed` for any other code and for a child that left no code.
pub open spec fn status_text(exit_code: Option<i32>) -> Seq<char> {
    if exit_code == Some(0i32) {
        "completed"@
    } else {
        "failed"@
    }
}

/// The exit code written into the record and the completion payload: the
/// child's own code, or -1 when the child left none.
pub open spec fn recorded_exit_code(exit_code: Option<i32>) -> int {
    match exit_code {
        Some(c) => c as int,
        None => -1,
    }
}

/// Data of the terminal completion event: elapsed time, exit code, session
/// identifier, status word and both captured output streams.
pub open spec fn completed_payload(
    sid: Seq<char>,
    exit_code: Option<i32>,
    execution_time_ms: nat,
    stdout: Seq<Seq<char>>,
    stderr: Seq<Seq<char>>,
) -> Seq<char> {
    "{\"execution_time_ms\":"@ + dec_digits(execution_time_ms) + ",\"exit_code\":"@ + int_dec(
        recorded_exit_code(exit_code),
    ) + ",\"session_id\":"@ + json_quoted(sid) + ",\"status\":\""@ + status_text(exit_code)
        + "\",\"stderr\":"@ + json_str_array(stderr) + ",\"stdout\":"@ + json_str_array(stdout)
        + "}"@
}

/// Renders the completion payload.
pub fn render_completed(
    sid: &str,
    exit_code: Option<i32>,
    execution_time_ms: u64,
    stdout: &Vec<String>,
    stderr: &Vec<String>,
) -> (r: String)
    ensures
        r@ == completed_payload(
            sid@,
            exit_code,
            execution_time_ms as nat,
            views(stdout@),
            views(stderr@),
        ),
{
    let mut out = String::from_str("{\"execution_time_ms\":");
    let t = u64_dec(execution_time_ms);
    out.append(t.as_str());
    out.append(",\"exit_code\":");
    let code: i32 = match exit_code {
        Some(c) => c,
        None => -1,
    };
    let c = i32_dec(code);
    out.append(c.as_str());
    out.append(",\"session_id\":");
    let qs = json_string(sid);
    out.append(qs.as_str());
    out.append(",\"status\":\"");
    match exit_code {
        Some(0) => out.append("completed"),
        _ => out.append("failed"),
    }
    out.append("\",\"stderr\":");
    let ae = json_string_array(stderr);
    out.append(ae.as_str());
    out.append(",\"stdout\":");
    let ao = json_string_array(stdout);
    out.append(ao.as_str());
    out.append("}");
    out
}

} // verus!
