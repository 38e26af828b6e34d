//! The finished-execution record handed to the archival collaborator, and the
//! name under which it would be stored.

use vstd::prelude::*;
use vstd::string::StringExecFns;
use crate::textfmt::push_char;

verus! {

/// Everything kept of one finished session. Built exactly once, when the
/// terminal event is emitted; the timestamp is the caller's clock reading in
/// RFC 3339 text, and the metadata is a free-form JSON document.
pub struct SessionPersistData {
    pub session_id: String,
    pub prompt: String,
    pub exit_code: i32,
    pub status: String,
    pub execution_time_ms: u64,
    pub stdout: Vec<String>,
    pub stderr: Vec<String>,
    pub created_files: Option<Vec<String>>,
    pub timestamp: String,
    pub metadata: String,
}

/// The object name a record is archived under: its session identifier and
/// timestamp, inside a fixed directory.
pub open spec fn object_name(sid: Seq<char>, timestamp: Seq<char>) -> Seq<char> {
    "sessions/"@ + sid + seq!['-'] + timestamp + ".json"@
}

/// Renders the archival object name for a record.
pub fn storage_object_name(rec: &SessionPersistData) -> (r: String)
    ensures
        r@ == object_name(rec.session_id@, rec.timestamp@),
{
    let mut out = String::from_str("sessions/");
    out.append(rec.session_id.as_str());
    push_char(&mut out, '-');
    out.append(rec.timestamp.as_str());
    out.append(".json");
    proof {
        assert(out@ =~= "sessions/"@ + rec.session_id@ + seq!['-'] + rec.timestamp@ + ".json"@);
    }
    out
}

} // verus!
