//! The fixed search order for the child executable, and the configuration
//! tables the surrounding process consults: the relative path candidates and
//! the allowlist of environment variables forwarded to the child.

use vstd::prelude::*;
use vstd::string::StringExecFns;

verus! {

/// The bare executable name, left to system search-path resolution when no
/// candidate path exists.
pub open spec fn bare_binary_name() -> Seq<char> {
    "codex-app-server"@
}

/// Which path the locator picks, given each probe's outcome: the sibling of
/// the running executable first, then each relative candidate in order, then
/// the bare name. A probe outcome is `Some` canonical path when that
/// candidate exists.
pub open spec fn spec_locate(
    sibling: Option<Seq<char>>,
    first_relative: Option<Seq<char>>,
    second_relative: Option<Seq<char>>,
) -> Seq<char> {
    match sibling {
        Some(p) => p,
        None => match first_relative {
            Some(p) => p,
            None => match second_relative {
                Some(p) => p,
                None => bare_binary_name(),
            },
        },
    }
}

/// Picks the child executable's path from the three probe outcomes, earliest
/// existing candidate first.
pub fn locate_binary(
    sibling: Option<String>,
    first_relative: Option<String>,
    second_relative: Option<String>,
) -> (r: String)
    ensures
        r@ == spec_locate(
            match sibling {
                Some(p) => Some(p@),
                None => None,
            },
            match first_relative {
                Some(p) => Some(p@),
                None => None,
            },
            match second_relative {
                Some(p) => Some(p@),
                None => None,
            },
        ),
{
    match sibling {
        Some(p) => p,
        None => match first_relative {
            Some(p) => p,
            None => match second_relative {
                Some(p) => p,
                None => String::from_str("codex-app-server"),
            },
        },
    }
}

/// The two relative path candidates probed after the sibling of the running
/// executable, in their fixed order.
pub fn candidate_paths() -> (v: Vec<String>)
    ensures
        v@.len() == 2,
        v@[0]@ == "./codex-app-server"@,
        v@[1]@ == "../app-server/target/release/codex-app-server"@,
{
    let mut v: Vec<String> = Vec::new();
    v.push(String::from_str("./codex-app-server"));
    v.push(String::from_str("../app-server/target/release/codex-app-server"));
    v
}

/// The allowlist of environment variables forwarded verbatim into the child
/// when present: the provider credentials first, then the configuration and
/// runtime-behavior variables.
pub fn env_allowlist() -> (v: Vec<String>)
    ensures
        v@.len() == 7,
        v@[0]@ == "ANTHROPIC_API_KEY"@,
        v@[1]@ == "OPENAI_API_KEY"@,
        v@[2]@ == "OPENROUTER_API_KEY"@,
        v@[3]@ == "GOOGLE_API_KEY"@,
        v@[4]@ == "CODEX_CONFIG_PATH"@,
        v@[5]@ == "RUST_LOG"@,
        v@[6]@ == "CODEX_UNSAFE_ALLOW_NO_SANDBOX"@,
{
    let mut v: Vec<String> = Vec::new();
    v.push(String::from_str("ANTHROPIC_API_KEY"));
    v.push(String::from_str("OPENAI_API_KEY"));
    v.push(String::from_str("OPENROUTER_API_KEY"));
    v.push(String::from_str("GOOGLE_API_KEY"));
    v.push(String::from_str("CODEX_CONFIG_PATH"));
    v.push(String::from_str("RUST_LOG"));
    v.push(String::from_str("CODEX_UNSAFE_ALLOW_NO_SANDBOX"));
    v
}

} // verus!
