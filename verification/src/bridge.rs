//! The decision half of the subprocess bridge.
//!
//! The bridge itself spawns a child interpreter, drains its stdout and
//! stderr through dedicated readers into a channel, and owns its stdin; all
//! of that is plumbing outside this crate. What is decided here, and proved:
//! how the drained chunks merge into one captured output, and how the
//! child's exit status — the single source of truth for success, never a
//! pattern match on output text — turns captured output into a result or a
//! diagnostic.

use vstd::prelude::*;
use crate::text::{trim_spec, trim_str, concat4};

verus! {

/// The chunks drained from a pipe, each trimmed, concatenated in arrival
/// order.
pub open spec fn merged_chunks_spec(chunks: Seq<Seq<char>>) -> Seq<char>
    decreases chunks.len(),
{
    if chunks.len() == 0 {
        Seq::empty()
    } else {
        merged_chunks_spec(chunks.drop_last()) + trim_spec(chunks.last())
    }
}

/// Merges the chunks drained from one pipe, in arrival order, trimming each.
/// Within one pipe the chunks arrive in write order, so the merge preserves
/// the child's own ordering.
pub fn merge_chunks(chunks: &Vec<String>) -> (r: String)
    ensures
        r@ == merged_chunks_spec(chunks.deep_view()),
{
    let mut acc = String::new();
    let n: usize = chunks.len();
    let mut i: usize = 0;
    while i < n
        invariant
            0 <= i <= n,
            n == chunks@.len(),
            chunks.deep_view().len() == n,
            forall|k: int| 0 <= k < n ==> chunks.deep_view()[k] == #[trigger] chunks@[k]@,
            acc@ == merged_chunks_spec(chunks.deep_view().take(i as int)),
        decreases n - i,
    {
        acc.append(trim_str(chunks[i].as_str()));
        proof {
            let dv = chunks.deep_view();
            assert(dv.take(i + 1).drop_last() =~= dv.take(i as int));
            assert(dv.take(i + 1).last() == dv[i as int]);
        }
        i = i + 1;
    }
    proof {
        assert(chunks.deep_view().take(n as int) =~= chunks.deep_view());
    }
    acc
}

/// Turns an exit status and the captured streams into the bridge's result.
/// A clean exit yields the captured stdout; anything else yields a
/// diagnostic holding the captured stdout and stderr, so nothing the child
/// reported is swallowed.
pub fn bridge_outcome(exit_ok: bool, stdout: String, stderr: &str) -> (r: Result<String, String>)
    ensures
        exit_ok ==> (r matches Ok(o) && o == stdout),
        !exit_ok ==> (r matches Err(d) && d@ == "Error: "@ + stdout@ + "\n"@ + stderr@),
{
    if exit_ok {
        Ok(stdout)
    } else {
        Err(concat4("Error: ", stdout.as_str(), "\n", stderr))
    }
}

/// Shapes one code run for the repair loop: the success flag, the code that
/// ran, and what came out — the captured output on success, the diagnostic
/// on failure. Neither branch loses the text.
pub fn run_verdict(code: String, run: Result<String, String>) -> (r: (bool, String, String))
    ensures
        match run {
            Ok(s) => r == (true, code, s),
            Err(e) => r == (false, code, e),
        },
{
    match run {
        Ok(s) => (true, code, s),
        Err(e) => (false, code, e),
    }
}

} // verus!
