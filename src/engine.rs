//! Runs of the external benchmark engine: where its binary lives and how
//! the outcome of a run is judged.

use vstd::prelude::*;

use crate::text::{owned, texts};

verus! {

/// A run of the engine that failed: the arguments it was given, its exit
/// status if it exited, and what it wrote on standard error.
#[derive(Debug)]
pub struct EngineFailure {
    pub args: Vec<String>,
    pub status: Option<i32>,
    pub stderr: String,
}

/// `./resctl-demo-v<version>/resctl-bench`.
pub open spec fn bench_path_of(version: Seq<char>) -> Seq<char> {
    "./resctl-demo-v"@ + version + "/resctl-bench"@
}

/// The engine binary of release `version`.
pub fn bench_path(version: &str) -> (r: String)
    ensures
        r@ == bench_path_of(version@),
{
    let mut s = owned("./resctl-demo-v");
    s.append(version);
    s.append("/resctl-bench");
    s
}

/// Judges a finished run: any output on standard error is a failure,
/// whatever the exit status; otherwise the standard output is the result.
pub fn run_resctl(args: Vec<String>, status: Option<i32>, stdout: String, stderr: String) -> (r:
    Result<String, EngineFailure>)
    ensures
        stderr@.len() == 0 <==> r is Ok,
        r matches Ok(out) ==> out@ == stdout@,
        r matches Err(f) ==> texts(f.args@) == texts(args@) && f.status == status && f.stderr@
            == stderr@,
{
    if stderr.unicode_len() == 0 {
        Ok(stdout)
    } else {
        Err(EngineFailure { args, status, stderr })
    }
}

} // verus!
