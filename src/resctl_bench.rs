//! Direct use of a benchmark binary: its version and a trial merge.

use vstd::prelude::*;

use crate::engine::EngineFailure;
use crate::text::{owned, texts};

verus! {

/// The version of the benchmark binary; no check is made yet.
pub fn get_version() -> (r: Result<(), EngineFailure>)
    ensures
        r is Ok,
{
    Ok(())
}

/// Why a trial merge cannot start.
#[derive(Debug, Clone, Copy, PartialEq, Eq, Structural)]
pub enum TrialMergeError {
    /// The input file at this position does not exist.
    MissingInput(usize),
}

/// The two runs of a trial merge of `input_files` (whether each exists is
/// given in `exists`): a merge into `out.json.gz`, then its summary. Fails
/// on the first input that does not exist.
pub fn merge(input_files: &Vec<String>, exists: &Vec<bool>) -> (r: Result<Vec<Vec<String>>, TrialMergeError>)
    requires
        input_files@.len() == exists@.len(),
    ensures
        r matches Err(TrialMergeError::MissingInput(k)) ==> k < exists@.len() && !exists@[k as int]
            && forall|j: int| 0 <= j < k ==> exists@[j],
        r is Ok <==> forall|j: int| 0 <= j < exists@.len() ==> exists@[j],
        r matches Ok(runs) ==> runs@.len() == 2 && texts(runs@[0]@) == seq![
            "--result=out.json.gz"@,
            "merge"@,
        ] + texts(input_files@) && texts(runs@[1]@) == seq!["--result=out.json.gz"@, "summary"@],
{
    let n = input_files.len();
    let mut args = vec![owned("--result=out.json.gz"), owned("merge")];
    let mut i: usize = 0;
    while i < n
        invariant
            i <= n,
            n == input_files@.len(),
            n == exists@.len(),
            forall|j: int| 0 <= j < i ==> exists@[j],
            texts(args@) == seq!["--result=out.json.gz"@, "merge"@] + texts(
                input_files@.subrange(0, i as int),
            ),
        decreases n - i,
    {
        if !exists[i] {
            return Err(TrialMergeError::MissingInput(i));
        }
        let ghost before = args@;
        args.push(input_files[i].clone());
        assert(texts(args@) =~= texts(before).push(input_files@[i as int]@));
        assert(texts(input_files@.subrange(0, i + 1)) =~= texts(input_files@.subrange(0, i as int)).push(input_files@[i as int]@));
        i += 1;
    }
    assert(input_files@.subrange(0, n as int) =~= input_files@);
    let summary = vec![owned("--result=out.json.gz"), owned("summary")];
    assert(texts(summary@) =~= seq!["--result=out.json.gz"@, "summary"@]);
    Ok(vec![args, summary])
}

} // verus!
