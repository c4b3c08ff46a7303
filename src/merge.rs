//! The merge orchestrator: which files a merge covers, how many data points
//! a merged result holds, and whether a firmware-specific merge is kept.

use vstd::prelude::*;

use crate::json::{deref_opt, opt_field, then_field, text_of, Json};
use crate::store::{merged_file, merged_file_of};
use crate::text::{
    lemma_text_lt_irreflexive, lemma_text_lt_transitive, owned, text_less, text_lt, texts,
};
use crate::version::BenchVersion;

verus! {

/// A firmware-specific merge must hold at least this many data points.
pub const MINIMUM_DATA_POINTS: usize = 4;

/// A firmware-specific merge must differ from the bucket-wide one by at
/// least this many data points.
pub const MINIMUM_DIFFERENT_RESULTS: usize = 1;

/// Why a merge could not be completed.
#[derive(Debug, Clone, Copy, PartialEq, Eq, Structural)]
pub enum MergeError {
    /// The merged result holds no tuning result.
    MissingTuneResult,
    /// The data-point count does not fit the machine word.
    TooManyDataPoints,
}

/// The merge restricted to the files of the most recent firmware revision.
#[derive(Debug)]
pub struct BenchFWMerge {
    pub fwrev: String,
    pub path: String,
    pub data_points: usize,
}

/// The merge of every result file of one (version, model) bucket.
#[derive(Debug)]
pub struct BenchMerge {
    pub version: BenchVersion,
    pub version_str: String,
    pub model_name: String,
    pub path: String,
    pub data_points: usize,
    pub fwmerge: Option<BenchFWMerge>,
}

/// `--result <output> merge <files...>`.
pub open spec fn merge_args_of(output_path: Seq<char>, files: Seq<Seq<char>>) -> Seq<Seq<char>> {
    seq!["--result"@, output_path, "merge"@] + files
}

/// The engine arguments that merge `files` into `output_path`.
pub fn merge_arguments(output_path: &str, files: &Vec<String>) -> (r: Vec<String>)
    ensures
        texts(r@) == merge_args_of(output_path@, texts(files@)),
{
    let mut r = vec![owned("--result"), owned(output_path), owned("merge")];
    let n = files.len();
    let mut i: usize = 0;
    while i < n
        invariant
            i <= n,
            n == files@.len(),
            texts(r@) == merge_args_of(output_path@, texts(files@.subrange(0, i as int))),
        decreases n - i,
    {
        let ghost before = r@;
        r.push(files[i].clone());
        assert(texts(r@) =~= texts(before).push(files@[i as int]@));
        assert(texts(files@.subrange(0, i + 1)) =~= texts(files@.subrange(0, i as int)).push(
            files@[i as int]@,
        ));
        assert(texts(r@) =~= merge_args_of(output_path@, texts(files@.subrange(0, i + 1))));
        i += 1;
    }
    assert(files@.subrange(0, n as int) =~= files@);
    r
}

/// The element count of an optional array (none for anything else).
pub open spec fn count_of(o: Option<Json>) -> nat {
    match o {
        Some(v) => v.member_count(),
        None => 0,
    }
}

/// The report is the tuning result.
pub open spec fn is_tune_result(m: Json) -> bool {
    text_of(then_field(then_field(Some(m), "spec"@), "kind"@)) == Some("iocost-tune"@)
}

/// The primary metric of a tuning result.
pub open spec fn primary_metric(m: Json) -> Option<Json> {
    then_field(then_field(then_field(Some(m), "result"@), "data"@), "MOF"@)
}

/// Samples plus outliers of the primary metric.
pub open spec fn data_count(m: Json) -> nat {
    count_of(then_field(primary_metric(m), "data"@)) + count_of(then_field(primary_metric(m), "outliers"@))
}

/// The reports of a merged result.
pub open spec fn reports(merged: Json) -> Seq<Json> {
    match merged {
        Json::Array(a) => a@,
        _ => seq![],
    }
}

/// `k` is the first tuning result among `reports`.
pub open spec fn first_tune_at(reports: Seq<Json>, k: int) -> bool {
    &&& 0 <= k < reports.len()
    &&& is_tune_result(reports[k])
    &&& forall|j: int| 0 <= j < k ==> !is_tune_result(#[trigger] reports[j])
}

fn count_members(o: Option<&Json>) -> (r: usize)
    ensures
        r == count_of(deref_opt(o)),
{
    match o {
        Some(v) => v.members_len(),
        None => 0,
    }
}

/// The data points of a merged result: the samples and outliers of the
/// primary metric of its first tuning result.
pub fn get_data_points(merged: &Json) -> (r: Result<usize, MergeError>)
    ensures
        r == Err::<usize, _>(MergeError::MissingTuneResult) <==> forall|k: int|
            0 <= k < reports(*merged).len() ==> !is_tune_result(#[trigger] reports(*merged)[k]),
        r matches Ok(n) ==> exists|k: int|
            first_tune_at(reports(*merged), k) && n == data_count(#[trigger] reports(*merged)[k]),
        r == Err::<usize, _>(MergeError::TooManyDataPoints) ==> exists|k: int|
            first_tune_at(reports(*merged), k) && data_count(#[trigger] reports(*merged)[k])
                > usize::MAX,
{
    let n = merged.members_len();
    let mut i: usize = 0;
    while i < n
        invariant
            i <= n,
            n == reports(*merged).len(),
            forall|j: int| 0 <= j < i ==> !is_tune_result(#[trigger] reports(*merged)[j]),
        decreases n - i,
    {
        let m = match merged.item(i) {
            Some(m) => m,
            None => return Err(MergeError::MissingTuneResult),
        };
        assert(*m == reports(*merged)[i as int]);
        let kind = opt_field(opt_field(Some(m), "spec"), "kind");
        let is_tune = match kind {
            Some(k) => k.is_text("iocost-tune"),
            None => false,
        };
        if is_tune {
            let metric = opt_field(opt_field(opt_field(Some(m), "result"), "data"), "MOF");
            let samples = count_members(opt_field(metric, "data"));
            let outliers = count_members(opt_field(metric, "outliers"));
            assert(first_tune_at(reports(*merged), i as int));
            return match samples.checked_add(outliers) {
                Some(total) => Ok(total),
                None => Err(MergeError::TooManyDataPoints),
            };
        }
        i += 1;
    }
    Err(MergeError::MissingTuneResult)
}

/// `a` and `b` differ by at least `MINIMUM_DIFFERENT_RESULTS` and the
/// firmware-specific count reaches `MINIMUM_DATA_POINTS`.
pub open spec fn firmware_merge_kept(fw_points: int, generic_points: int) -> bool {
    &&& (fw_points - generic_points >= MINIMUM_DIFFERENT_RESULTS || generic_points - fw_points
        >= MINIMUM_DIFFERENT_RESULTS)
    &&& fw_points >= MINIMUM_DATA_POINTS
}

/// Whether a firmware-specific merge with `fw_points` data points is kept
/// beside a bucket-wide merge with `generic_points`.
pub fn keep_firmware_merge(fw_points: usize, generic_points: usize) -> (r: bool)
    ensures
        r == firmware_merge_kept(fw_points as int, generic_points as int),
{
    let diff = if fw_points >= generic_points {
        fw_points - generic_points
    } else {
        generic_points - fw_points
    };
    diff >= MINIMUM_DIFFERENT_RESULTS && fw_points >= MINIMUM_DATA_POINTS
}

/// A firmware-specific merge whose count is within one data point of the
/// bucket-wide merge is discarded.
pub proof fn lemma_close_counts_discarded(fw_points: int, generic_points: int)
    requires
        -1 < fw_points - generic_points < 1,
    ensures
        !firmware_merge_kept(fw_points, generic_points),
{
}

/// A firmware-specific merge with fewer than `MINIMUM_DATA_POINTS` data
/// points is discarded, however far it is from the bucket-wide merge.
pub proof fn lemma_small_merge_discarded(fw_points: int, generic_points: int)
    requires
        fw_points < MINIMUM_DATA_POINTS,
    ensures
        !firmware_merge_kept(fw_points, generic_points),
{
}

/// The firmware-specific merge of revision `fwrev`, written to `path` with
/// `data_points`, kept only where [`keep_firmware_merge`] says so; when it
/// is not, the caller deletes `path`.
pub fn try_fwmerge(fwrev: String, path: String, data_points: usize, common_data_points: usize) -> (r:
    Option<BenchFWMerge>)
    ensures
        r is Some <==> firmware_merge_kept(data_points as int, common_data_points as int),
        r matches Some(m) ==> m.fwrev@ == fwrev@ && m.path@ == path@ && m.data_points
            == data_points,
{
    if keep_firmware_merge(data_points, common_data_points) {
        Some(BenchFWMerge { fwrev, path, data_points })
    } else {
        None
    }
}

/// The optional string is present and holds `r`.
pub open spec fn holds_text(o: Option<String>, r: Seq<char>) -> bool {
    o matches Some(x) && x@ == r
}

/// `r` is a revision of `revs` that no revision of `revs` exceeds.
pub open spec fn is_latest_revision(revs: Seq<Option<String>>, r: Seq<char>) -> bool {
    &&& exists|i: int| 0 <= i < revs.len() && holds_text(#[trigger] revs[i], r)
    &&& forall|j: int|
        0 <= j < revs.len() ==> ((#[trigger] revs[j]) matches Some(x) ==> !text_lt(r, x@))
}

/// The most recent firmware revision among `revs`, by plain string order;
/// `None` when no file reports one.
pub fn latest_revision(revs: &Vec<Option<String>>) -> (r: Option<String>)
    ensures
        r is None <==> forall|j: int| 0 <= j < revs@.len() ==> (#[trigger] revs@[j]) is None,
        r matches Some(x) ==> is_latest_revision(revs@, x@),
{
    let n = revs.len();
    let mut best: Option<String> = None;
    let mut i: usize = 0;
    while i < n
        invariant
            i <= n,
            n == revs@.len(),
            best is None <==> forall|j: int| 0 <= j < i ==> (#[trigger] revs@[j]) is None,
            best matches Some(b) ==> is_latest_revision(revs@.subrange(0, i as int), b@),
        decreases n - i,
    {
        let ghost prefix = revs@.subrange(0, i + 1);
        match &revs[i] {
            Some(x) => {
                let take = match &best {
                    Some(b) => text_less(b.as_str(), x.as_str()),
                    None => true,
                };
                if take {
                    proof {
                        assert(prefix[i as int] == revs@[i as int]);
                        assert forall|j: int| 0 <= j < prefix.len() implies ((#[trigger] prefix[j]) matches Some(y) ==> !text_lt(x@, y@)) by {
                            if j < i {
                                if let Some(y) = prefix[j] {
                                    assert(revs@.subrange(0, i as int)[j] == prefix[j]);
                                    if text_lt(x@, y@) {
                                        let b = best->0;
                                        lemma_text_lt_transitive(b@, x@, y@);
                                    }
                                }
                            } else {
                                lemma_text_lt_irreflexive(x@);
                            }
                        }
                    }
                    best = Some(x.clone());
                } else {
                    proof {
                        let b = best->0;
                        let k = choose|k: int| 0 <= k < i && holds_text(#[trigger] revs@.subrange(0, i as int)[k], b@);
                        assert(prefix[k] == revs@.subrange(0, i as int)[k]);
                        assert forall|j: int| 0 <= j < prefix.len() implies ((#[trigger] prefix[j]) matches Some(y) ==> !text_lt(b@, y@)) by {
                            if j < i {
                                assert(revs@.subrange(0, i as int)[j] == prefix[j]);
                            }
                        }
                    }
                }
            },
            None => {
                proof {
                    if best is Some {
                        let b = best->0;
                        let k = choose|k: int| 0 <= k < i && holds_text(#[trigger] revs@.subrange(0, i as int)[k], b@);
                        assert(prefix[k] == revs@.subrange(0, i as int)[k]);
                        assert forall|j: int| 0 <= j < prefix.len() implies ((#[trigger] prefix[j]) matches Some(y) ==> !text_lt(b@, y@)) by {
                            if j < i {
                                assert(revs@.subrange(0, i as int)[j] == prefix[j]);
                            }
                        }
                    }
                }
            },
        }
        i += 1;
    }
    assert(revs@.subrange(0, n as int) =~= revs@);
    best
}

/// The files whose revision is `rev`, in order.
pub open spec fn files_of_revision(
    files: Seq<Seq<char>>,
    revs: Seq<Option<String>>,
    rev: Seq<char>,
) -> Seq<Seq<char>>
    decreases files.len(),
{
    if files.len() == 0 {
        seq![]
    } else {
        let prev = files_of_revision(files.drop_last(), revs.subrange(0, files.len() - 1), rev);
        if holds_text(revs[files.len() - 1], rev) {
            prev.push(files.last())
        } else {
            prev
        }
    }
}

/// What a firmware-specific merge runs on and writes.
pub struct FirmwarePlan {
    /// The most recent firmware revision.
    pub fwrev: String,
    /// The result files of that revision.
    pub files: Vec<String>,
    /// Where the merge is written.
    pub output_path: String,
    /// The engine arguments of the merge.
    pub args: Vec<String>,
}

/// Plans the firmware-specific merge of a bucket whose result files `files`
/// report the revisions `revs` (one each): the files of the most recent
/// revision, merged to that revision's merged file. `None` when no file
/// reports a revision.
pub fn plan_fwmerge(version: &str, model_name: &str, files: &Vec<String>, revs: &Vec<Option<String>>) -> (r:
    Option<FirmwarePlan>)
    requires
        files@.len() == revs@.len(),
    ensures
        r is None <==> forall|j: int| 0 <= j < revs@.len() ==> (#[trigger] revs@[j]) is None,
        r matches Some(p) ==> {
            &&& is_latest_revision(revs@, p.fwrev@)
            &&& texts(p.files@) == files_of_revision(texts(files@), revs@, p.fwrev@)
            &&& p.output_path@ == merged_file_of(version@, model_name@, Some(p.fwrev@))
            &&& texts(p.args@) == merge_args_of(p.output_path@, texts(p.files@))
        },
{
    let fwrev = match latest_revision(revs) {
        Some(x) => x,
        None => return None,
    };
    let n = files.len();
    let mut chosen: Vec<String> = Vec::new();
    let mut i: usize = 0;
    while i < n
        invariant
            i <= n,
            n == files@.len(),
            n == revs@.len(),
            texts(chosen@) == files_of_revision(
                texts(files@.subrange(0, i as int)),
                revs@.subrange(0, i as int),
                fwrev@,
            ),
        decreases n - i,
    {
        let ghost fs = texts(files@.subrange(0, i + 1));
        let ghost rs = revs@.subrange(0, i + 1);
        assert(fs.drop_last() =~= texts(files@.subrange(0, i as int)));
        assert(rs.subrange(0, fs.len() - 1) =~= revs@.subrange(0, i as int));
        assert(rs[fs.len() - 1] == revs@[i as int]);
        let same = match &revs[i] {
            Some(x) => crate::text::same_text(x.as_str(), fwrev.as_str()),
            None => false,
        };
        if same {
            let ghost before = chosen@;
            chosen.push(files[i].clone());
            assert(texts(chosen@) =~= texts(before).push(files@[i as int]@));
        }
        i += 1;
    }
    assert(files@.subrange(0, n as int) =~= files@);
    assert(revs@.subrange(0, n as int) =~= revs@);
    let output_path = merged_file(version, model_name, Some(fwrev.as_str()));
    let args = merge_arguments(output_path.as_str(), &chosen);
    Some(FirmwarePlan { fwrev, files: chosen, output_path, args })
}

impl BenchMerge {
    /// The merge of the bucket of `version_str` and `model_name`, written to
    /// the bucket's merged file, with its data points and the firmware merge
    /// that was kept, if any.
    pub fn merge(
        version: BenchVersion,
        version_str: &str,
        model_name: &str,
        data_points: usize,
        fwmerge: Option<BenchFWMerge>,
    ) -> (r: Self)
        ensures
            r.version == version,
            r.version_str@ == version_str@,
            r.model_name@ == model_name@,
            r.path@ == merged_file_of(version_str@, model_name@, None),
            r.data_points == data_points,
            r.fwmerge == fwmerge,
    {
        BenchMerge {
            version,
            version_str: owned(version_str),
            model_name: owned(model_name),
            path: merged_file(version_str, model_name, None),
            data_points,
            fwmerge,
        }
    }
}

} // verus!
