//! The hardware-database aggregator: which buckets take part, which snippet
//! is published for each model, and the consolidated file.

use vstd::prelude::*;

use crate::artifacts::now_utc;
use crate::text::{
    lemma_text_lt_irreflexive, lemma_text_lt_total, lemma_text_lt_transitive, owned, push_char, same_text, text_less, text_lt,
    texts,
};

verus! {

/// The legacy release that predates hardware-database support.
pub const EXCLUDED_VERSION: &'static str = "2.1";

/// Prefix of the variables that force the snippet published for a model.
pub const OVERRIDE_PREFIX: &'static str = "OVERRIDE_BEST_";

/// Whether the version bucket takes part in aggregation.
pub fn bucket_included(version: &str) -> (r: bool)
    ensures
        r == (version@ != EXCLUDED_VERSION@),
{
    !same_text(version, EXCLUDED_VERSION)
}

/// One candidate snippet for a model: the bucket it came from, the data
/// points of its merge and the snippet's file name.
#[derive(Debug)]
pub struct Alternative {
    pub model_name: String,
    pub version: String,
    pub data_points: usize,
    pub hwdb_file: String,
}

/// Why aggregation stopped.
#[derive(Debug, Clone, Copy, PartialEq, Eq, Structural)]
pub enum AggregateError {
    /// An override names a snippet file that does not exist.
    MissingOverride,
    /// The model has no candidate snippet.
    NoAlternative,
}

/// An ASCII letter or digit.
pub open spec fn is_alnum(c: char) -> bool {
    ('a' <= c <= 'z') || ('A' <= c <= 'Z') || ('0' <= c <= '9')
}

/// `c`, or `_` where it is not an ASCII letter or digit.
pub open spec fn sanitized_char(c: char) -> char {
    if is_alnum(c) { c } else { '_' }
}

/// The name of the variable that overrides the choice for `model`.
pub open spec fn override_variable_of(model: Seq<char>) -> Seq<char> {
    OVERRIDE_PREFIX@ + model.map_values(|c: char| sanitized_char(c))
}

/// The variable that, when set, names the snippet file to publish for
/// `model_name`.
pub fn override_variable(model_name: &str) -> (r: String)
    ensures
        r@ == override_variable_of(model_name@),
{
    let mut s = owned(OVERRIDE_PREFIX);
    let n = model_name.unicode_len();
    let mut i: usize = 0;
    while i < n
        invariant
            i <= n,
            n == model_name@.len(),
            s@ == OVERRIDE_PREFIX@ + model_name@.subrange(0, i as int).map_values(
                |c: char| sanitized_char(c),
            ),
        decreases n - i,
    {
        let c = model_name.get_char(i);
        let alnum = ('a' <= c && c <= 'z') || ('A' <= c && c <= 'Z') || ('0' <= c && c <= '9');
        push_char(&mut s, if alnum { c } else { '_' });
        assert(model_name@.subrange(0, i + 1).map_values(|c: char| sanitized_char(c))
            =~= model_name@.subrange(0, i as int).map_values(|c: char| sanitized_char(c)).push(
            sanitized_char(c),
        ));
        i += 1;
    }
    assert(model_name@.subrange(0, n as int) =~= model_name@);
    s
}

/// `k` holds the best alternative for `model`: no alternative for the model
/// has more data points, and every later one has fewer.
pub open spec fn best_at(alts: Seq<Alternative>, model: Seq<char>, k: int) -> bool {
    &&& 0 <= k < alts.len()
    &&& alts[k].model_name@ == model
    &&& forall|j: int|
        0 <= j < alts.len() && (#[trigger] alts[j]).model_name@ == model ==> alts[j].data_points
            <= alts[k].data_points
    &&& forall|j: int|
        k < j < alts.len() && (#[trigger] alts[j]).model_name@ == model ==> alts[j].data_points
            < alts[k].data_points
}

/// The snippet file published for `model_name`. An override, when given,
/// wins if its file exists and is fatal if it does not; otherwise the
/// alternative with the most data points wins, the last of equals.
pub fn select_best(
    alts: &Vec<Alternative>,
    model_name: &str,
    override_file: Option<&str>,
    override_exists: bool,
) -> (r: Result<String, AggregateError>)
    ensures
        override_file is Some && override_exists ==> (r matches Ok(b) && b@ == override_file->0@),
        override_file is Some && !override_exists ==> r == Err::<String, _>(
            AggregateError::MissingOverride,
        ),
        override_file is None ==> r != Err::<String, _>(AggregateError::MissingOverride),
        override_file is None ==> (r == Err::<String, _>(AggregateError::NoAlternative) <==> forall|
            j: int,
        | 0 <= j < alts@.len() ==> (#[trigger] alts@[j]).model_name@ != model_name@),
        override_file is None ==> (r matches Ok(b) ==> exists|k: int|
            best_at(alts@, model_name@, k) && b@ == (#[trigger] alts@[k]).hwdb_file@),
{
    match override_file {
        Some(f) => {
            if override_exists {
                return Ok(owned(f));
            } else {
                return Err(AggregateError::MissingOverride);
            }
        },
        None => {},
    }
    let n = alts.len();
    let mut best: Option<usize> = None;
    let mut i: usize = 0;
    while i < n
        invariant
            i <= n,
            n == alts@.len(),
            best is None <==> forall|j: int|
                0 <= j < i ==> (#[trigger] alts@[j]).model_name@ != model_name@,
            best matches Some(k) ==> k < i && best_at(alts@.subrange(0, i as int), model_name@, k as int),
        decreases n - i,
    {
        let ghost prev = alts@.subrange(0, i as int);
        let ghost cur = alts@.subrange(0, i + 1);
        if same_text(alts[i].model_name.as_str(), model_name) {
            let take = match best {
                Some(k) => alts[k].data_points <= alts[i].data_points,
                None => true,
            };
            if take {
                assert forall|j: int| 0 <= j < cur.len() && (#[trigger] cur[j]).model_name@ == model_name@ implies cur[j].data_points <= cur[i as int].data_points by {
                    if j < i {
                        assert(cur[j] == prev[j]);
                    }
                }
                best = Some(i);
            } else {
                let k = best.unwrap();
                assert forall|j: int| 0 <= j < cur.len() && (#[trigger] cur[j]).model_name@ == model_name@ implies cur[j].data_points <= cur[k as int].data_points by {
                    if j < i {
                        assert(cur[j] == prev[j]);
                    }
                }
                assert forall|j: int| k < j < cur.len() && (#[trigger] cur[j]).model_name@ == model_name@ implies cur[j].data_points < cur[k as int].data_points by {
                    if j < i {
                        assert(cur[j] == prev[j]);
                    }
                }
            }
        } else {
            match best {
                Some(k) => {
                    assert forall|j: int| 0 <= j < cur.len() && (#[trigger] cur[j]).model_name@ == model_name@ implies cur[j].data_points <= cur[k as int].data_points by {
                        if j < i {
                            assert(cur[j] == prev[j]);
                        }
                    }
                    assert forall|j: int| k < j < cur.len() && (#[trigger] cur[j]).model_name@ == model_name@ implies cur[j].data_points < cur[k as int].data_points by {
                        if j < i {
                            assert(cur[j] == prev[j]);
                        }
                    }
                },
                None => {},
            }
        }
        i += 1;
    }
    assert(alts@.subrange(0, n as int) =~= alts@);
    match best {
        Some(k) => Ok(alts[k].hwdb_file.clone()),
        None => Err(AggregateError::NoAlternative),
    }
}

/// Strictly increasing in lexicographic order, hence without repeats.
pub open spec fn strictly_sorted(v: Seq<Seq<char>>) -> bool {
    forall|i: int, j: int| 0 <= i < j < v.len() ==> text_lt(#[trigger] v[i], #[trigger] v[j])
}

/// Two strictly sorted lists with the same members are the same list: the
/// order in which models are published depends only on which models there
/// are, not on the order their alternatives were collected in.
pub proof fn lemma_sorted_unique(a: Seq<Seq<char>>, b: Seq<Seq<char>>)
    requires
        strictly_sorted(a),
        strictly_sorted(b),
        forall|m: Seq<char>| a.contains(m) <==> b.contains(m),
    ensures
        a == b,
    decreases a.len(),
{
    if a.len() == 0 {
        if b.len() > 0 {
            assert(b.contains(b[0]));
        }
        assert(a =~= b);
    } else {
        assert(a.contains(a[0]));
        let k = choose|k: int| 0 <= k < b.len() && b[k] == a[0];
        assert(b.contains(b[0]));
        let j = choose|j: int| 0 <= j < a.len() && a[j] == b[0];
        if k > 0 {
            assert(text_lt(b[0], b[k]));
            if j == 0 {
                lemma_text_lt_irreflexive(b[0]);
            } else {
                assert(text_lt(a[0], a[j]));
                lemma_text_lt_transitive(a[0], b[0], a[0]);
                lemma_text_lt_irreflexive(a[0]);
            }
        }
        let ra = a.drop_first();
        let rb = b.drop_first();
        assert forall|i: int, l: int| 0 <= i < l < ra.len() implies text_lt(#[trigger] ra[i], #[trigger] ra[l]) by {
            assert(ra[i] == a[i + 1] && ra[l] == a[l + 1]);
        }
        assert forall|i: int, l: int| 0 <= i < l < rb.len() implies text_lt(#[trigger] rb[i], #[trigger] rb[l]) by {
            assert(rb[i] == b[i + 1] && rb[l] == b[l + 1]);
        }
        assert forall|m: Seq<char>| ra.contains(m) <==> rb.contains(m) by {
            if ra.contains(m) {
                let i = choose|i: int| 0 <= i < ra.len() && ra[i] == m;
                assert(a[i + 1] == m);
                assert(text_lt(a[0], a[i + 1]));
                lemma_text_lt_irreflexive(m);
                assert(b.contains(m));
                let q = choose|q: int| 0 <= q < b.len() && b[q] == m;
                assert(q != 0);
                assert(rb[q - 1] == m);
            }
            if rb.contains(m) {
                let i = choose|i: int| 0 <= i < rb.len() && rb[i] == m;
                assert(b[i + 1] == m);
                assert(text_lt(b[0], b[i + 1]));
                lemma_text_lt_irreflexive(m);
                assert(a.contains(m));
                let q = choose|q: int| 0 <= q < a.len() && a[q] == m;
                assert(q != 0);
                assert(ra[q - 1] == m);
            }
        }
        lemma_sorted_unique(ra, rb);
        assert(a =~= seq![a[0]] + ra);
        assert(b =~= seq![b[0]] + rb);
    }
}

/// The model names of the alternatives, each once, in lexicographic order.
pub fn sorted_models(alts: &Vec<Alternative>) -> (r: Vec<String>)
    ensures
        strictly_sorted(texts(r@)),
        forall|m: Seq<char>|
            texts(r@).contains(m) <==> exists|j: int|
                0 <= j < alts@.len() && (#[trigger] alts@[j]).model_name@ == m,
{
    let mut out: Vec<String> = Vec::new();
    let n = alts.len();
    let mut i: usize = 0;
    while i < n
        invariant
            i <= n,
            n == alts@.len(),
            strictly_sorted(texts(out@)),
            forall|m: Seq<char>|
                texts(out@).contains(m) <==> exists|j: int|
                    0 <= j < i && (#[trigger] alts@[j]).model_name@ == m,
        decreases n - i,
    {
        let x = &alts[i].model_name;
        insert_sorted(&mut out, x);
        assert forall|m: Seq<char>| texts(out@).contains(m) <==> exists|j: int|
            0 <= j < i + 1 && (#[trigger] alts@[j]).model_name@ == m by {
            if m == x@ {
                assert(alts@[i as int].model_name@ == m);
            }
        }
        i += 1;
    }
    out
}

/// Inserts `x` into a strictly sorted list unless it is there already.
fn insert_sorted(v: &mut Vec<String>, x: &String)
    requires
        strictly_sorted(texts(old(v)@)),
    ensures
        strictly_sorted(texts(final(v)@)),
        forall|m: Seq<char>| texts(final(v)@).contains(m) <==> (texts(old(v)@).contains(m) || m == x@),
{
    let n = v.len();
    let mut p: usize = 0;
    while p < n && text_less(v[p].as_str(), x.as_str())
        invariant
            p <= n,
            n == v@.len(),
            v@ == old(v)@,
            forall|j: int| 0 <= j < p ==> text_lt(#[trigger] v@[j]@, x@),
        decreases n - p,
    {
        p += 1;
    }
    let ghost t = texts(v@);
    if p < n && same_text(v[p].as_str(), x.as_str()) {
        assert(t[p as int] == x@);
        return;
    }
    proof {
        if p < n {
            lemma_text_lt_total(v@[p as int]@, x@);
            assert(text_lt(x@, t[p as int]));
            assert forall|j: int| p <= j < n implies text_lt(x@, #[trigger] t[j]) by {
                if j > p {
                    lemma_text_lt_transitive(x@, t[p as int], t[j]);
                }
            }
        }
    }
    v.insert(p, x.clone());
    let ghost u = texts(v@);
    assert(u =~= t.insert(p as int, x@));
    assert forall|i: int, j: int| 0 <= i < j < u.len() implies text_lt(#[trigger] u[i], #[trigger] u[j]) by {
        if j < p {
        } else if j == p {
        } else if i < p {
            assert(text_lt(t[i], x@));
            lemma_text_lt_transitive(t[i], x@, t[j - 1]);
        } else if i == p {
        } else {
        }
    }
    assert forall|m: Seq<char>| u.contains(m) <==> (t.contains(m) || m == x@) by {
        if t.contains(m) {
            let k = choose|k: int| 0 <= k < t.len() && t[k] == m;
            if k < p {
                assert(u[k] == m);
            } else {
                assert(u[k + 1] == m);
            }
        }
        if m == x@ {
            assert(u[p as int] == m);
        }
        if u.contains(m) {
            let k = choose|k: int| 0 <= k < u.len() && u[k] == m;
            if k < p {
                assert(t[k] == m);
            } else if k > p {
                assert(t[k - 1] == m);
            }
        }
    }
}

/// The header of the consolidated hardware-database file.
pub open spec fn header_text(date: Seq<char>, commit_id: Seq<char>) -> Seq<char> {
    "# This file is auto-generated on "@ + date + ".\n# From the following commit:\n# https://github.com/iocost-benchmark/iocost-benchmarks/commit/"@
        + commit_id
        + "\n#\n# Match key format:\n# block:<devpath>:name:<model name>:fwrev:<firmware revision>:\n"@
}

/// The header of the consolidated file, generated at `date` from the commit
/// `commit_id`.
pub fn hwdb_header_at(date: &str, commit_id: &str) -> (r: String)
    ensures
        r@ == header_text(date@, commit_id@),
{
    let mut s = owned("# This file is auto-generated on ");
    s.append(date);
    s.append(".\n# From the following commit:\n# https://github.com/iocost-benchmark/iocost-benchmarks/commit/");
    s.append(commit_id);
    s.append("\n#\n# Match key format:\n# block:<devpath>:name:<model name>:fwrev:<firmware revision>:\n");
    s
}

/// The header of the consolidated file, stamped with the current time.
pub fn write_hwdb_file_header(commit_id: &str) -> (r: String)
    ensures
        exists|date: Seq<char>| r@ == header_text(date, commit_id@),
{
    let now = now_utc();
    hwdb_header_at(now.rfc2822.as_str(), commit_id)
}

/// Each piece followed by a line break.
pub open spec fn lines_of(parts: Seq<Seq<char>>) -> Seq<char>
    decreases parts.len(),
{
    if parts.len() == 0 {
        seq![]
    } else {
        lines_of(parts.drop_last()) + parts.last() + "\n"@
    }
}

/// The consolidated file: the header, then the selected snippets, each as a
/// line of its own, in the order given.
pub fn hwdb_output(header: &str, snippets: &Vec<String>) -> (r: String)
    ensures
        r@ == header@ + "\n"@ + lines_of(texts(snippets@)),
{
    let mut s = owned(header);
    s.append("\n");
    let n = snippets.len();
    let mut i: usize = 0;
    while i < n
        invariant
            i <= n,
            n == snippets@.len(),
            s@ == header@ + "\n"@ + lines_of(texts(snippets@.subrange(0, i as int))),
        decreases n - i,
    {
        assert(texts(snippets@.subrange(0, i + 1)).drop_last() =~= texts(snippets@.subrange(0, i as int)));
        s.append(snippets[i].as_str());
        s.append("\n");
        assert(s@ =~= header@ + "\n"@ + lines_of(texts(snippets@.subrange(0, i + 1))));
        i += 1;
    }
    assert(snippets@.subrange(0, n as int) =~= snippets@);
    s
}

} // verus!
