//! The content store: content-addressed names for result files and the
//! directory layout of the database.

use vstd::prelude::*;

use crate::text::{owned, push_char};

verus! {

/// The MD5 digest of a byte sequence.
pub uninterp spec fn md5_of(data: Seq<u8>) -> Seq<u8>;

/// Relies on `md5::compute`: the 16 bytes of the MD5 digest of `data`, which
/// depend on the bytes alone.
#[verifier::external_body]
fn md5_digest(data: &[u8]) -> (r: Vec<u8>)
    ensures
        r@ == md5_of(data@),
        r@.len() == 16,
{
    md5::compute(data).0.to_vec()
}

/// The lower-case hexadecimal digit of `d` (below 16).
pub open spec fn hex_char(d: int) -> char {
    if d == 0 { '0' } else if d == 1 { '1' } else if d == 2 { '2' } else if d == 3 { '3' }
    else if d == 4 { '4' } else if d == 5 { '5' } else if d == 6 { '6' } else if d == 7 { '7' }
    else if d == 8 { '8' } else if d == 9 { '9' } else if d == 10 { 'a' } else if d == 11 { 'b' }
    else if d == 12 { 'c' } else if d == 13 { 'd' } else if d == 14 { 'e' } else { 'f' }
}

/// Two lower-case hexadecimal digits per byte, most significant first.
pub open spec fn hex_of(b: Seq<u8>) -> Seq<char>
    decreases b.len(),
{
    if b.len() == 0 {
        seq![]
    } else {
        hex_of(b.drop_last()) + seq![hex_char(b.last() as int / 16), hex_char(b.last() as int % 16)]
    }
}

/// The stored name of a result file whose digest is `digest`.
pub open spec fn name_for_digest(digest: Seq<u8>) -> Seq<char> {
    "result-"@ + hex_of(digest) + ".json.gz"@
}

/// The stored name of a result file with these contents.
pub open spec fn stored_name(contents: Seq<u8>) -> Seq<char> {
    name_for_digest(md5_of(contents))
}

fn hex_digit(d: u8) -> (c: char)
    requires
        d < 16,
    ensures
        c == hex_char(d as int),
{
    if d == 0 { '0' } else if d == 1 { '1' } else if d == 2 { '2' } else if d == 3 { '3' }
    else if d == 4 { '4' } else if d == 5 { '5' } else if d == 6 { '6' } else if d == 7 { '7' }
    else if d == 8 { '8' } else if d == 9 { '9' } else if d == 10 { 'a' } else if d == 11 { 'b' }
    else if d == 12 { 'c' } else if d == 13 { 'd' } else if d == 14 { 'e' } else { 'f' }
}

/// `result-<hex digest>.json.gz` for the given digest bytes.
pub fn result_file_name_for_digest(digest: &[u8]) -> (r: String)
    ensures
        r@ == name_for_digest(digest@),
        r@.len() == 2 * digest@.len() + 15,
{
    proof {
        reveal_strlit("result-");
        reveal_strlit(".json.gz");
    }
    let mut s = owned("result-");
    let n = digest.len();
    let mut i: usize = 0;
    while i < n
        invariant
            i <= n,
            n == digest@.len(),
            s@ == "result-"@ + hex_of(digest@.subrange(0, i as int)),
            s@.len() == 2 * i + 7,
        decreases n - i,
    {
        let b = digest[i];
        push_char(&mut s, hex_digit(b / 16));
        push_char(&mut s, hex_digit(b % 16));
        assert(digest@.subrange(0, i + 1).drop_last() =~= digest@.subrange(0, i as int));
        assert(s@ =~= "result-"@ + hex_of(digest@.subrange(0, i + 1)));
        i += 1;
    }
    assert(digest@.subrange(0, n as int) =~= digest@);
    s.append(".json.gz");
    s
}

/// The content-addressed name under which a downloaded result file is
/// stored: the same bytes always get the same name.
pub fn result_file_name(contents: &[u8]) -> (r: String)
    ensures
        r@ == stored_name(contents@),
        r@.len() == 47,
{
    let digest = md5_digest(contents);
    result_file_name_for_digest(digest.as_slice())
}

/// Storing byte-identical contents twice yields the same stored name.
pub proof fn lemma_store_idempotent(a: Seq<u8>, b: Seq<u8>)
    requires
        a == b,
    ensures
        stored_name(a) == stored_name(b),
{
}

/// `database/<version>/<model>`.
pub open spec fn database_dir_of(version: Seq<char>, model_name: Seq<char>) -> Seq<char> {
    "database/"@ + version + "/"@ + model_name
}

/// The database directory of the bucket of `version` and `model_name`.
pub fn database_directory(version: &str, model_name: &str) -> (r: String)
    ensures
        r@ == database_dir_of(version@, model_name@),
{
    let mut s = owned("database/");
    s.append(version);
    s.append("/");
    s.append(model_name);
    s
}

/// `merged-results/<version>-<model>-[<detail>-]merged-results.json.gz`.
pub open spec fn merged_file_of(
    version: Seq<char>,
    model_name: Seq<char>,
    detail: Option<Seq<char>>,
) -> Seq<char> {
    let d = match detail {
        Some(d) => d + "-"@,
        None => seq![],
    };
    "merged-results/"@ + version + "-"@ + model_name + "-"@ + d + "merged-results.json.gz"@
}

/// The characters of an optional string.
pub open spec fn opt_text(o: Option<&str>) -> Option<Seq<char>> {
    match o {
        Some(s) => Some(s@),
        None => None,
    }
}

/// Where the merge of a bucket (or of one firmware revision of it, named by
/// `detail`) is written.
pub fn merged_file(version: &str, model_name: &str, detail: Option<&str>) -> (r: String)
    ensures
        r@ == merged_file_of(version@, model_name@, opt_text(detail)),
{
    let mut s = owned("merged-results/");
    s.append(version);
    s.append("-");
    s.append(model_name);
    s.append("-");
    match detail {
        Some(d) => {
            s.append(d);
            s.append("-");
        },
        None => {},
    }
    s.append("merged-results.json.gz");
    s
}

/// `rest` appended to `base` as a path: an absolute `rest` replaces `base`,
/// and a separator is put between them where `base` has none at its end.
pub open spec fn path_join(base: Seq<char>, rest: Seq<char>) -> Seq<char> {
    if rest.len() > 0 && rest[0] == '/' {
        rest
    } else if base.len() == 0 {
        rest
    } else if base.last() == '/' {
        base + rest
    } else {
        base + "/"@ + rest
    }
}

/// Joins two paths as [`path_join`] states.
pub fn join_path(base: &str, rest: &str) -> (r: String)
    ensures
        r@ == path_join(base@, rest@),
{
    let n = base.unicode_len();
    if rest.unicode_len() > 0 && rest.get_char(0) == '/' {
        return owned(rest);
    }
    if n == 0 {
        return owned(rest);
    }
    let mut s = owned(base);
    if base.get_char(n - 1) != '/' {
        s.append("/");
    }
    s.append(rest);
    s
}

/// The index of the last `c` in `s`, or -1.
pub open spec fn last_index_of(s: Seq<char>, c: char) -> int
    decreases s.len(),
{
    if s.len() == 0 {
        -1
    } else if s.last() == c {
        s.len() - 1
    } else {
        last_index_of(s.drop_last(), c)
    }
}

pub(crate) proof fn lemma_last_index_bounds(s: Seq<char>, c: char)
    ensures
        -1 <= last_index_of(s, c) < s.len(),
        last_index_of(s, c) >= 0 ==> s[last_index_of(s, c)] == c,
    decreases s.len(),
{
    if s.len() > 0 && s.last() != c {
        lemma_last_index_bounds(s.drop_last(), c);
    }
}

pub(crate) fn find_last(s: &str, c: char) -> (r: Option<usize>)
    ensures
        r is None ==> last_index_of(s@, c) == -1,
        r matches Some(k) ==> k == last_index_of(s@, c),
{
    let n = s.unicode_len();
    let mut i: usize = n;
    assert(s@.subrange(0, n as int) =~= s@);
    while i > 0
        invariant
            i <= n,
            n == s@.len(),
            last_index_of(s@, c) == last_index_of(s@.subrange(0, i as int), c),
        decreases i,
    {
        assert(s@.subrange(0, i as int).drop_last() =~= s@.subrange(0, i - 1));
        if s.get_char(i - 1) == c {
            return Some(i - 1);
        }
        i -= 1;
    }
    None
}

/// The path without the extension of its last component: the text from the
/// last `.` of the file name on, unless that `.` opens the file name.
pub open spec fn strip_extension(p: Seq<char>) -> Seq<char> {
    let slash = last_index_of(p, '/');
    let dot = last_index_of(p, '.');
    if dot > slash + 1 {
        p.subrange(0, dot)
    } else {
        p
    }
}

/// Removes the extension of the last path component, as [`strip_extension`]
/// states.
pub fn without_extension(p: &str) -> (r: String)
    ensures
        r@ == strip_extension(p@),
{
    proof {
        lemma_last_index_bounds(p@, '.');
        lemma_last_index_bounds(p@, '/');
    }
    match find_last(p, '.') {
        None => owned(p),
        Some(dot) => {
            let opens_name = match find_last(p, '/') {
                None => dot == 0,
                Some(slash) => dot <= slash || dot - slash == 1,
            };
            if opens_name {
                owned(p)
            } else {
                owned(p.substring_char(0, dot))
            }
        },
    }
}

} // verus!
