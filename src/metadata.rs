//! The metadata extractor: engine version bucket and device model of a
//! result file, and where the file goes in the database.

use vstd::prelude::*;

use crate::engine::EngineFailure;
use crate::ingest::Rejection;
use crate::json::{opt_field, opt_text, text_of, then_field, Json};
use crate::store::{join_path, path_join, strip_extension, without_extension};
use crate::text::{collapse_spaces, collapse_white_space, decimal, owned, push_decimal, split_white_space, texts, ws_tokens};
use crate::version::{parse_major_minor, semver_parse};

verus! {

/// The system information section of the first report of a result file.
pub open spec fn sysinfo(doc: Json) -> Option<Json> {
    then_field(doc.item_spec(0), "sysinfo"@)
}

/// The free-text engine version that wrote the result.
pub open spec fn reported_version(doc: Json) -> Option<Seq<char>> {
    text_of(then_field(sysinfo(doc), "bench_version"@))
}

/// A field of the system-requirements report.
pub open spec fn sysreqs_text(doc: Json, key: Seq<char>) -> Option<Seq<char>> {
    text_of(then_field(then_field(sysinfo(doc), "sysreqs_report"@), key))
}

/// The free-text device model.
pub open spec fn reported_model(doc: Json) -> Option<Seq<char>> {
    sysreqs_text(doc, "scr_dev_model"@)
}

/// The firmware revision of the device, absent on old engine versions.
pub open spec fn reported_fwrev(doc: Json) -> Option<Seq<char>> {
    sysreqs_text(doc, "scr_dev_fwrev"@)
}

/// `<major>.<minor>` of a semantic version text.
pub open spec fn version_bucket_of(full: Seq<char>) -> Option<Seq<char>> {
    match semver_parse(full) {
        Some((major, minor)) => Some(decimal(major as nat) + "."@ + decimal(minor as nat)),
        None => None,
    }
}

/// Why the metadata of a result file could not be read.
#[derive(Debug, Clone, Copy, PartialEq, Eq, Structural)]
pub enum MetadataError {
    /// The engine version field is absent or not a string.
    MissingVersion,
    /// The engine version does not start with a semantic version.
    InvalidVersion,
    /// The device model field is absent or not a string.
    MissingModel,
}

/// The version bucket and the normalized model name of a result file.
pub open spec fn extracted(doc: Json) -> Result<(Seq<char>, Seq<char>), MetadataError> {
    match reported_version(doc) {
        None => Err(MetadataError::MissingVersion),
        Some(v) => if ws_tokens(v).len() == 0 {
            Err(MetadataError::InvalidVersion)
        } else {
            match version_bucket_of(ws_tokens(v)[0]) {
                None => Err(MetadataError::InvalidVersion),
                Some(bucket) => match reported_model(doc) {
                    None => Err(MetadataError::MissingModel),
                    Some(m) => Ok((bucket, collapse_white_space(m))),
                },
            }
        },
    }
}

/// The firmware revision of a result file, if it reports one.
pub fn firmware_revision(doc: &Json) -> (r: Option<&String>)
    ensures
        r matches Some(s) ==> reported_fwrev(*doc) == Some(s@),
        r is None ==> reported_fwrev(*doc) is None,
{
    let report = opt_field(opt_field(opt_field(doc.item(0), "sysinfo"), "sysreqs_report"), "scr_dev_fwrev");
    opt_text(report)
}

/// A result file on its way into the database.
#[derive(Debug)]
pub struct BenchResult {
    /// Drive model name, white space compressed to underscores.
    pub model_name: String,
    /// The bucket directory in the database.
    pub dir: String,
    /// Path of the source result file.
    pub result_file: String,
    /// Engine version that produced the result (major.minor).
    pub version: String,
    /// The issue the result was submitted on, if any.
    pub issue: Option<u64>,
    /// Where the result file was downloaded from, if it was.
    pub url: Option<String>,
}

impl BenchResult {
    /// Reads the version bucket and model of the parsed result file
    /// `json_result_file`, placing it in the database under
    /// `database_path/<version>/<model>`.
    pub fn new(doc: &Json, json_result_file: &str, database_path: &str) -> (r: Result<Self, MetadataError>)
        ensures
            r matches Err(e) ==> extracted(*doc) == Err::<(Seq<char>, Seq<char>), _>(e),
            r matches Ok(b) ==> {
                &&& extracted(*doc) == Ok::<_, MetadataError>((b.version@, b.model_name@))
                &&& b.dir@ == path_join(path_join(database_path@, b.version@), b.model_name@)
                &&& b.result_file@ == json_result_file@
                &&& b.issue is None
                &&& b.url is None
            },
    {
        let sys = opt_field(doc.item(0), "sysinfo");
        let full = match opt_text(opt_field(sys, "bench_version")) {
            Some(v) => v,
            None => return Err(MetadataError::MissingVersion),
        };
        let words = split_white_space(full.as_str());
        if words.len() == 0 {
            return Err(MetadataError::InvalidVersion);
        }
        let version = match parse_major_minor(words[0].as_str()) {
            Some((major, minor)) => {
                let mut s = String::new();
                push_decimal(&mut s, major);
                s.append(".");
                push_decimal(&mut s, minor);
                assert(s@ =~= decimal(major as nat) + "."@ + decimal(minor as nat));
                s
            },
            None => return Err(MetadataError::InvalidVersion),
        };
        let model = match opt_text(opt_field(opt_field(sys, "sysreqs_report"), "scr_dev_model")) {
            Some(m) => m,
            None => return Err(MetadataError::MissingModel),
        };
        let model_name = collapse_spaces(model.as_str());
        let dir = join_path(join_path(database_path, version.as_str()).as_str(), model_name.as_str());
        Ok(BenchResult {
            model_name,
            dir,
            result_file: owned(json_result_file),
            version,
            issue: None,
            url: None,
        })
    }

    /// The engine arguments of a dry-run merge of this file alone, into a
    /// throw-away output.
    pub fn validation_arguments(&self) -> (r: Vec<String>)
        ensures
            texts(r@) == seq!["--result"@, "/tmp/result.json"@, "merge"@, self.result_file@],
    {
        let r = vec![owned("--result"), owned("/tmp/result.json"), owned("merge"), self.result_file.clone()];
        assert(texts(r@) =~= seq!["--result"@, "/tmp/result.json"@, "merge"@, self.result_file@]);
        r
    }

    /// Judges the dry-run merge: a failed run rejects the file, naming its
    /// URL (or, without one, the file) and giving the engine's error text.
    pub fn validate(&self, run: Result<String, EngineFailure>) -> (r: Result<(), Rejection>)
        ensures
            r is Ok <==> run is Ok,
            r matches Err(rej) ==> {
                &&& run matches Err(f) && rej.reason@ == f.stderr@
                &&& self.url matches Some(u) ==> rej.url@ == u@
                &&& self.url is None ==> rej.url@ == self.result_file@
            },
    {
        match run {
            Ok(_) => Ok(()),
            Err(f) => {
                let url = match &self.url {
                    Some(u) => u.clone(),
                    None => self.result_file.clone(),
                };
                Err(Rejection { url, reason: f.stderr })
            },
        }
    }

    /// The directory that receives the PDF of the result: named after the
    /// submission `id` when there is one, else after the model and version.
    pub fn pdfs_dir(&self, id: Option<&str>) -> (r: String)
        ensures
            id matches Some(i) ==> r@ == "./pdfs-for-"@ + i@,
            id is None ==> r@ == "./pdfs-for-"@ + self.model_name@ + "-"@ + self.version@,
    {
        let mut s = owned("./pdfs-for-");
        match id {
            Some(i) => s.append(i),
            None => {
                s.append(self.model_name.as_str());
                s.append("-");
                s.append(self.version.as_str());
            },
        }
        s
    }

    /// Where the result file is stored in the database.
    pub fn db_file(&self) -> (r: String)
        ensures
            r@ == path_join(self.dir@, self.result_file@),
    {
        join_path(self.dir.as_str(), self.result_file.as_str())
    }

    /// Where the metadata sidecar of the result file is stored: beside it,
    /// named after it without its two extensions, with `.json.metadata`.
    pub fn metadata_file_path(&self) -> (r: String)
        ensures
            r@ == strip_extension(
                path_join(self.dir@, strip_extension(strip_extension(self.result_file@))),
            ) + ".json.metadata"@,
    {
        let base = without_extension(without_extension(self.result_file.as_str()).as_str());
        let mut p = without_extension(join_path(self.dir.as_str(), base.as_str()).as_str());
        p.append(".json.metadata");
        p
    }
}

} // verus!
