//! The artifact generator: names of the derived files, the engine runs that
//! produce them, and what is kept of their output for a given engine
//! version.

use vstd::prelude::*;

use crate::merge::BenchMerge;
use crate::store::{last_index_of, path_join, join_path, strip_extension, without_extension};
use crate::text::{owned, texts};

verus! {

/// The current time, as chrono displays it and in RFC 2822 form.
pub struct Timestamp {
    pub display: String,
    pub rfc2822: String,
}

/// Relies on `chrono::Utc::now`, displayed with chrono's `Display` and with
/// `DateTime::to_rfc2822`. Nothing is promised of the time read.
#[verifier::external_body]
pub(crate) fn now_utc() -> (r: Timestamp) {
    let now = chrono::Utc::now();
    Timestamp { display: now.to_string(), rfc2822: now.to_rfc2822() }
}

/// `iocost-tune-<version>-<model>-<date>[<detail>-][.<extension>]`.
pub open spec fn descriptive_name(
    version: Seq<char>,
    model: Seq<char>,
    date: Seq<char>,
    extension: Seq<char>,
    detail: Option<Seq<char>>,
) -> Seq<char> {
    let ext = if extension.len() == 0 { seq![] } else { "."@ + extension };
    let d = match detail {
        Some(d) => d + "-"@,
        None => seq![],
    };
    "iocost-tune-"@ + version + "-"@ + model + "-"@ + date + d + ext
}

/// The descriptive file name of an artifact of the given release and model,
/// made at `date`.
pub fn descriptive_filename_at(
    version: &str,
    model_name: &str,
    date: &str,
    extension: &str,
    detail: Option<&str>,
) -> (r: String)
    ensures
        r@ == descriptive_name(version@, model_name@, date@, extension@, crate::store::opt_text(detail)),
{
    let mut s = owned("iocost-tune-");
    s.append(version);
    s.append("-");
    s.append(model_name);
    s.append("-");
    s.append(date);
    match detail {
        Some(d) => {
            s.append(d);
            s.append("-");
        },
        None => {},
    }
    if extension.unicode_len() > 0 {
        s.append(".");
        s.append(extension);
    }
    s
}

/// `--result <result> format [<mode>]`.
pub open spec fn format_args_of(result: Seq<char>, mode: Option<Seq<char>>) -> Seq<Seq<char>> {
    let base = seq!["--result"@, result, "format"@];
    match mode {
        Some(m) => base.push(m),
        None => base,
    }
}

/// The engine arguments that format `result`, in `mode` if one is given.
pub fn format_arguments(result: &str, mode: Option<&str>) -> (r: Vec<String>)
    ensures
        texts(r@) == format_args_of(result@, crate::store::opt_text(mode)),
{
    let mut r = vec![owned("--result"), owned(result), owned("format")];
    match mode {
        Some(m) => r.push(owned(m)),
        None => {},
    }
    assert(texts(r@) =~= format_args_of(result@, crate::store::opt_text(mode)));
    r
}

/// The last component of a path.
pub open spec fn file_name_of(p: Seq<char>) -> Seq<char> {
    p.subrange(last_index_of(p, '/') + 1, p.len() as int)
}

/// Where the PDF of `result` goes in `target_dir`: under `filename` if one
/// is given, else under the result's own name with `.pdf` for its two
/// extensions.
pub open spec fn pdf_path_of(result: Seq<char>, target_dir: Seq<char>, filename: Option<Seq<char>>) -> Seq<char> {
    match filename {
        Some(f) => path_join(target_dir, f),
        None => strip_extension(strip_extension(path_join(target_dir, file_name_of(result)))) + ".pdf"@,
    }
}

/// A PDF to render: where it goes and the engine arguments that write it.
pub struct PdfRequest {
    pub pdf_path: String,
    pub args: Vec<String>,
}

/// The rendering of `result` as a PDF in `target_dir`.
pub fn save_pdf_to(result: &str, target_dir: &str, filename: Option<&str>) -> (r: PdfRequest)
    ensures
        r.pdf_path@ == pdf_path_of(result@, target_dir@, crate::store::opt_text(filename)),
        texts(r.args@) == format_args_of(result@, Some("iocost-tune:pdf="@ + r.pdf_path@)),
{
    let pdf_path = match filename {
        Some(f) => join_path(target_dir, f),
        None => {
            proof {
                crate::store::lemma_last_index_bounds(result@, '/');
            }
            let len = result.unicode_len();
            let name = match crate::store::find_last(result, '/') {
                Some(k) => result.substring_char(k + 1, len),
                None => result.substring_char(0, len),
            };
            assert(name@ =~= file_name_of(result@));
            let joined = join_path(target_dir, name);
            let mut p = without_extension(without_extension(joined.as_str()).as_str());
            p.append(".pdf");
            p
        },
    };
    let mut mode = owned("iocost-tune:pdf=");
    mode.append(pdf_path.as_str());
    let args = format_arguments(result, Some(mode.as_str()));
    PdfRequest { pdf_path, args }
}

/// The hardware-database file of a bucket: where it goes and the engine
/// runs whose outputs it holds.
pub struct HwdbRequest {
    pub file_name: String,
    pub path: String,
    pub args: Vec<String>,
    pub fwrev_args: Option<Vec<String>>,
}

/// The contents of a hardware-database file: the bucket-wide snippet, then
/// the firmware-specific one on a line of its own.
pub open spec fn hwdb_text(generic: Seq<char>, fwrev: Option<Seq<char>>) -> Seq<char> {
    match fwrev {
        Some(f) => generic + "\n"@ + f,
        None => generic,
    }
}

/// Joins the snippets as [`hwdb_text`] states.
pub fn hwdb_contents(generic: &str, fwrev: Option<&str>) -> (r: String)
    ensures
        r@ == hwdb_text(generic@, crate::store::opt_text(fwrev)),
{
    let mut s = owned(generic);
    match fwrev {
        Some(f) => {
            s.append("\n");
            s.append(f);
        },
        None => {},
    }
    s
}

impl BenchMerge {
    /// The descriptive name of an artifact of this merge, stamped with the
    /// current time.
    pub fn build_descriptive_filename(&self, extension: &str, detail: Option<&str>) -> (r: String)
        ensures
            exists|date: Seq<char>|
                r@ == descriptive_name(
                    self.version_str@,
                    self.model_name@,
                    date,
                    extension@,
                    crate::store::opt_text(detail),
                ),
    {
        let now = now_utc();
        descriptive_filename_at(
            self.version_str.as_str(),
            self.model_name.as_str(),
            now.display.as_str(),
            extension,
            detail,
        )
    }

    /// The PDF of this merge in `target_dir`, under its descriptive name.
    pub fn save_pdf_in(&self, target_dir: &str) -> (r: PdfRequest)
        ensures
            exists|date: Seq<char>|
                r.pdf_path@ == path_join(
                    target_dir@,
                    descriptive_name(self.version_str@, self.model_name@, date, "pdf"@, None),
                ),
            texts(r.args@) == format_args_of(self.path@, Some("iocost-tune:pdf="@ + r.pdf_path@)),
    {
        let filename = self.build_descriptive_filename("pdf", None);
        save_pdf_to(self.path.as_str(), target_dir, Some(filename.as_str()))
    }

    /// The hardware-database file of this merge in `target_dir`: `None` when
    /// the engine release cannot produce one; the firmware-specific snippet
    /// is requested where a firmware merge was kept.
    pub fn create_hwdb_in(&self, target_dir: &str) -> (r: Option<HwdbRequest>)
        ensures
            r is Some <==> crate::version::semver_matches(
                crate::version::HWDB_REQUIREMENT@,
                self.version.semver@,
            ),
            r matches Some(h) ==> {
                &&& exists|date: Seq<char>|
                    h.file_name@ == descriptive_name(
                        self.version_str@,
                        self.model_name@,
                        date,
                        "hwdb"@,
                        None,
                    )
                &&& h.path@ == path_join(target_dir@, h.file_name@)
                &&& texts(h.args@) == format_args_of(self.path@, Some("iocost-tune:hwdb"@))
                &&& (h.fwrev_args is Some <==> self.fwmerge is Some)
                &&& (self.fwmerge matches Some(fw) ==> h.fwrev_args matches Some(a) && texts(a@)
                    == format_args_of(fw.path@, Some("iocost-tune:hwdb-fwrev"@)))
            },
    {
        if !self.version.supports_hwdb() {
            return None;
        }
        let file_name = self.build_descriptive_filename("hwdb", None);
        let path = join_path(target_dir, file_name.as_str());
        let args = format_arguments(self.path.as_str(), Some("iocost-tune:hwdb"));
        let fwrev_args = match &self.fwmerge {
            Some(fw) => Some(format_arguments(fw.path.as_str(), Some("iocost-tune:hwdb-fwrev"))),
            None => None,
        };
        Some(HwdbRequest { file_name, path, args, fwrev_args })
    }
}

/// What the generator derives from a merge.
pub struct Artifacts {
    pub summary: String,
    pub pdf_path: String,
    pub hwdb: String,
    pub high_level: String,
}

/// Assembles the artifacts of `merge` from the engine's outputs. The
/// hardware-database snippet and the high-level summary are kept only where
/// the engine release supports them, and are otherwise empty; a missing
/// output is empty too.
pub fn generate(
    merge: &BenchMerge,
    summary: String,
    pdf_path: String,
    hwdb: Option<String>,
    hwdb_fwrev: Option<String>,
    high_level: Option<String>,
) -> (r: Artifacts)
    ensures
        r.summary@ == summary@,
        r.pdf_path@ == pdf_path@,
        !crate::version::semver_matches(crate::version::HWDB_REQUIREMENT@, merge.version.semver@)
            ==> r.hwdb@.len() == 0,
        crate::version::semver_matches(crate::version::HWDB_REQUIREMENT@, merge.version.semver@)
            ==> r.hwdb@ == hwdb_text(
            match hwdb {
                Some(h) => h@,
                None => seq![],
            },
            match hwdb_fwrev {
                Some(f) => if merge.fwmerge is Some { Some(f@) } else { None },
                None => None,
            },
        ),
        crate::version::semver_matches(crate::version::NO_HIGH_LEVEL_REQUIREMENT@, merge.version.semver@)
            ==> r.high_level@.len() == 0,
        !crate::version::semver_matches(crate::version::NO_HIGH_LEVEL_REQUIREMENT@, merge.version.semver@)
            ==> r.high_level@ == match high_level {
            Some(h) => h@,
            None => seq![],
        },
{
    let hwdb_text = if merge.version.supports_hwdb() {
        let generic = match &hwdb {
            Some(h) => h.clone(),
            None => String::new(),
        };
        let fw = match &hwdb_fwrev {
            Some(f) => if merge.fwmerge.is_some() { Some(f.as_str()) } else { None },
            None => None,
        };
        hwdb_contents(generic.as_str(), fw)
    } else {
        String::new()
    };
    let high_level_text = if merge.version.supports_high_level() {
        match high_level {
            Some(h) => h,
            None => String::new(),
        }
    } else {
        String::new()
    };
    Artifacts { summary, pdf_path, hwdb: hwdb_text, high_level: high_level_text }
}

} // verus!
