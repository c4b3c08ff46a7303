use iocost_benchmarks::artifacts::{
    descriptive_filename_at, format_arguments, generate, hwdb_contents, save_pdf_to,
};
use iocost_benchmarks::json::Json;
use iocost_benchmarks::merge::{
    get_data_points, keep_firmware_merge, latest_revision, merge_arguments, plan_fwmerge,
    try_fwmerge, BenchFWMerge, BenchMerge, MergeError,
};
use iocost_benchmarks::version::{BenchVersion, MajorMinor, VersionError};

fn s(x: &str) -> String {
    x.to_string()
}

fn obj(fields: Vec<(&str, Json)>) -> Json {
    Json::Object(fields.into_iter().map(|(k, v)| (k.to_string(), v)).collect())
}

fn nums(n: usize) -> Json {
    Json::Array((0..n).map(|i| Json::Number(i.to_string())).collect())
}

fn tune(data: usize, outliers: usize) -> Json {
    obj(vec![
        ("spec", obj(vec![("kind", Json::Str(s("iocost-tune")))])),
        (
            "result",
            obj(vec![("data", obj(vec![("MOF", obj(vec![("data", nums(data)), ("outliers", nums(outliers))]))]))]),
        ),
    ])
}

fn engine(text: &str) -> BenchVersion {
    BenchVersion::new("2.2", &format!("resctl-bench {}", text)).unwrap()
}

#[test]
fn data_points_of_first_tune_result() {
    let other = obj(vec![("spec", obj(vec![("kind", Json::Str(s("storage")))]))]);
    let merged = Json::Array(vec![other, tune(7, 2), tune(1, 1)]);
    assert_eq!(get_data_points(&merged), Ok(9));
    let no_outliers = Json::Array(vec![obj(vec![
        ("spec", obj(vec![("kind", Json::Str(s("iocost-tune")))])),
        ("result", obj(vec![("data", obj(vec![("MOF", obj(vec![("data", nums(3))]))]))])),
    ])]);
    assert_eq!(get_data_points(&no_outliers), Ok(3));
}

#[test]
fn data_points_missing_tune() {
    assert_eq!(get_data_points(&Json::Array(vec![])), Err(MergeError::MissingTuneResult));
    assert_eq!(get_data_points(&Json::Null), Err(MergeError::MissingTuneResult));
}

#[test]
fn firmware_merge_close_to_generic_is_discarded() {
    assert!(!keep_firmware_merge(10, 10));
    assert!(keep_firmware_merge(10, 11));
    assert!(keep_firmware_merge(11, 10));
    assert!(try_fwmerge(s("FW"), s("p"), 25, 25).is_none());
}

#[test]
fn small_firmware_merge_is_discarded() {
    assert!(!keep_firmware_merge(3, 100));
    assert!(!keep_firmware_merge(0, 10));
    assert!(keep_firmware_merge(4, 100));
    assert!(try_fwmerge(s("FW"), s("p"), 3, 30).is_none());
    let kept = try_fwmerge(s("FW"), s("p"), 5, 30).unwrap();
    assert_eq!(kept.fwrev, "FW");
    assert_eq!(kept.path, "p");
    assert_eq!(kept.data_points, 5);
}

#[test]
fn latest_revision_by_string_order() {
    let revs = vec![Some(s("3B2QGXA7")), None, Some(s("4B2QGXA7")), Some(s("10"))];
    assert_eq!(latest_revision(&revs), Some(s("4B2QGXA7")));
    assert_eq!(latest_revision(&vec![None, None]), None);
    assert_eq!(latest_revision(&vec![]), None);
    assert_eq!(latest_revision(&vec![Some(s("a")), Some(s("ab"))]), Some(s("ab")));
}

#[test]
fn firmware_plan_takes_latest_files() {
    let files = vec![s("a.json.gz"), s("b.json.gz"), s("c.json.gz")];
    let revs = vec![Some(s("FW2")), Some(s("FW1")), Some(s("FW2"))];
    let p = plan_fwmerge("2.2", "Foo", &files, &revs).unwrap();
    assert_eq!(p.fwrev, "FW2");
    assert_eq!(p.files, vec![s("a.json.gz"), s("c.json.gz")]);
    assert_eq!(p.output_path, "merged-results/2.2-Foo-FW2-merged-results.json.gz");
    assert_eq!(
        p.args,
        vec![
            s("--result"),
            s("merged-results/2.2-Foo-FW2-merged-results.json.gz"),
            s("merge"),
            s("a.json.gz"),
            s("c.json.gz")
        ]
    );
    assert!(plan_fwmerge("2.2", "Foo", &files, &vec![None, None, None]).is_none());
}

#[test]
fn merge_args() {
    assert_eq!(
        merge_arguments("out.json.gz", &vec![s("x"), s("y")]),
        vec![s("--result"), s("out.json.gz"), s("merge"), s("x"), s("y")]
    );
}

#[test]
fn bench_version_parsing() {
    let v = BenchVersion::new("2.2", "resctl-bench 2.2.5\n").unwrap();
    assert_eq!(v.major_minor, MajorMinor::V2_2);
    assert_eq!(v.semver, "2.2.5");
    assert_eq!(BenchVersion::new("2.1", "resctl-bench 2.1.0").unwrap().major_minor, MajorMinor::V2_1);
    assert_eq!(BenchVersion::new("3.0", "resctl-bench 3.0.0").unwrap_err(), VersionError::UnknownRelease);
    assert_eq!(BenchVersion::new("2.2", "resctl-bench").unwrap_err(), VersionError::MalformedOutput);
    assert_eq!(BenchVersion::new("2.2", "resctl-bench two").unwrap_err(), VersionError::NotSemver);
}

#[test]
fn feature_gates() {
    assert!(!engine("2.2.2").supports_high_level());
    assert!(engine("2.2.3").supports_high_level());
    assert!(!engine("2.2.3").supports_hwdb());
    assert!(engine("2.2.4").supports_hwdb());
    assert!(engine("2.2.4-rc1").supports_hwdb());
    assert!(engine("2.3.0").supports_hwdb());
}

#[test]
fn old_engine_has_empty_high_level() {
    let m = BenchMerge::merge(engine("2.2.2"), "2.2", "Foo_Bar", 10, None);
    let a = generate(&m, s("summary"), s("p.pdf"), Some(s("hwdb")), None, Some(s("high")));
    assert_eq!(a.high_level, "");
    assert_eq!(a.hwdb, "");
    assert_eq!(a.summary, "summary");
    assert_eq!(a.pdf_path, "p.pdf");
}

#[test]
fn new_engine_keeps_outputs() {
    let fw = BenchFWMerge { fwrev: s("FW"), path: s("fw.json.gz"), data_points: 8 };
    let m = BenchMerge::merge(engine("2.2.5"), "2.2", "Foo_Bar", 10, Some(fw));
    assert_eq!(m.path, "merged-results/2.2-Foo_Bar-merged-results.json.gz");
    let a = generate(&m, s("summary"), s("p.pdf"), Some(s("generic")), Some(s("specific")), Some(s("high")));
    assert_eq!(a.hwdb, "generic\nspecific");
    assert_eq!(a.high_level, "high");
    let h = m.create_hwdb_in("hwdb-inputs").unwrap();
    assert!(h.file_name.starts_with("iocost-tune-2.2-Foo_Bar-"));
    assert!(h.file_name.ends_with(".hwdb"));
    assert_eq!(h.path, format!("hwdb-inputs/{}", h.file_name));
    assert_eq!(
        h.args,
        vec![s("--result"), s("merged-results/2.2-Foo_Bar-merged-results.json.gz"), s("format"), s("iocost-tune:hwdb")]
    );
    assert_eq!(
        h.fwrev_args,
        Some(vec![s("--result"), s("fw.json.gz"), s("format"), s("iocost-tune:hwdb-fwrev")])
    );
    let old = BenchMerge::merge(engine("2.2.3"), "2.2", "Foo_Bar", 10, None);
    assert!(old.create_hwdb_in("hwdb-inputs").is_none());
}

#[test]
fn artifact_names() {
    assert_eq!(
        descriptive_filename_at("2.2", "Foo", "2024-01-01 00:00:00 UTC", "hwdb", None),
        "iocost-tune-2.2-Foo-2024-01-01 00:00:00 UTC.hwdb"
    );
    assert_eq!(descriptive_filename_at("2.2", "Foo", "D", "", Some("fw")), "iocost-tune-2.2-Foo-Dfw-");
    assert_eq!(hwdb_contents("a", None), "a");
    assert_eq!(hwdb_contents("a", Some("b")), "a\nb");
    assert_eq!(format_arguments("r", None), vec![s("--result"), s("r"), s("format")]);
}

#[test]
fn pdf_paths() {
    let p = save_pdf_to("database/2.2/Foo/result-abc.json.gz", "pdfs-for-7", None);
    assert_eq!(p.pdf_path, "pdfs-for-7/result-abc.pdf");
    assert_eq!(
        p.args,
        vec![
            s("--result"),
            s("database/2.2/Foo/result-abc.json.gz"),
            s("format"),
            s("iocost-tune:pdf=pdfs-for-7/result-abc.pdf")
        ]
    );
    let q = save_pdf_to("r.json.gz", "pdfs", Some("named.pdf"));
    assert_eq!(q.pdf_path, "pdfs/named.pdf");
    let m = BenchMerge::merge(engine("2.2.5"), "2.2", "Foo", 1, None);
    let r = m.save_pdf_in("pdfs");
    assert!(r.pdf_path.starts_with("pdfs/iocost-tune-2.2-Foo-"));
    assert!(r.pdf_path.ends_with(".pdf"));
}
