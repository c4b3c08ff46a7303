use iocost_benchmarks::engine::{bench_path, run_resctl};
use iocost_benchmarks::json::Json;
use iocost_benchmarks::metadata::{firmware_revision, BenchResult, MetadataError};
use iocost_benchmarks::store::{
    database_directory, join_path, merged_file, result_file_name, result_file_name_for_digest,
    without_extension,
};

fn s(x: &str) -> String {
    x.to_string()
}

fn obj(fields: Vec<(&str, Json)>) -> Json {
    Json::Object(fields.into_iter().map(|(k, v)| (k.to_string(), v)).collect())
}

fn result_doc(version: Json, model: Option<&str>, fwrev: Option<&str>) -> Json {
    let mut report = vec![];
    if let Some(m) = model {
        report.push(("scr_dev_model", Json::Str(s(m))));
    }
    if let Some(f) = fwrev {
        report.push(("scr_dev_fwrev", Json::Str(s(f))));
    }
    Json::Array(vec![obj(vec![(
        "sysinfo",
        obj(vec![("bench_version", version), ("sysreqs_report", obj(report))]),
    )])])
}

#[test]
fn same_bytes_same_name() {
    let a = b"benchmark result".to_vec();
    let b = b"benchmark result".to_vec();
    assert_eq!(result_file_name(&a), result_file_name(&b));
    assert_ne!(result_file_name(&a), result_file_name(b"other"));
}

#[test]
fn name_is_md5_hex() {
    assert_eq!(result_file_name(b""), "result-d41d8cd98f00b204e9800998ecf8427e.json.gz");
    assert_eq!(result_file_name(b"abc"), "result-900150983cd24fb0d6963f7d28e17f72.json.gz");
    assert_eq!(result_file_name(b"any contents at all").len(), 47);
}

#[test]
fn name_from_digest() {
    assert_eq!(result_file_name_for_digest(&[0x00, 0xff, 0x1a]), "result-00ff1a.json.gz");
    assert_eq!(result_file_name_for_digest(&[]), "result-.json.gz");
}

#[test]
fn database_layout() {
    assert_eq!(database_directory("2.2", "Foo_Bar"), "database/2.2/Foo_Bar");
    assert_eq!(merged_file("2.2", "Foo_Bar", None), "merged-results/2.2-Foo_Bar-merged-results.json.gz");
    assert_eq!(
        merged_file("2.2", "Foo_Bar", Some("FW1")),
        "merged-results/2.2-Foo_Bar-FW1-merged-results.json.gz"
    );
}

#[test]
fn path_joining() {
    assert_eq!(join_path("a/b", "c"), "a/b/c");
    assert_eq!(join_path("a/b/", "c"), "a/b/c");
    assert_eq!(join_path("a", "/abs"), "/abs");
    assert_eq!(join_path("", "c"), "c");
}

#[test]
fn extension_stripping() {
    assert_eq!(without_extension("dir/result-abc.json.gz"), "dir/result-abc.json");
    assert_eq!(without_extension("dir/result-abc"), "dir/result-abc");
    assert_eq!(without_extension("dir.d/.hidden"), "dir.d/.hidden");
    assert_eq!(without_extension("a.b/c"), "a.b/c");
}

#[test]
fn metadata_from_result() {
    let doc = result_doc(Json::Str(s("2.2.5 abcdef")), Some("Foo  Bar\tX"), Some("3B2QGXA7"));
    let r = BenchResult::new(&doc, "result-abc.json.gz", "database").unwrap();
    assert_eq!(r.version, "2.2");
    assert_eq!(r.model_name, "Foo_Bar_X");
    assert_eq!(r.dir, "database/2.2/Foo_Bar_X");
    assert_eq!(r.result_file, "result-abc.json.gz");
    assert_eq!(r.issue, None);
    assert_eq!(r.url, None);
    assert_eq!(r.db_file(), "database/2.2/Foo_Bar_X/result-abc.json.gz");
    assert_eq!(r.metadata_file_path(), "database/2.2/Foo_Bar_X/result-abc.json.metadata");
    assert_eq!(firmware_revision(&doc), Some(&s("3B2QGXA7")));
}

#[test]
fn metadata_errors() {
    let doc = result_doc(Json::Null, Some("Foo"), None);
    assert_eq!(BenchResult::new(&doc, "r.json.gz", "db").unwrap_err(), MetadataError::MissingVersion);
    let doc = result_doc(Json::Str(s("not-a-version")), Some("Foo"), None);
    assert_eq!(BenchResult::new(&doc, "r.json.gz", "db").unwrap_err(), MetadataError::InvalidVersion);
    let doc = result_doc(Json::Str(s("   ")), Some("Foo"), None);
    assert_eq!(BenchResult::new(&doc, "r.json.gz", "db").unwrap_err(), MetadataError::InvalidVersion);
    let doc = result_doc(Json::Str(s("2.1.0")), None, None);
    assert_eq!(BenchResult::new(&doc, "r.json.gz", "db").unwrap_err(), MetadataError::MissingModel);
    assert_eq!(BenchResult::new(&Json::Null, "r.json.gz", "db").unwrap_err(), MetadataError::MissingVersion);
    assert_eq!(firmware_revision(&doc), None);
}

#[test]
fn validation_outcome() {
    let doc = result_doc(Json::Str(s("2.2.1")), Some("Foo"), None);
    let mut r = BenchResult::new(&doc, "result-abc.json.gz", "db").unwrap();
    assert_eq!(
        r.validation_arguments(),
        vec![s("--result"), s("/tmp/result.json"), s("merge"), s("result-abc.json.gz")]
    );
    assert!(r.validate(Ok(s("fine"))).is_ok());
    let failed = run_resctl(vec![s("merge")], Some(1), s(""), s("bad file"));
    let rej = r.validate(failed).unwrap_err();
    assert_eq!(rej.url, "result-abc.json.gz");
    assert_eq!(rej.reason, "bad file");
    r.url = Some(s("https://github.com/x.json.gz"));
    let failed = run_resctl(vec![], None, s(""), s("oops"));
    assert_eq!(r.validate(failed).unwrap_err().url, "https://github.com/x.json.gz");
}

#[test]
fn engine_runs() {
    assert_eq!(bench_path("2.2"), "./resctl-demo-v2.2/resctl-bench");
    assert_eq!(run_resctl(vec![], Some(1), s("out"), s("")).unwrap(), "out");
    let e = run_resctl(vec![s("--version")], Some(0), s("out"), s("warning")).unwrap_err();
    assert_eq!(e.stderr, "warning");
    assert_eq!(e.status, Some(0));
    assert_eq!(e.args, vec![s("--version")]);
}

#[test]
fn pdf_directories() {
    let doc = result_doc(Json::Str(s("2.2.1")), Some("Foo"), None);
    let r = BenchResult::new(&doc, "result-abc.json.gz", "db").unwrap();
    assert_eq!(r.pdfs_dir(Some("12")), "./pdfs-for-12");
    assert_eq!(r.pdfs_dir(None), "./pdfs-for-Foo-2.2");
}
