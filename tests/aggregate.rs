use iocost_benchmarks::aggregate::{
    bucket_included, hwdb_header_at, hwdb_output, override_variable, select_best, sorted_models,
    write_hwdb_file_header, AggregateError, Alternative,
};
use iocost_benchmarks::resctl_bench::{get_version, merge, TrialMergeError};
use iocost_benchmarks::text::{collapse_spaces, split_white_space, text_less};

fn alt(model: &str, version: &str, data_points: usize, file: &str) -> Alternative {
    Alternative {
        model_name: model.to_string(),
        version: version.to_string(),
        data_points,
        hwdb_file: file.to_string(),
    }
}

fn three_buckets() -> Vec<Alternative> {
    vec![
        alt("Foo_Bar", "2.2", 10, "a.hwdb"),
        alt("Other", "2.2", 99, "o.hwdb"),
        alt("Foo_Bar", "2.3", 25, "b.hwdb"),
        alt("Foo_Bar", "2.4", 3, "c.hwdb"),
    ]
}

#[test]
fn most_data_points_wins() {
    assert_eq!(select_best(&three_buckets(), "Foo_Bar", None, false), Ok("b.hwdb".to_string()));
    assert_eq!(select_best(&three_buckets(), "Other", None, false), Ok("o.hwdb".to_string()));
}

#[test]
fn existing_override_wins() {
    assert_eq!(
        select_best(&three_buckets(), "Foo_Bar", Some("x.hwdb"), true),
        Ok("x.hwdb".to_string())
    );
}

#[test]
fn missing_override_is_fatal() {
    assert_eq!(
        select_best(&three_buckets(), "Foo_Bar", Some("x.hwdb"), false),
        Err(AggregateError::MissingOverride)
    );
}

#[test]
fn no_alternative_for_model() {
    assert_eq!(select_best(&three_buckets(), "Nope", None, false), Err(AggregateError::NoAlternative));
    assert_eq!(select_best(&vec![], "Nope", None, false), Err(AggregateError::NoAlternative));
}

#[test]
fn ties_go_to_the_last() {
    let alts = vec![alt("M", "2.2", 5, "first.hwdb"), alt("M", "2.3", 5, "second.hwdb")];
    assert_eq!(select_best(&alts, "M", None, false), Ok("second.hwdb".to_string()));
}

#[test]
fn models_sorted_once() {
    let alts = vec![alt("b", "2.2", 1, "1"), alt("a", "2.2", 1, "2"), alt("b", "2.3", 1, "3"), alt("c", "2.2", 1, "4")];
    assert_eq!(sorted_models(&alts), vec!["a".to_string(), "b".to_string(), "c".to_string()]);
    assert!(sorted_models(&vec![]).is_empty());
}

#[test]
fn override_names() {
    assert_eq!(
        override_variable("HFS256GD9TNG-62A0A"),
        "OVERRIDE_BEST_HFS256GD9TNG_62A0A"
    );
    assert_eq!(override_variable("Foo_Bar.1 x"), "OVERRIDE_BEST_Foo_Bar_1_x");
}

#[test]
fn legacy_bucket_excluded() {
    assert!(!bucket_included("2.1"));
    assert!(bucket_included("2.2"));
}

#[test]
fn header_and_output() {
    let h = hwdb_header_at("Mon, 1 Jan 2024 00:00:00 +0000", "abc123");
    assert_eq!(
        h,
        "# This file is auto-generated on Mon, 1 Jan 2024 00:00:00 +0000.\n# From the following commit:\n# https://github.com/iocost-benchmark/iocost-benchmarks/commit/abc123\n#\n# Match key format:\n# block:<devpath>:name:<model name>:fwrev:<firmware revision>:\n"
    );
    assert_eq!(hwdb_output("H", &vec!["one".to_string(), "two".to_string()]), "H\none\ntwo\n");
    assert_eq!(hwdb_output("H", &vec![]), "H\n");
    let live = write_hwdb_file_header("abc123");
    assert!(live.starts_with("# This file is auto-generated on "));
    assert!(live.contains("/commit/abc123\n"));
}

#[test]
fn trial_merge() {
    assert!(get_version().is_ok());
    let files = vec!["a.json".to_string(), "b.json".to_string()];
    let runs = merge(&files, &vec![true, true]).unwrap();
    assert_eq!(runs[0], vec!["--result=out.json.gz", "merge", "a.json", "b.json"]);
    assert_eq!(runs[1], vec!["--result=out.json.gz", "summary"]);
    assert_eq!(merge(&files, &vec![true, false]), Err(TrialMergeError::MissingInput(1)));
}

#[test]
fn text_helpers() {
    assert_eq!(split_white_space("  resctl-bench 2.2.5\n extra"), vec!["resctl-bench", "2.2.5", "extra"]);
    assert!(split_white_space(" \t").is_empty());
    assert_eq!(collapse_spaces("Samsung  SSD\t970 "), "Samsung_SSD_970_");
    assert!(text_less("3B", "4A"));
    assert!(text_less("a", "ab"));
    assert!(!text_less("b", "ab"));
    assert!(!text_less("x", "x"));
}
