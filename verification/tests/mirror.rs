use crate_mirror::manifest::{Crate, MirrorError};
use crate_mirror::mirror::{plan_download, Report};

#[test]
fn plans_one_download() {
    let c = Crate::new("foo".to_string(), "1.2.3".to_string());
    let step = plan_download("/mirror", &c).unwrap();
    assert_eq!(step.url, "https://static.crates.io/crates/foo/foo-1.2.3.crate");
    assert_eq!(step.dir_path, "/mirror/crates/3/foo/1.2.3");
    assert_eq!(step.file_path, "/mirror/crates/3/foo/1.2.3/foo-1.2.3.crate");
}

#[test]
fn plans_a_sharded_download() {
    let c = Crate::new("serde".to_string(), "1.0.0".to_string());
    let step = plan_download("m", &c).unwrap();
    assert_eq!(step.url, "https://static.crates.io/crates/serde/serde-1.0.0.crate");
    assert_eq!(step.dir_path, "m/crates/se/rd/serde/1.0.0");
    assert_eq!(step.file_path, "m/crates/se/rd/serde/1.0.0/serde-1.0.0.crate");
}

#[test]
fn empty_name_has_no_plan() {
    let c = Crate::new(String::new(), "1.0.0".to_string());
    assert!(plan_download("m", &c).is_none());
}

#[test]
fn fresh_report_is_success() {
    let r = Report::new();
    assert!(r.is_success());
    assert_eq!(r.succeeded.len(), 0);
    assert_eq!(r.failed.len(), 0);
}

#[test]
fn run_continues_past_a_failed_fetch() {
    let a = Crate::new("foo".to_string(), "1.2.3".to_string());
    let b = Crate::new("bar".to_string(), "0.1.0".to_string());
    let c = Crate::new("serde".to_string(), "1.0.0".to_string());
    let mut report = Report::new();
    report.record_success(a);
    report.record_failure(b, MirrorError::Fetch);
    report.record_success(c);
    assert!(!report.is_success());
    assert_eq!(report.succeeded.len(), 2);
    assert_eq!(report.succeeded[0].name, "foo");
    assert_eq!(report.succeeded[1].name, "serde");
    assert_eq!(report.failed.len(), 1);
    assert_eq!(report.failed[0].0.name, "bar");
    assert_eq!(report.failed[0].1, MirrorError::Fetch);
}
