use crate_mirror::address::{get_crate_dir, get_crate_path, get_crate_url};

#[test]
fn shard_of_length_one_name() {
    let p = get_crate_path("m", "a", "0.1.0").unwrap();
    assert_eq!(p, "m/crates/1/a/0.1.0/a-0.1.0.crate");
}

#[test]
fn shard_of_length_two_name() {
    let p = get_crate_path("m", "rs", "0.1.0").unwrap();
    assert_eq!(p, "m/crates/2/rs/0.1.0/rs-0.1.0.crate");
}

#[test]
fn shard_of_length_three_name() {
    let p = get_crate_path("m", "foo", "1.2.3").unwrap();
    assert_eq!(p, "m/crates/3/foo/1.2.3/foo-1.2.3.crate");
}

#[test]
fn shard_of_length_four_name() {
    let p = get_crate_path("m", "toml", "0.8.0").unwrap();
    assert_eq!(p, "m/crates/to/ml/toml/0.8.0/toml-0.8.0.crate");
}

#[test]
fn shard_of_longer_name() {
    let p = get_crate_path("/mirror", "serde", "1.0.0").unwrap();
    assert_eq!(p, "/mirror/crates/se/rd/serde/1.0.0/serde-1.0.0.crate");
}

#[test]
fn shard_depends_on_first_four_characters_only() {
    let p1 = get_crate_path("m", "serde", "1.0.0").unwrap();
    let p2 = get_crate_path("m", "serde_json", "1.0.0").unwrap();
    assert!(p1.starts_with("m/crates/se/rd/"));
    assert!(p2.starts_with("m/crates/se/rd/"));
}

#[test]
fn shard_ignores_version() {
    let p1 = get_crate_path("m", "abc", "1.0.0").unwrap();
    let p2 = get_crate_path("m", "abc", "2.0.0").unwrap();
    assert!(p1.starts_with("m/crates/3/"));
    assert!(p2.starts_with("m/crates/3/"));
}

#[test]
fn empty_name_has_no_address() {
    assert!(get_crate_path("m", "", "1.0.0").is_none());
    assert!(get_crate_path("m", "", "2.0.0").is_none());
    assert!(get_crate_path("", "", "").is_none());
    assert!(get_crate_dir("m", "", "1.0.0").is_none());
}

#[test]
fn resolution_is_idempotent() {
    let p1 = get_crate_path("/mirror", "serde", "1.0.0");
    let p2 = get_crate_path("/mirror", "serde", "1.0.0");
    assert_eq!(p1, p2);
    let q1 = get_crate_path("m", "", "1.0.0");
    let q2 = get_crate_path("m", "", "1.0.0");
    assert_eq!(q1, q2);
}

#[test]
fn crate_dir_is_path_without_file_name() {
    let d = get_crate_dir("m", "foo", "1.2.3").unwrap();
    assert_eq!(d, "m/crates/3/foo/1.2.3");
}

#[test]
fn download_url_shape() {
    let u = get_crate_url("serde", "1.0.0");
    assert_eq!(u, "https://static.crates.io/crates/serde/serde-1.0.0.crate");
}

#[test]
fn download_url_ignores_sharding() {
    let u = get_crate_url("rs", "0.1.0");
    assert_eq!(u, "https://static.crates.io/crates/rs/rs-0.1.0.crate");
}
