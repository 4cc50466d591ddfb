use gvdb::write::{FileWriter, HashTableBuilder};
use yoink::config::{BytesConfig, Config, DconfConfig, RunnerConfig, Target};
use yoink::errors::SyncError;
use yoink::filemodel::apply_write;
use yoink::sync::{pull, push};

fn v(s: &str) -> Vec<u8> {
    s.as_bytes().to_vec()
}

fn bytes_config() -> Config {
    Config { target: Target { style: RunnerConfig::Bytes(BytesConfig { path: v("blob") }) } }
}

fn dconf_config(exclude: Vec<Vec<u8>>) -> Config {
    Config { target: Target { style: RunnerConfig::Dconf(dconf(exclude)) } }
}

fn dconf(exclude: Vec<Vec<u8>>) -> DconfConfig {
    DconfConfig { path: v("db"), exclude }
}

fn store_with(entries: &[(&str, &str)]) -> Vec<u8> {
    let mut table = HashTableBuilder::new();
    for (key, value) in entries {
        table.insert_string(key, value).unwrap();
    }
    FileWriter::new().write_to_vec_with_table(table).unwrap()
}

#[test]
fn bytes_pull_copies_resource_verbatim() {
    let resource = v("hello resource");
    let (out, n) = pull(&bytes_config(), &resource).unwrap();
    assert_eq!(out, resource);
    assert_eq!(n, resource.len());
}

#[test]
fn bytes_push_yields_exact_source() {
    let source = v("pushed content");
    let out = push(&bytes_config(), &source).unwrap();
    assert_eq!(out, source);
}

#[test]
fn dconf_push_is_rejected() {
    assert!(matches!(push(&dconf_config(Vec::new()), &v("x")), Err(SyncError::PushUnsupported)));
}

#[test]
fn pull_truncates_longer_previous_content() {
    // the associated file held more bytes than the new pull delivers
    let previous = v("0123456789");
    let resource = v("abc");
    let (out, n) = pull(&bytes_config(), &resource).unwrap();
    let after = apply_write(&previous, &out, n);
    assert_eq!(after, resource);
    assert_eq!(after.len(), 3);
}

#[test]
fn pull_twice_is_byte_identical() {
    let resource = v("same content");
    let (out1, n1) = pull(&bytes_config(), &resource).unwrap();
    let first = apply_write(&v("old state"), &out1, n1);
    let (out2, n2) = pull(&bytes_config(), &resource).unwrap();
    let second = apply_write(&first, &out2, n2);
    assert_eq!(first, second);
}

#[test]
fn pull_then_push_restores_resource() {
    let content = v("C");
    let config = bytes_config();
    // pull into an associated file that held something longer
    let (pulled, n) = pull(&config, &content).unwrap();
    let associated = apply_write(&v("previous longer associated"), &pulled, n);
    // push the associated file back over a resource of different content
    let new_resource = push(&config, &associated).unwrap();
    let resource_after = apply_write(&v("different previous content"), &new_resource, new_resource.len());
    assert_eq!(resource_after, content);
}

#[test]
fn dconf_pull_serializes_key_value_lines() {
    let data = store_with(&[("k", "v")]);
    let (out, n) = dconf(Vec::new()).pull(&data).unwrap();
    assert_eq!(String::from_utf8(out.clone()).unwrap(), "k = \"v\"\n");
    assert_eq!(n, out.len());
}

#[test]
fn dconf_pull_excludes_prefixed_keys() {
    let data = store_with(&[("a.x", "1"), ("a.y", "2"), ("b.z", "3")]);
    let (out, _) = dconf(vec![v("a.")]).pull(&data).unwrap();
    assert_eq!(String::from_utf8(out).unwrap(), "b.z = \"3\"\n");
}

#[test]
fn dconf_pull_with_all_keys_excluded_is_empty() {
    let data = store_with(&[("a.x", "1"), ("a.y", "2")]);
    let (out, n) = dconf(vec![v("a.")]).pull(&data).unwrap();
    assert!(out.is_empty());
    assert_eq!(n, 0);
}

#[test]
fn dconf_pull_is_idempotent() {
    let data = store_with(&[("x", "1"), ("y", "2")]);
    let (out1, _) = dconf(Vec::new()).pull(&data).unwrap();
    let (out2, _) = dconf(Vec::new()).pull(&data).unwrap();
    assert_eq!(out1, out2);
}

#[test]
fn dconf_pull_of_garbage_reports_store_failure() {
    let garbage = v("not a settings store at all");
    assert!(matches!(dconf(Vec::new()).pull(&garbage), Err(SyncError::StoreReadFailure(_))));
}

#[test]
fn dconf_pull_through_config_filters_too() {
    let data = store_with(&[("app.one", "1"), ("sys.two", "2")]);
    let (out, _) = pull(&dconf_config(vec![v("sys.")]), &data).unwrap();
    assert_eq!(String::from_utf8(out).unwrap(), "app.one = \"1\"\n");
}
