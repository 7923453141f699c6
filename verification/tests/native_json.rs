use torca::native_json::empty_snapshot_json;

#[test]
fn empty_snapshot_json_is_parseable_shape_without_secret_material() {
    let json = empty_snapshot_json();
    assert!(json.contains("\"contractVersion\":1"));
    assert!(json.contains("\"contacts\":[]"));
    assert!(!json.contains("private_key"));
    assert!(!json.contains("secret="));
}
