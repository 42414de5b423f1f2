use aurr_manager::error::AurrError;
use aurr_manager::kv::{ConfigTable, StringMap};
use aurr_manager::objects::AurrObjectConfig;
use aurr_manager::tools::ToolConfig;

fn settings() -> ConfigTable {
    let mut c = ConfigTable::new();
    c.set("velo_path".to_string(), "/opt/velo".to_string());
    c.set("cloud_default_upload_location".to_string(), "tools".to_string());
    c.set("azure_account".to_string(), "acct".to_string());
    c.set("other".to_string(), "x".to_string());
    c
}

#[test]
fn string_map_read_after_write() {
    let mut m = StringMap::new();
    m.insert("k".to_string(), "v1".to_string());
    m.insert("j".to_string(), "w".to_string());
    m.insert("k".to_string(), "v2".to_string());
    assert_eq!(m.get("k"), Some("v2".to_string()));
    assert_eq!(m.get("j"), Some("w".to_string()));
    assert_eq!(m.get("x"), None);
    assert_eq!(m.len(), 2);
}

#[test]
fn config_table_reads_lower_case_keys() {
    let c = settings();
    assert_eq!(c.get("VELO_PATH"), Some("/opt/velo".to_string()));
    assert_eq!(c.get("velo_path"), Some("/opt/velo".to_string()));
    assert_eq!(c.get("nothing"), None);
}

#[test]
fn tool_config_collects_tagged_settings() {
    let c = settings();
    let t = ToolConfig::from_config_by_tags(&c, vec!["velo", "cloud"]).unwrap();
    assert_eq!(t.get("velo_path"), Some("/opt/velo".to_string()));
    assert_eq!(t.get("cloud_default_upload_location"), Some("tools".to_string()));
    assert_eq!(t.get("azure_account"), None);
    assert_eq!(t.config.len(), 2);
    let single = ToolConfig::from_config_by_tag(settings(), "azure").unwrap();
    assert_eq!(single.get("azure_account"), Some("acct".to_string()));
    assert_eq!(single.config.len(), 1);
}

#[test]
fn edit_entry_needs_the_key() {
    let mut t = ToolConfig::new();
    t.add("A".to_string(), "1".to_string());
    assert_eq!(t.edit_entry("A".to_string(), "2".to_string()), Ok(()));
    assert_eq!(t.get("A"), Some("2".to_string()));
    assert_eq!(
        t.edit_entry("B".to_string(), "3".to_string()),
        Err(AurrError::KeyNotFound("B".to_string()))
    );
    assert_eq!(t.get("B"), None);

    let mut o = AurrObjectConfig::new_empty();
    assert_eq!(
        o.edit_entry("X".to_string(), "1".to_string()),
        Err(AurrError::KeyNotFound("X".to_string()))
    );
    o.add("X".to_string(), "0".to_string());
    assert_eq!(o.edit_entry("X".to_string(), "1".to_string()), Ok(()));
    assert_eq!(o.get("X"), Some("1".to_string()));
}

#[test]
fn byte_settings() {
    let mut o = AurrObjectConfig::new_empty();
    o.add("CLOUD_TOKEN_UPLOAD_TIMEOUT".to_string(), "12".to_string());
    o.add("BAD".to_string(), "300".to_string());
    assert_eq!(o.get_u8("CLOUD_TOKEN_UPLOAD_TIMEOUT"), Some(12));
    assert_eq!(o.get_u8("BAD"), None);
    assert_eq!(o.get_u8("MISSING"), None);
    let mut t = ToolConfig::new();
    t.add("N".to_string(), "7".to_string());
    assert_eq!(t.get_u8("N"), Some(7));
}

#[test]
fn replace_keys_in_order() {
    let mut m = StringMap::new();
    m.insert("HOST".to_string(), "example".to_string());
    m.insert("PORT".to_string(), "80".to_string());
    assert_eq!(m.replace_keys("connect HOST:PORT".to_string()), "connect example:80");
}

#[test]
fn tool_config_reads_back_what_was_added() {
    let mut t = ToolConfig::new();
    t.add("A".to_string(), "1".to_string());
    t.add("B".to_string(), "2".to_string());
    t.add("A".to_string(), "3".to_string());
    assert_eq!(t.get("A"), Some("3".to_string()));
    assert_eq!(t.get("B"), Some("2".to_string()));
    let mut m = StringMap::new();
    m.insert("k".to_string(), "v".to_string());
    m.insert("k".to_string(), "w".to_string());
    m.keys_are_unique();
    assert_eq!(m.len(), 1);
}
