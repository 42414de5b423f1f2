use aurr_manager::cloud::{AzureCloudResource, CloudResource};
use aurr_manager::error::AurrError;
use aurr_manager::generate::GrantKind;
use aurr_manager::kv::ConfigTable;
use aurr_manager::manager::{
    download_target, generation_request, generation_step, manager_key, manager_line,
    require_download_line, require_path_key, tool_container, AurrCore, CarrierTypes,
};
use aurr_manager::tools::ToolConfig;

#[test]
fn managers_by_key_and_the_one_in_use() {
    let mut core: AurrCore<u32> = AurrCore::new(ConfigTable::new());
    assert_eq!(core.current_key(), "");
    core.add_cloud_manager("Azure", "acct", 1);
    assert_eq!(core.current_key(), "Azure_acct");
    assert_eq!(*core.get_mgmr(), 1);
    core.add_cloud_manager("Azure", "other", 2);
    assert_eq!(core.current_key(), "Azure_other");
    assert_eq!(*core.get_mgmr(), 2);
    core.add_cloud_manager("Azure", "acct", 3);
    assert_eq!(core.current_key(), "Azure_other");
    assert_eq!(core.set_csm("Azure_acct"), Ok(()));
    assert_eq!(*core.get_mgmr(), 3);
    assert_eq!(
        core.set_csm("S3_x"),
        Err(AurrError::ManagerNotFound("S3_x".to_string()))
    );
    assert_eq!(core.current_key(), "Azure_acct");
    assert_eq!(core.manager_keys(), vec!["Azure_acct", "Azure_other"]);
}

#[test]
fn small_decisions() {
    assert_eq!(manager_key("Azure", "n"), "Azure_n");
    assert_eq!(manager_line("Azure_n", "acct", "OK"), "Azure_n -> acct - [OK]");
    assert_eq!(tool_container(Some("c")), "c");
    assert_eq!(tool_container(None), "tools");
    assert!(matches!(download_target("a/b"), CloudResource::Azure(AzureCloudResource::Text(p)) if p == "a/b"));
    assert_eq!(require_path_key("VELO"), "VELO_MANDATORY_REQUIRE_PATH");
    assert_eq!(
        require_download_line("curl -L \"<URL>\" -o ./<REMOTE_TOOL_FILE_NAME>", "https://r", "key.pub"),
        "curl -L \"https://r\" -o ./key.pub"
    );
    assert_eq!(CarrierTypes::Azure.check_supported(), Ok(()));
    assert_eq!(CarrierTypes::S3.check_supported(), Err(AurrError::UnsupportedCarrier));
    assert_eq!(CarrierTypes::SMB.check_supported(), Err(AurrError::UnsupportedCarrier));
}

fn tool_config(location: Option<&str>) -> ToolConfig {
    let mut c = ToolConfig::new();
    if let Some(l) = location {
        c.add("CLOUD_DEFAULT_UPLOAD_LOCATION".to_string(), l.to_string());
    }
    c.add("CLOUD_TOKEN_UPLOAD_TIMEOUT".to_string(), "9".to_string());
    c
}

#[test]
fn generation_steps_name_key_and_grant() {
    let c = tool_config(Some("case"));
    let (k, q) = generation_step("SURGE_SAS-UPLOAD-TOKEN", &c, "Azure").unwrap();
    assert_eq!(k, "SURGE_SAS-UPLOAD-TOKEN");
    assert_eq!(q.kind, GrantKind::UploadToken);
    assert_eq!(q.timeout, 9);
    assert!(matches!(q.resource, CloudResource::Azure(AzureCloudResource::Container(n)) if n == "case"));
    let (k, q) = generation_step("x UPLOAD-URI", &c, "Azure").unwrap();
    assert_eq!(k, "x UPLOAD-URI");
    assert_eq!(q.kind, GrantKind::UploadUrl);
    assert!(matches!(
        generation_step("OTHER", &c, "Azure"),
        Err(AurrError::UnsupportedParameter(p)) if p == "OTHER"
    ));
    assert!(matches!(
        generation_step("SURGE_UPLOAD-TOKEN", &c, "GCP"),
        Err(AurrError::UnsupportedCloudType(t)) if t == "GCP"
    ));
    let fresh = tool_config(None);
    let (_, q) = generation_step("S_UPLOAD-TOKEN", &fresh, "Azure").unwrap();
    assert!(matches!(q.resource, CloudResource::Azure(AzureCloudResource::Container(n)) if n.len() == 36));
}

#[test]
fn generation_requests_by_name() {
    let c = tool_config(Some("a/b/"));
    assert!(matches!(generation_request("VELO_OTHER", &c, "Azure"), Ok(None)));
    let q = generation_request("VELO_UPLOAD_URL", &c, "Azure").unwrap().unwrap();
    assert_eq!(q.kind, GrantKind::UploadUrl);
    assert!(matches!(q.resource, CloudResource::Azure(AzureCloudResource::Text(p)) if p == "a/b"));
    let q = generation_request("VELO_UPLOAD_TOKEN", &c, "Azure").unwrap().unwrap();
    assert_eq!(q.kind, GrantKind::UploadToken);
    assert!(matches!(
        generation_request("VELO_UPLOAD_TOKEN", &c, "S3"),
        Err(AurrError::UnsupportedCloudType(_))
    ));
}

#[test]
fn managers_by_key() {
    let mut core: AurrCore<&str> = AurrCore::new(ConfigTable::new());
    core.add_cloud_manager("Azure", "a", "first");
    assert_eq!(core.get_manager("Azure_a"), Some(&"first"));
    assert_eq!(core.get_manager("Azure_b"), None);
    assert_eq!(core.config().len(), 0);
}

#[test]
fn a_core_made_with_its_first_manager_uses_it() {
    let core: AurrCore<u32> = AurrCore::with_manager(ConfigTable::new(), "Azure", "store", 7);
    assert_eq!(core.current_key(), "Azure_store");
    assert_eq!(*core.get_mgmr(), 7);
    assert_eq!(core.manager_keys(), vec!["Azure_store"]);
    core.in_use_is_registered();
}

#[test]
fn the_manager_in_use_stays_registered() {
    let mut core: AurrCore<u32> = AurrCore::with_manager(ConfigTable::new(), "Azure", "a", 1);
    core.add_cloud_manager("Azure", "b", 2);
    assert_eq!(core.current_key(), "Azure_b");
    assert!(core.set_csm("Azure_c").is_err());
    assert_eq!(core.get_manager(core.current_key()), Some(&2));
    assert_eq!(core.set_csm("Azure_a"), Ok(()));
    assert_eq!(core.get_manager(core.current_key()), Some(&1));
}
