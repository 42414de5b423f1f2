use aurr_manager::cloud::{
    blob_url, container_url, read_target, status_report, upload_container, AzureCloudResource,
    BlobInfo, BlobRef, BlobReport, CloudResource,
};
use aurr_manager::error::AurrError;

#[test]
fn paths_name_containers_or_blobs() {
    match AzureCloudResource::from_path("tools").unwrap() {
        AzureCloudResource::Container(c) => assert_eq!(c, "tools"),
        _ => panic!("expected a container"),
    }
    match AzureCloudResource::from_path("case\\dir/file.txt\\").unwrap() {
        AzureCloudResource::Text(t) => assert_eq!(t, "case/dir/file.txt"),
        _ => panic!("expected a path"),
    }
    match AzureCloudResource::from_path("case\\file").unwrap() {
        AzureCloudResource::Text(t) => assert_eq!(t, "case/file"),
        _ => panic!("a \\ separates like a /"),
    }
    match AzureCloudResource::from_path("case/").unwrap() {
        AzureCloudResource::Container(c) => assert_eq!(c, "case"),
        _ => panic!("a trailing / asks for the container"),
    }
    match AzureCloudResource::from_path("con\\").unwrap() {
        AzureCloudResource::Container(c) => assert_eq!(c, "con"),
        _ => panic!("a trailing \\ asks for the container"),
    }
    assert!(matches!(CloudResource::from_path("x", "Azure"), Ok(CloudResource::Azure(_))));
    assert!(matches!(
        CloudResource::from_path("x", "S3"),
        Err(AurrError::UnsupportedCloudType(t)) if t == "S3"
    ));
}

#[test]
fn names_containers_and_parts() {
    let t = AzureCloudResource::Text("cont/dir/blob".to_string());
    assert_eq!(t.get_name(), "cont/dir/blob");
    assert_eq!(t.as_string(), "cont/dir/blob");
    assert_eq!(t.get_container_name(), Some("cont".to_string()));
    assert_eq!(
        t.get_container_blob_by_pathsep().unwrap(),
        (Some("cont".to_string()), Some("dir/blob".to_string()))
    );
    let s = AzureCloudResource::Text("cont::dir/blob".to_string());
    assert_eq!(
        s.get_container_blob_by_pathsep().unwrap(),
        (Some("cont".to_string()), Some("dir/blob".to_string()))
    );
    let bad = AzureCloudResource::Text("nosep".to_string());
    assert_eq!(
        bad.get_container_blob_by_pathsep(),
        Err(AurrError::InvalidResourcePath("nosep".to_string()))
    );
    let c = AzureCloudResource::Container("c".to_string());
    assert_eq!(c.get_container_blob_by_pathsep().unwrap(), (Some("c".to_string()), None));
    let b = AzureCloudResource::Blob(BlobInfo { name: "b".to_string(), etag: "e".to_string(), last_modified: 0 });
    assert_eq!(b.get_container_name(), None);
    assert_eq!(b.get_container_blob_by_pathsep().unwrap(), (None, Some("b".to_string())));
    let r = CloudResource::Azure(AzureCloudResource::Text("c\\x".to_string()));
    assert_eq!(r.get_type(), "Azure");
    assert_eq!(r.get_info(), Some("c/c\\x".to_string()));
    let k = CloudResource::Azure(AzureCloudResource::Blob(BlobInfo { name: "n".to_string(), etag: String::new(), last_modified: 1 }));
    assert_eq!(k.get_info(), Some("N/A/n".to_string()));
}

#[test]
fn addresses_with_tokens() {
    assert_eq!(container_url("acct", "case", "sig=1"), "https://acct.blob.core.windows.net/case?sig=1");
    assert_eq!(blob_url("acct", "case", "f.txt", "t"), "https://acct.blob.core.windows.net/case/f.txt?t");
}

#[test]
fn read_and_upload_targets() {
    let p = AzureCloudResource::Text("case\\dir/f".to_string());
    assert_eq!(read_target(None, &p).unwrap(), ("case".to_string(), "dir/f".to_string()));
    let only = AzureCloudResource::Text("case".to_string());
    assert_eq!(read_target(None, &only), Err(AurrError::ContainerOnly("case".to_string())));
    assert_eq!(
        read_target(Some("x"), &only).unwrap_err().message(),
        "Cant Grant Read Access to CONTAINER ONLY"
    );
    let bc = AzureCloudResource::BlobClient(BlobRef { container_name: "own".to_string(), blob_name: "b".to_string() });
    assert_eq!(read_target(None, &bc).unwrap(), ("own".to_string(), "b".to_string()));
    assert_eq!(read_target(Some("given"), &bc).unwrap(), ("given".to_string(), "b".to_string()));
    let c = AzureCloudResource::Container("c".to_string());
    assert_eq!(read_target(None, &c), Err(AurrError::ResourceNotSupported));
    let blob = AzureCloudResource::Blob(BlobInfo { name: "b".to_string(), etag: "e".to_string(), last_modified: 0 });
    assert_eq!(read_target(None, &blob), Err(AurrError::NoContainerGiven));
    assert_eq!(read_target(Some("c"), &blob), Err(AurrError::ResourceNotSupported));
    assert_eq!(
        AurrError::ResourceNotSupported.message(),
        "Provided AzureCloudResource: <{}> not supported yet - Check spelling"
    );
    assert_eq!(upload_container(&CloudResource::Azure(AzureCloudResource::Container("c".to_string()))), Ok("c".to_string()));
    assert!(upload_container(&CloudResource::Azure(AzureCloudResource::Text("c/x".to_string()))).is_err());
}

#[test]
fn status_report_of_a_blob() {
    let r = BlobReport {
        name: "b".to_string(),
        path: "c/b".to_string(),
        creation_time: "t0".to_string(),
        last_modified: "t1".to_string(),
        last_access_time: None,
        etag: "e".to_string(),
        content_length: 42,
        content_md5: Some(vec![0xde, 0xad, 0x01, 0x0f]),
        meta_date: "d".to_string(),
        meta_etag: "me".to_string(),
        request_id: "rq".to_string(),
        server: "srv".to_string(),
    };
    assert_eq!(
        status_report(&r, "[UNSURE]"),
        format!(
            "\n    Blob: \n        Name: {}\n        Path: {}\n    Properties:\n        Creation_Time(UTC): {}\n        Last_Modified(UTC): {}\n        Last_Accessed{}\n        ETag: {}\n        Content_Len: {}\n        md5: {}\n    Metadata:\n        Meta_Date: {}\n        Meta_ETag: {}\n        Request_ID: {}\n        Server: {}\n    Uploaded status:\n        {}\n",
            "b", "c/b", "t0", "t1", "N/A", "e", 42, "dead010f", "d", "me", "rq", "srv", "[UNSURE]"
        )
    );
}

#[test]
fn blob_a_client_addresses() {
    assert_eq!(AzureCloudResource::Text("c/d/e".to_string()).client_blob_name(), Some("d/e".to_string()));
    assert_eq!(AzureCloudResource::Text("e".to_string()).client_blob_name(), Some("e".to_string()));
    assert_eq!(AzureCloudResource::Container("c".to_string()).client_blob_name(), None);
    let bc = AzureCloudResource::BlobClient(BlobRef { container_name: "c".to_string(), blob_name: "b".to_string() });
    assert_eq!(bc.client_blob_name(), Some("b".to_string()));
}
