use aurr_manager::cloud::BlobInfo;
use aurr_manager::sync::{check_uploaded, sync_line, SyncAction, SyncState};

fn blob(name: &str, etag: &str, t: i128) -> BlobInfo {
    BlobInfo { name: name.to_string(), etag: etag.to_string(), last_modified: t }
}

#[test]
fn uploaded_needs_tag_and_age() {
    assert!(check_uploaded("0x1", 5, 10));
    assert!(!check_uploaded("", 5, 10));
    assert!(!check_uploaded("0x1", 10, 10));
}

#[test]
fn a_blob_is_downloaded_once_then_when_newer() {
    let mut s = SyncState::new();
    assert!(matches!(s.observe("cont/", &blob("a", "", 1), 100), SyncAction::Wait));
    let st = s.status("a").unwrap();
    assert!(!st.uploaded && !st.downloaded);
    assert!(matches!(s.observe("cont/", &blob("a", "e", 1), 100), SyncAction::DownloadBlob));
    assert!(s.status("a").unwrap().downloaded);
    assert!(matches!(s.observe("cont/", &blob("a", "e", 1), 100), SyncAction::Wait));
    assert!(matches!(s.observe("cont/", &blob("a", "e", 50), 100), SyncAction::DownloadBlob));
    assert_eq!(s.status("a").unwrap().download_timestamp, 50);
    match s.observe("cont/", &blob("b", "e", 1), 100) {
        SyncAction::DownloadPath(p) => assert_eq!(p, "cont/b"),
        _ => panic!("expected a download by path"),
    }
    assert_eq!(s.len(), 2);
    let (name, st) = s.entry(1);
    assert_eq!(name, "b");
    assert!(st.uploaded && st.downloaded);
}

#[test]
fn sync_listing_line() {
    assert_eq!(
        sync_line("blob.txt", "[UP]", "[DOWN]", "t"),
        format!("\t{:<50} {:<} {:<} Time(UTC):<{}>\n", "blob.txt", "[UP]", "[DOWN]", "t")
    );
}
