//! Which blobs a sync of a container downloads, and when.
//!
//! A sync lists the blobs of a container again and again. A blob counts as
//! uploaded once it has an entity tag and was last modified before the cut-off
//! (the time of the check less the check period). An uploaded blob is
//! downloaded once, and again whenever it was modified after the last
//! download.
use vstd::prelude::*;
use crate::cloud::BlobInfo;
use crate::table::{ascending, holds_key, value_of, SortedTable};
use crate::text::{owned, pad_right, padded, replace, replace_all};

verus! {

broadcast use vstd::string::group_string_axioms;

/// What a sync knows of one blob.
#[derive(Clone, Copy, Debug, PartialEq, Eq, Structural)]
pub struct BlobStatus {
    pub uploaded: bool,
    pub downloaded: bool,
    /// When the blob had last been modified at its last download.
    pub download_timestamp: i128,
}

/// What to do about one listed blob.
pub enum SyncAction {
    /// Nothing for now.
    Wait,
    /// Download the blob at this path (`container/blob`).
    DownloadPath(String),
    /// Download the listed blob itself.
    DownloadBlob,
}

/// The form of a sync action, as a view.
pub enum SyncStep {
    Wait,
    DownloadPath(Seq<char>),
    DownloadBlob,
}

/// The view of a sync action.
pub open spec fn step_of(a: SyncAction) -> SyncStep {
    match a {
        SyncAction::Wait => SyncStep::Wait,
        SyncAction::DownloadPath(p) => SyncStep::DownloadPath(p@),
        SyncAction::DownloadBlob => SyncStep::DownloadBlob,
    }
}

/// A blob with this entity tag and modification time counts as uploaded at
/// the cut-off.
pub open spec fn uploaded_by(etag: Seq<char>, last_modified: int, cutoff: int) -> bool {
    etag.len() > 0 && last_modified < cutoff
}

/// Whether a blob counts as uploaded: it has an entity tag and was last
/// modified before the cut-off.
pub fn check_uploaded(etag: &str, last_modified: i128, cutoff: i128) -> (r: bool)
    ensures
        r == uploaded_by(etag@, last_modified as int, cutoff as int),
{
    !etag.is_empty() && last_modified < cutoff
}

/// The path of a blob in a container: `container/name` with `//` made `/`.
pub open spec fn blob_path(container: Seq<char>, name: Seq<char>) -> Seq<char> {
    replace_all(container + "/"@ + name, "//"@, "/"@)
}

/// What observing a blob does: the new status of the blob and the step to
/// take, given what was known of it.
pub open spec fn observed(
    known: Option<BlobStatus>,
    container: Seq<char>,
    name: Seq<char>,
    etag: Seq<char>,
    last_modified: int,
    cutoff: int,
) -> (BlobStatus, SyncStep) {
    let check = uploaded_by(etag, last_modified, cutoff);
    match known {
        None => (
            BlobStatus {
                uploaded: check,
                downloaded: check,
                download_timestamp: last_modified as i128,
            },
            if check {
                SyncStep::DownloadPath(blob_path(container, name))
            } else {
                SyncStep::Wait
            },
        ),
        Some(bs) => {
            let up = bs.uploaded || check;
            if !bs.downloaded && up {
                (
                    BlobStatus {
                        uploaded: up,
                        downloaded: true,
                        download_timestamp: last_modified as i128,
                    },
                    SyncStep::DownloadBlob,
                )
            } else if bs.downloaded && up && bs.download_timestamp < last_modified {
                (
                    BlobStatus {
                        uploaded: up,
                        downloaded: true,
                        download_timestamp: last_modified as i128,
                    },
                    SyncStep::DownloadBlob,
                )
            } else {
                (
                    BlobStatus {
                        uploaded: up,
                        downloaded: bs.downloaded,
                        download_timestamp: bs.download_timestamp,
                    },
                    SyncStep::Wait,
                )
            }
        },
    }
}

/// What a sync knows of the blobs of a container, by name.
pub struct SyncState {
    blobs: SortedTable<BlobStatus>,
}

impl SyncState {
    /// The blobs seen so far and their status, in name order.
    pub closed spec fn entries(&self) -> Seq<(Seq<char>, BlobStatus)> {
        self.blobs.entries()
    }

    /// A sync that has seen no blob.
    pub fn new() -> (s: SyncState)
        ensures
            s.entries() == Seq::<(Seq<char>, BlobStatus)>::empty(),
    {
        SyncState { blobs: SortedTable::new() }
    }

    /// The status of the blob `name`, if it was seen.
    pub fn status(&self, name: &str) -> (r: Option<BlobStatus>)
        ensures
            r == value_of(self.entries(), name@),
    {
        match self.blobs.get(name) {
            Some(s) => Some(*s),
            None => None,
        }
    }

    /// The number of blobs seen.
    pub fn len(&self) -> (n: usize)
        ensures
            n == self.entries().len(),
    {
        self.blobs.len()
    }

    /// The name and status of the `i`-th blob in name order.
    pub fn entry(&self, i: usize) -> (r: (&String, BlobStatus))
        requires
            i < self.entries().len(),
        ensures
            r.0@ == self.entries()[i as int].0,
            r.1 == self.entries()[i as int].1,
    {
        let (k, v) = self.blobs.entry(i);
        (k, *v)
    }

    /// Takes in one listed blob of `container` at a check whose cut-off is
    /// `cutoff`: records its new status and says what to download.
    pub fn observe(&mut self, container: &str, blob: &BlobInfo, cutoff: i128) -> (r: SyncAction)
        ensures
            ({
                let (st, step) = observed(
                    value_of(old(self).entries(), blob.name@),
                    container@,
                    blob.name@,
                    blob.etag@,
                    blob.last_modified as int,
                    cutoff as int,
                );
                &&& step_of(r) == step
                &&& value_of(final(self).entries(), blob.name@) == Some(st)
            }),
            forall|k: Seq<char>|
                k != blob.name@ ==> value_of(final(self).entries(), k) == value_of(
                    old(self).entries(),
                    k,
                ),
    {
        let check = check_uploaded(blob.etag.as_str(), blob.last_modified, cutoff);
        let known = self.status(blob.name.as_str());
        match known {
            None => {
                let st = BlobStatus {
                    uploaded: check,
                    downloaded: check,
                    download_timestamp: blob.last_modified,
                };
                self.blobs.insert(blob.name.clone(), st);
                if check {
                    let mut p = owned(container);
                    p.append("/");
                    p.append(blob.name.as_str());
                    SyncAction::DownloadPath(replace(p.as_str(), "//", "/"))
                } else {
                    SyncAction::Wait
                }
            },
            Some(bs) => {
                let up = bs.uploaded || check;
                if !bs.downloaded && up {
                    let st = BlobStatus {
                        uploaded: up,
                        downloaded: true,
                        download_timestamp: blob.last_modified,
                    };
                    self.blobs.insert(blob.name.clone(), st);
                    SyncAction::DownloadBlob
                } else if bs.downloaded && up && bs.download_timestamp < blob.last_modified {
                    let st = BlobStatus {
                        uploaded: up,
                        downloaded: true,
                        download_timestamp: blob.last_modified,
                    };
                    self.blobs.insert(blob.name.clone(), st);
                    SyncAction::DownloadBlob
                } else {
                    let st = BlobStatus {
                        uploaded: up,
                        downloaded: bs.downloaded,
                        download_timestamp: bs.download_timestamp,
                    };
                    self.blobs.insert(blob.name.clone(), st);
                    SyncAction::Wait
                }
            },
        }
    }
}

/// Every status that a sync records has a downloaded blob only if it is
/// uploaded: observing keeps that so for the observed blob.
pub proof fn law_downloaded_only_when_uploaded(
    known: Option<BlobStatus>,
    container: Seq<char>,
    name: Seq<char>,
    etag: Seq<char>,
    last_modified: int,
    cutoff: int,
)
    requires
        known matches Some(k) ==> (k.downloaded ==> k.uploaded),
    ensures
        ({
            let st = observed(known, container, name, etag, last_modified, cutoff).0;
            st.downloaded ==> st.uploaded
        }),
{
}

/// An uploaded blob stays uploaded and a downloaded blob stays downloaded.
pub proof fn law_status_only_grows(
    known: BlobStatus,
    container: Seq<char>,
    name: Seq<char>,
    etag: Seq<char>,
    last_modified: i128,
    cutoff: int,
)
    ensures
        ({
            let st = observed(Some(known), container, name, etag, last_modified as int, cutoff).0;
            &&& known.uploaded ==> st.uploaded
            &&& known.downloaded ==> st.downloaded
        }),
{
}

/// A blob that was downloaded is downloaded again only when it was modified
/// after the last download, and the recorded time then moves forward.
pub proof fn law_redownload_only_when_newer(
    known: BlobStatus,
    container: Seq<char>,
    name: Seq<char>,
    etag: Seq<char>,
    last_modified: i128,
    cutoff: int,
)
    requires
        known.downloaded,
    ensures
        ({
            let (st, step) = observed(
                Some(known),
                container,
                name,
                etag,
                last_modified as int,
                cutoff,
            );
            &&& step != SyncStep::Wait ==> known.download_timestamp < last_modified
            &&& st.download_timestamp >= known.download_timestamp
        }),
{
}

/// A blob is downloaded the first time it is seen exactly when it counts as
/// uploaded, and never before it counts as uploaded.
pub proof fn law_download_needs_upload(
    known: Option<BlobStatus>,
    container: Seq<char>,
    name: Seq<char>,
    etag: Seq<char>,
    last_modified: i128,
    cutoff: int,
)
    requires
        known matches Some(k) ==> (k.downloaded ==> k.uploaded),
    ensures
        ({
            let (st, step) = observed(known, container, name, etag, last_modified as int, cutoff);
            step != SyncStep::Wait ==> st.uploaded && st.downloaded
                && st.download_timestamp == last_modified
        }),
{
}

/// One line of the listing of a sync: the blob's name padded to 50
/// characters, its upload and download marks and the time of its last
/// download.
pub open spec fn sync_line_spec(
    name: Seq<char>,
    uploaded_mark: Seq<char>,
    downloaded_mark: Seq<char>,
    time: Seq<char>,
) -> Seq<char> {
    "\t"@ + pad_right(name, 50) + " "@ + uploaded_mark + " "@ + downloaded_mark + " Time(UTC):<"@
        + time + ">\n"@
}

/// One line of the listing of a sync.
pub fn sync_line(name: &str, uploaded_mark: &str, downloaded_mark: &str, time: &str) -> (r: String)
    ensures
        r@ == sync_line_spec(name@, uploaded_mark@, downloaded_mark@, time@),
{
    let mut s = owned("\t");
    let n = padded(name, 50);
    s.append(n.as_str());
    s.append(" ");
    s.append(uploaded_mark);
    s.append(" ");
    s.append(downloaded_mark);
    s.append(" Time(UTC):<");
    s.append(time);
    s.append(">\n");
    s
}

} // verus!
