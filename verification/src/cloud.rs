//! Cloud resources: how paths name containers and blobs, and the addresses
//! that grant access to them.
use vstd::prelude::*;
use crate::error::AurrError;
use crate::table::{value_of, ascending, SortedTable};
use crate::text::{
    contains, contains_seq, ends_with, ends_with_seq, equals, first_piece, first_piece_of,
    decimal, decimal_string, owned, replace, replace_all, split_once, split_once_spec,
};

verus! {

broadcast use vstd::string::group_string_axioms;

/// What the logic reads of a blob listed in a container: its name, its entity
/// tag and when it was last modified (in nanoseconds since the Unix epoch).
pub struct BlobInfo {
    pub name: String,
    pub etag: String,
    pub last_modified: i128,
}

/// A blob client: the container and the name of the blob it addresses.
pub struct BlobRef {
    pub container_name: String,
    pub blob_name: String,
}

/// A resource in an Azure storage account.
pub enum AzureCloudResource {
    /// A path, `container/blob` or `container::blob`.
    Text(String),
    /// A blob as a listing gives it.
    Blob(BlobInfo),
    /// A blob addressed through its container.
    BlobClient(BlobRef),
    /// A container, by name.
    Container(String),
}

/// The name of a resource.
pub open spec fn resource_name(r: AzureCloudResource) -> Seq<char> {
    match r {
        AzureCloudResource::Text(s) => s@,
        AzureCloudResource::Blob(b) => b.name@,
        AzureCloudResource::BlobClient(bc) => bc.blob_name@,
        AzureCloudResource::Container(c) => c@,
    }
}

/// The resource that a path names: the path with `\\` made `/` and one
/// trailing `/` removed (a trailing `/` asks for the container itself); with
/// no `/` left in it, the container of that name, otherwise that path.
pub open spec fn resource_from_path(path: Seq<char>) -> AzureCloudResourceView {
    let s = trim_one_slash(replace_all(path, "\\"@, "/"@));
    if contains_seq(s, "/"@) {
        AzureCloudResourceView::Text(s)
    } else {
        AzureCloudResourceView::Container(s)
    }
}

/// `s` without one trailing `/`.
pub open spec fn trim_one_slash(s: Seq<char>) -> Seq<char> {
    if ends_with_seq(s, "/"@) {
        s.drop_last()
    } else {
        s
    }
}

/// The path and container forms of a resource, as views.
pub enum AzureCloudResourceView {
    Text(Seq<char>),
    Container(Seq<char>),
    Other,
}

/// The view of a resource's form.
pub open spec fn form_of(r: AzureCloudResource) -> AzureCloudResourceView {
    match r {
        AzureCloudResource::Text(s) => AzureCloudResourceView::Text(s@),
        AzureCloudResource::Container(c) => AzureCloudResourceView::Container(c@),
        _ => AzureCloudResourceView::Other,
    }
}

/// The container that a resource names, if it names one: a path gives the
/// part before its first `/` (after making `\` a `/`).
pub open spec fn container_of(r: AzureCloudResource) -> Option<Seq<char>> {
    match r {
        AzureCloudResource::BlobClient(bc) => Some(bc.container_name@),
        AzureCloudResource::Container(c) => Some(c@),
        AzureCloudResource::Text(s) => Some(first_piece(replace_all(s@, "\\"@, "/"@), '/')),
        AzureCloudResource::Blob(_) => None,
    }
}

/// The separator of a path: `::` when it holds one, `/` otherwise.
pub open spec fn path_separator(s: Seq<char>) -> Seq<char> {
    if contains_seq(s, "::"@) {
        "::"@
    } else {
        "/"@
    }
}

/// What a resource gives as its container and blob parts.
pub open spec fn container_blob_of(r: AzureCloudResource) -> Option<
    (Option<Seq<char>>, Option<Seq<char>>),
> {
    match r {
        AzureCloudResource::Text(s) => match split_once_spec(s@, path_separator(s@)) {
            Some((a, b)) => Some((Some(a), Some(b))),
            None => None,
        },
        AzureCloudResource::Container(c) => Some((Some(c@), None)),
        AzureCloudResource::Blob(b) => Some((None, Some(b.name@))),
        AzureCloudResource::BlobClient(_) => None,
    }
}


impl AzureCloudResource {
    /// The name of the resource: the path, the blob's name or the
    /// container's name.
    pub fn get_name(&self) -> (r: String)
        ensures
            r@ == resource_name(*self),
    {
        match self {
            AzureCloudResource::Text(s) => s.clone(),
            AzureCloudResource::Blob(b) => b.name.clone(),
            AzureCloudResource::BlobClient(bc) => bc.blob_name.clone(),
            AzureCloudResource::Container(c) => c.clone(),
        }
    }

    /// The resource as text: the same as its name.
    pub fn as_string(&self) -> (r: String)
        ensures
            r@ == resource_name(*self),
    {
        self.get_name()
    }

    /// The container and blob parts of the resource: a path is split at its
    /// first separator (`::` if it holds one, else `/`) and has both; a
    /// container has only its name, a blob only its name. A path without the
    /// separator and a blob client give an error.
    pub fn get_container_blob_by_pathsep(&self) -> (r: Result<
        (Option<String>, Option<String>),
        AurrError,
    >)
        ensures
            match container_blob_of(*self) {
                Some((c, b)) => r matches Ok(x) && crate::text::opt_view(x.0) == c
                    && crate::text::opt_view(x.1) == b,
                None => r is Err,
            },
    {
        match self {
            AzureCloudResource::Text(s) => {
                let sep = if contains(s.as_str(), "::") {
                    owned("::")
                } else {
                    owned("/")
                };
                match split_once(s.as_str(), sep.as_str()) {
                    None => Err(AurrError::InvalidResourcePath(s.clone())),
                    Some((a, b)) => Ok((Some(a), Some(b))),
                }
            },
            AzureCloudResource::Container(c) => Ok((Some(c.clone()), None)),
            AzureCloudResource::Blob(b) => Ok((None, Some(b.name.clone()))),
            AzureCloudResource::BlobClient(bc) => Err(
                AurrError::UnsupportedResource(bc.blob_name.clone()),
            ),
        }
    }

    /// The name of the container that the resource is in or is, if it names
    /// one.
    pub fn get_container_name(&self) -> (r: Option<String>)
        ensures
            crate::text::opt_view(r) == container_of(*self),
    {
        match self {
            AzureCloudResource::BlobClient(bc) => Some(bc.container_name.clone()),
            AzureCloudResource::Container(c) => Some(c.clone()),
            AzureCloudResource::Text(s) => {
                let t = replace(s.as_str(), "\\", "/");
                Some(first_piece_of(t.as_str(), '/'))
            },
            AzureCloudResource::Blob(_) => None,
        }
    }

    /// The resource that a path names (see `resource_from_path`); this
    /// always succeeds.
    pub fn from_path(path: &str) -> (r: Result<AzureCloudResource, AurrError>)
        ensures
            r matches Ok(x) && form_of(x) == resource_from_path(path@),
    {
        let mut s = replace(path, "\\", "/");
        proof {
            reveal_strlit("/");
        }
        if ends_with(s.as_str(), "/") {
            s = trimmed_last(&s);
        }
        if contains(s.as_str(), "/") {
            Ok(AzureCloudResource::Text(s))
        } else {
            Ok(AzureCloudResource::Container(s))
        }
    }
}

/// `s` without its last character.
fn trimmed_last(s: &String) -> (r: String)
    requires
        s@.len() > 0,
    ensures
        r@ == s@.drop_last(),
{
    let v = crate::text::chars_of(s.as_str());
    let mut out = String::new();
    let mut i: usize = 0;
    while i + 1 < v.len()
        invariant
            v@ == s@,
            v.len() > 0,
            i < v.len(),
            out@ == s@.take(i as int),
        decreases v.len() - i,
    {
        crate::text::push_char(&mut out, v[i]);
        i = i + 1;
        assert(out@ =~= s@.take(i as int));
    }
    assert(s@.take(i as int) =~= s@.drop_last());
    out
}

/// A resource of some cloud.
pub enum CloudResource {
    Azure(AzureCloudResource),
}

/// The name of the kind of cloud that a resource is in.
pub open spec fn cloud_type_of(r: CloudResource) -> Seq<char> {
    match r {
        CloudResource::Azure(_) => "Azure"@,
    }
}

/// The description of a resource: its container (or `N/A`), `/`, its name.
pub open spec fn resource_info(r: CloudResource) -> Seq<char> {
    match r {
        CloudResource::Azure(a) => container_or_na(container_of(a)) + "/"@ + resource_name(a),
    }
}

/// A container name, or `N/A` when there is none.
pub open spec fn container_or_na(c: Option<Seq<char>>) -> Seq<char> {
    match c {
        Some(c) => c,
        None => "N/A"@,
    }
}

impl CloudResource {
    /// The Azure resource.
    pub fn as_azure(&self) -> (r: Option<&AzureCloudResource>)
        ensures
            match *self {
                CloudResource::Azure(a) => r == Some(&a),
            },
    {
        match self {
            CloudResource::Azure(azure) => Some(azure),
        }
    }

    /// The kind of cloud ("Azure").
    pub fn get_type(&self) -> (r: String)
        ensures
            r@ == cloud_type_of(*self),
    {
        match self {
            CloudResource::Azure(_) => owned("Azure"),
        }
    }

    /// The description of the resource, `container/name`; it is always
    /// given.
    pub fn get_info(&self) -> (r: Option<String>)
        ensures
            r matches Some(s) && s@ == resource_info(*self),
    {
        match self {
            CloudResource::Azure(acr) => {
                let mut s = match acr.get_container_name() {
                    Some(cn) => cn,
                    None => owned("N/A"),
                };
                s.append("/");
                let n = acr.get_name();
                s.append(n.as_str());
                Some(s)
            },
        }
    }

    /// The resource that `path` names in a cloud of type `cloud_type`; only
    /// "Azure" is supported.
    pub fn from_path(path: &str, cloud_type: &str) -> (r: Result<CloudResource, AurrError>)
        ensures
            cloud_type@ == "Azure"@ ==> (r matches Ok(CloudResource::Azure(a)) && form_of(a)
                == resource_from_path(path@)),
            cloud_type@ != "Azure"@ ==> (r matches Err(e) && (e matches AurrError::UnsupportedCloudType(
                t,
            ) && t@ == cloud_type@)),
    {
        if equals(cloud_type, "Azure") {
            match AzureCloudResource::from_path(path) {
                Ok(a) => Ok(CloudResource::Azure(a)),
                Err(e) => Err(e),
            }
        } else {
            Err(AurrError::UnsupportedCloudType(owned(cloud_type)))
        }
    }
}

/// The address of a container with an access token.
pub open spec fn container_url_spec(account: Seq<char>, container: Seq<char>, token: Seq<char>) -> Seq<
    char,
> {
    "https://"@ + account + ".blob.core.windows.net/"@ + container + "?"@ + token
}

/// The address of a blob with an access token.
pub open spec fn blob_url_spec(
    account: Seq<char>,
    container: Seq<char>,
    name: Seq<char>,
    token: Seq<char>,
) -> Seq<char> {
    "https://"@ + account + ".blob.core.windows.net/"@ + container + "/"@ + name + "?"@ + token
}

/// The address of a container of a storage account, with an access token.
pub fn container_url(account: &str, container: &str, token: &str) -> (r: String)
    ensures
        r@ == container_url_spec(account@, container@, token@),
{
    let mut s = owned("https://");
    s.append(account);
    s.append(".blob.core.windows.net/");
    s.append(container);
    s.append("?");
    s.append(token);
    s
}

/// The address of a blob of a storage account, with an access token.
pub fn blob_url(account: &str, container: &str, name: &str, token: &str) -> (r: String)
    ensures
        r@ == blob_url_spec(account@, container@, name@, token@),
{
    let mut s = owned("https://");
    s.append(account);
    s.append(".blob.core.windows.net/");
    s.append(container);
    s.append("/");
    s.append(name);
    s.append("?");
    s.append(token);
    s
}

/// The container and blob that read access is granted to for a resource:
/// a blob client gives its blob, in the container given (or its own); a
/// path `container/blob` (with `\` read as `/`) gives that blob. Other
/// resources, and paths without `/`, are refused.
pub open spec fn read_target_spec(container: Option<Seq<char>>, r: AzureCloudResource) -> Option<
    (Seq<char>, Seq<char>),
> {
    match r {
        AzureCloudResource::BlobClient(bc) => Some(
            (
                match container {
                    Some(c) => c,
                    None => bc.container_name@,
                },
                bc.blob_name@,
            ),
        ),
        AzureCloudResource::Text(s) => split_once_spec(replace_all(s@, "\\"@, "/"@), "/"@),
        _ => None,
    }
}

/// The container and blob that a read-access address is made for. A path
/// without `/` is refused as naming only a container; a blob with no
/// container given names none; a container, or a blob with a container
/// given, is a kind of resource that cannot be read.
pub fn read_target(container: Option<&str>, r: &AzureCloudResource) -> (t: Result<
    (String, String),
    AurrError,
>)
    ensures
        match read_target_spec(
            match container {
                Some(c) => Some(c@),
                None => None,
            },
            *r,
        ) {
            Some((c, b)) => t matches Ok(x) && x.0@ == c && x.1@ == b,
            None => match *r {
                AzureCloudResource::Text(s) => t matches Err(e) && (e matches AurrError::ContainerOnly(
                    p,
                ) && p@ == s@),
                AzureCloudResource::Blob(_) => if container is None {
                    t matches Err(e) && e is NoContainerGiven
                } else {
                    t matches Err(e) && e is ResourceNotSupported
                },
                _ => t matches Err(e) && e is ResourceNotSupported,
            },
        },
{
    match r {
        AzureCloudResource::BlobClient(bc) => {
            let c = match container {
                Some(c) => owned(c),
                None => bc.container_name.clone(),
            };
            Ok((c, bc.blob_name.clone()))
        },
        AzureCloudResource::Text(s) => {
            let t = replace(s.as_str(), "\\", "/");
            match split_once(t.as_str(), "/") {
                Some((c, b)) => Ok((c, b)),
                None => Err(AurrError::ContainerOnly(s.clone())),
            }
        },
        AzureCloudResource::Blob(_) => match container {
            None => Err(AurrError::NoContainerGiven),
            Some(_) => Err(AurrError::ResourceNotSupported),
        },
        AzureCloudResource::Container(_) => Err(AurrError::ResourceNotSupported),
    }
}

/// The container that an upload token or address is granted for: only a
/// container resource has one.
pub fn upload_container(r: &CloudResource) -> (t: Result<String, AurrError>)
    ensures
        match *r {
            CloudResource::Azure(AzureCloudResource::Container(c)) => t matches Ok(x) && x@ == c@,
            _ => t is Err,
        },
{
    match r {
        CloudResource::Azure(AzureCloudResource::Container(c)) => Ok(c.clone()),
        CloudResource::Azure(a) => Err(AurrError::UnsupportedResource(a.get_name())),
    }
}

/// The blob that a client for a resource addresses: a blob by its name, a
/// path by the part after its first `/` (or all of it without one), a
/// client by its own blob; a container names no blob.
pub open spec fn client_blob_spec(r: AzureCloudResource) -> Option<Seq<char>> {
    match r {
        AzureCloudResource::Blob(b) => Some(b.name@),
        AzureCloudResource::Text(s) => match split_once_spec(s@, "/"@) {
            Some((_, b)) => Some(b),
            None => Some(s@),
        },
        AzureCloudResource::BlobClient(bc) => Some(bc.blob_name@),
        AzureCloudResource::Container(_) => None,
    }
}

impl AzureCloudResource {
    /// The name of the blob that a blob client for this resource addresses.
    pub fn client_blob_name(&self) -> (r: Option<String>)
        ensures
            crate::text::opt_view(r) == client_blob_spec(*self),
    {
        match self {
            AzureCloudResource::Blob(b) => Some(b.name.clone()),
            AzureCloudResource::Text(s) => match split_once(s.as_str(), "/") {
                Some((_, b)) => Some(b),
                None => Some(s.clone()),
            },
            AzureCloudResource::BlobClient(bc) => Some(bc.blob_name.clone()),
            AzureCloudResource::Container(_) => None,
        }
    }
}

/// The lower-case hexadecimal digit of a number below 16.
pub open spec fn hex_digit(n: int) -> char {
    if n < 10 {
        (48 + n) as char
    } else {
        (87 + n) as char
    }
}

/// Bytes written in lower-case hexadecimal: two digits a byte, the high half
/// first.
pub open spec fn hex_text(b: Seq<u8>) -> Seq<char>
    decreases b.len(),
{
    if b.len() == 0 {
        Seq::empty()
    } else {
        hex_text(b.drop_last()) + seq![hex_digit((b.last() / 16) as int), hex_digit((b.last() % 16) as int)]
    }
}

/// Calls `hex::encode`, which writes each byte as two lower-case hexadecimal
/// digits, the high half first; the contract states that text.
#[verifier::external_body]
fn hex_encode(bytes: &Vec<u8>) -> (r: String)
    ensures
        r@ == hex_text(bytes@),
{
    hex::encode(bytes)
}

/// What the cloud tells of one blob, as the status report shows it: each
/// time already written out.
pub struct BlobReport {
    pub name: String,
    pub path: String,
    pub creation_time: String,
    pub last_modified: String,
    pub last_access_time: Option<String>,
    pub etag: String,
    pub content_length: u64,
    pub content_md5: Option<Vec<u8>>,
    pub meta_date: String,
    pub meta_etag: String,
    pub request_id: String,
    pub server: String,
}

/// The status report of a blob, with its upload mark.
pub open spec fn report_text(r: BlobReport, uploaded_mark: Seq<char>) -> Seq<char> {
    "\n    Blob: \n        Name: "@ + r.name@ + "\n        Path: "@ + r.path@
        + "\n    Properties:\n        Creation_Time(UTC): "@ + r.creation_time@
        + "\n        Last_Modified(UTC): "@ + r.last_modified@ + "\n        Last_Accessed"@
        + match r.last_access_time {
        Some(t) => t@,
        None => "N/A"@,
    } + "\n        ETag: "@ + r.etag@ + "\n        Content_Len: "@ + decimal(
        r.content_length as nat,
    ) + "\n        md5: "@ + match r.content_md5 {
        Some(b) => hex_text(b@),
        None => "N/A"@,
    } + "\n    Metadata:\n        Meta_Date: "@ + r.meta_date@ + "\n        Meta_ETag: "@
        + r.meta_etag@ + "\n        Request_ID: "@ + r.request_id@ + "\n        Server: "@
        + r.server@ + "\n    Uploaded status:\n        "@ + uploaded_mark + "\n"@
}

/// The status report of a blob, with its upload mark.
pub fn status_report(r: &BlobReport, uploaded_mark: &str) -> (s: String)
    ensures
        s@ == report_text(*r, uploaded_mark@),
{
    let mut s = owned("\n    Blob: \n        Name: ");
    s.append(r.name.as_str());
    s.append("\n        Path: ");
    s.append(r.path.as_str());
    s.append("\n    Properties:\n        Creation_Time(UTC): ");
    s.append(r.creation_time.as_str());
    s.append("\n        Last_Modified(UTC): ");
    s.append(r.last_modified.as_str());
    s.append("\n        Last_Accessed");
    match &r.last_access_time {
        Some(t) => s.append(t.as_str()),
        None => s.append("N/A"),
    }
    s.append("\n        ETag: ");
    s.append(r.etag.as_str());
    s.append("\n        Content_Len: ");
    let n = decimal_string(r.content_length);
    s.append(n.as_str());
    s.append("\n        md5: ");
    match &r.content_md5 {
        Some(b) => {
            let h = hex_encode(b);
            s.append(h.as_str());
        },
        None => s.append("N/A"),
    }
    s.append("\n    Metadata:\n        Meta_Date: ");
    s.append(r.meta_date.as_str());
    s.append("\n        Meta_ETag: ");
    s.append(r.meta_etag.as_str());
    s.append("\n        Request_ID: ");
    s.append(r.request_id.as_str());
    s.append("\n        Server: ");
    s.append(r.server.as_str());
    s.append("\n    Uploaded status:\n        ");
    s.append(uploaded_mark);
    s.append("\n");
    s
}

} // verus!
