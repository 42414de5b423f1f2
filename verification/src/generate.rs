//! Deciding what to generate in the cloud for a tool: upload tokens and
//! upload addresses, for which resource and for how long.
use vstd::prelude::*;
use crate::cloud::{form_of, resource_from_path, CloudResource};
use crate::error::AurrError;
use crate::kv::{lookup, StringMap};
use crate::text::{contains, contains_seq, ends_with, ends_with_seq, opt_view, owned};

verus! {

broadcast use vstd::string::group_string_axioms;

/// The text of a random (version 4) UUID: 36 characters, lower-case
/// hexadecimal digits with `-` at positions 8, 13, 18 and 23, and `4` (the
/// version) at position 14.
pub open spec fn uuid_shaped(s: Seq<char>) -> bool {
    &&& s.len() == 36
    &&& s[8] == '-' && s[13] == '-' && s[18] == '-' && s[23] == '-'
    &&& s[14] == '4'
    &&& forall|i: int|
        0 <= i < 36 && i != 8 && i != 13 && i != 18 && i != 23 ==> (('0' <= #[trigger] s[i]
            && s[i] <= '9') || ('a' <= s[i] && s[i] <= 'f'))
}

/// Calls `uuid::Uuid::new_v4` and writes the UUID as text (its `Display`,
/// the hyphenated lower-case form). The value is random; only its shape is
/// claimed.
#[verifier::external_body]
pub(crate) fn new_uuid() -> (r: String)
    ensures
        uuid_shaped(r@),
{
    uuid::Uuid::new_v4().to_string()
}

/// What a cloud manager is asked to grant.
#[derive(Debug, Clone, Copy, PartialEq, Eq, Structural)]
pub enum GrantKind {
    /// A token that allows uploads to a container.
    UploadToken,
    /// An address, with a token, that allows uploads to a container.
    UploadUrl,
}

/// A grant to ask a cloud manager for.
pub struct GrantRequest {
    pub kind: GrantKind,
    pub resource: CloudResource,
    /// Hours for which the grant is valid.
    pub timeout: u8,
}

/// The setting that names where uploads go.
pub open spec fn upload_location_key() -> Seq<char> {
    "CLOUD_DEFAULT_UPLOAD_LOCATION"@
}

/// The setting that gives for how many hours upload grants are valid.
pub open spec fn upload_timeout_key() -> Seq<char> {
    "CLOUD_TOKEN_UPLOAD_TIMEOUT"@
}

/// The upload timeout that a configuration gives, if it gives one that is
/// a byte.
pub open spec fn upload_timeout(config: Seq<(Seq<char>, Seq<char>)>) -> Option<u8> {
    match lookup(config, upload_timeout_key()) {
        Some(v) => crate::text::parse_u8_spec(v),
        None => None,
    }
}

/// The resource form that an upload location names in a cloud of a type.
pub open spec fn location_resource(
    location: Seq<char>,
    cloud_type: Seq<char>,
) -> Option<crate::cloud::AzureCloudResourceView> {
    if cloud_type == "Azure"@ {
        Some(resource_from_path(location))
    } else {
        None
    }
}

/// The view of a grant request: kind, resource form and timeout.
pub open spec fn request_view(r: GrantRequest) -> (
    GrantKind,
    crate::cloud::AzureCloudResourceView,
    u8,
) {
    match r.resource {
        CloudResource::Azure(a) => (r.kind, form_of(a), r.timeout),
    }
}

/// The kind of grant that a variable asks for by the end of its name.
pub open spec fn variable_kind(var: Seq<char>) -> Option<GrantKind> {
    if ends_with_seq(var, "UPLOAD_TOKEN"@) {
        Some(GrantKind::UploadToken)
    } else if ends_with_seq(var, "UPLOAD_URL"@) {
        Some(GrantKind::UploadUrl)
    } else {
        None
    }
}

/// The kind of grant that a generation parameter asks for by what it holds.
pub open spec fn parameter_kind(parameter: Seq<char>) -> Option<GrantKind> {
    if contains_seq(parameter, "UPLOAD-TOKEN"@) {
        Some(GrantKind::UploadToken)
    } else if contains_seq(parameter, "UPLOAD-URI"@) {
        Some(GrantKind::UploadUrl)
    } else {
        None
    }
}

/// The grant kind asked for by a variable.
pub fn variable_grant(var: &str) -> (r: Option<GrantKind>)
    ensures
        r == variable_kind(var@),
{
    if ends_with(var, "UPLOAD_TOKEN") {
        Some(GrantKind::UploadToken)
    } else if ends_with(var, "UPLOAD_URL") {
        Some(GrantKind::UploadUrl)
    } else {
        None
    }
}

/// The grant kind asked for by a generation parameter.
pub fn parameter_grant(parameter: &str) -> (r: Option<GrantKind>)
    ensures
        r == parameter_kind(parameter@),
{
    if contains(parameter, "UPLOAD-TOKEN") {
        Some(GrantKind::UploadToken)
    } else if contains(parameter, "UPLOAD-URI") {
        Some(GrantKind::UploadUrl)
    } else {
        None
    }
}

/// Where uploads go: the configured location, or a fresh random UUID when
/// the configuration names none.
pub fn upload_location_or_new(config: &StringMap) -> (r: String)
    ensures
        match lookup(config.entries(), upload_location_key()) {
            Some(v) => r@ == v,
            None => uuid_shaped(r@),
        },
{
    match config.get("CLOUD_DEFAULT_UPLOAD_LOCATION") {
        Some(s) => s,
        None => new_uuid(),
    }
}

/// The upload timeout of a configuration.
pub fn upload_timeout_of(config: &StringMap) -> (r: Option<u8>)
    ensures
        r == upload_timeout(config.entries()),
{
    match config.get("CLOUD_TOKEN_UPLOAD_TIMEOUT") {
        Some(v) => crate::text::parse_u8(v.as_str()),
        None => None,
    }
}

/// The grant asked for by `kind` at upload location `location` of a cloud
/// of type `cloud_type`, valid for the configured upload timeout. The
/// configuration must give that timeout when the location names a resource.
pub fn grant_for(
    kind: GrantKind,
    location: &str,
    cloud_type: &str,
    config: &StringMap,
) -> (r: Result<GrantRequest, AurrError>)
    requires
        location_resource(location@, cloud_type@) is Some ==> upload_timeout(config.entries()) is Some,
    ensures
        match location_resource(location@, cloud_type@) {
            Some(f) => r matches Ok(q) && request_view(q) == (
                kind,
                f,
                upload_timeout(config.entries())->0,
            ),
            None => r matches Err(e) && (e matches AurrError::UnsupportedCloudType(t) && t@
                == cloud_type@),
        },
{
    match CloudResource::from_path(location, cloud_type) {
        Ok(cr) => {
            let timeout = upload_timeout_of(config).unwrap();
            Ok(GrantRequest { kind, resource: cr, timeout })
        },
        Err(_) => Err(AurrError::UnsupportedCloudType(owned(cloud_type))),
    }
}

} // verus!
