//! The errors that the library reports.
use vstd::prelude::*;
use crate::text::owned;

verus! {

/// Why an operation of the library did not succeed.
#[derive(Debug, PartialEq, Eq)]
pub enum AurrError {
    /// The key that was to be edited is not in the configuration.
    KeyNotFound(String),
    /// A case template's name, made lower case, is not all ASCII letters, so
    /// no cloud container can be named after it.
    InvalidCaseName(String),
    /// A task template names a tool or object that the index does not hold.
    ToolNotFound(String),
    /// The local file to make an object of does not exist.
    FileNotFound(String),
    /// The cloud type is not one that resources can be made for.
    UnsupportedCloudType(String),
    /// The generation parameter or variable is not one that can be produced.
    UnsupportedParameter(String),
    /// Neither the environment nor the configuration gives an upload location.
    MissingUploadLocation,
    /// No cloud service manager is registered under the key.
    ManagerNotFound(String),
    /// The cloud resource is of a kind that the operation does not support.
    UnsupportedResource(String),
    /// A path does not name a container and a blob.
    InvalidResourcePath(String),
    /// No container was given for a read address, and the resource names
    /// none.
    NoContainerGiven,
    /// A read address was asked for a path that names only a container.
    ContainerOnly(String),
    /// A read address was asked for a resource of a kind that cannot be
    /// read.
    ResourceNotSupported,
    /// A case to run was named neither by path nor by name.
    NoCaseGiven,
    /// The kind of cloud service manager is not supported.
    UnsupportedCarrier,
    /// Neither the environment nor the configuration says where the index
    /// of objects is.
    MissingObjectIndex,
}

/// The text that the program shows for an error.
pub open spec fn error_message(e: AurrError) -> Seq<char> {
    match e {
        AurrError::KeyNotFound(k) => "Key does not exist: "@ + k@,
        AurrError::InvalidCaseName(_) => "Fix case template name plz"@,
        AurrError::ToolNotFound(n) => "Tool: "@ + n@ + " Does not exist in the tool index"@,
        AurrError::FileNotFound(_) => "Could not create AurrObject - File does not exist! >:("@,
        AurrError::UnsupportedCloudType(_) =>
            "Need to implment CloudResource::from_path for the specified CloudResourceManager"@,
        AurrError::UnsupportedParameter(_) => "The provided parameter is not supported"@,
        AurrError::MissingUploadLocation => "Missing valid upload location in env or config"@,
        AurrError::ManagerNotFound(_) =>
            "The provided target cloud manager does not exist in the cloud service manager map. Consider to import this!"@,
        AurrError::UnsupportedResource(_) => "Only supported for AzureCloudResource::text"@,
        AurrError::InvalidResourcePath(_) =>
            "Using wrong separator in container/blob path. Use \"container/blob\" OR \"container::blob\""@,
        AurrError::NoContainerGiven =>
            "Error in AzureStorageMgmt::get_blob_download_url: the provided containeroption + t_resource creates error"@,
        AurrError::ContainerOnly(_) => "Cant Grant Read Access to CONTAINER ONLY"@,
        AurrError::ResourceNotSupported =>
            "Provided AzureCloudResource: <{}> not supported yet - Check spelling"@,
        AurrError::NoCaseGiven => "Error - We should not be in this situation. Error in code"@,
        AurrError::UnsupportedCarrier => "The provided cloud type is not supported"@,
        AurrError::MissingObjectIndex => "Could not find LOCAL_AURROBJECT_INDEX"@,
    }
}

impl AurrError {
    /// The text that the program shows for this error.
    pub fn message(&self) -> (r: String)
        ensures
            r@ == error_message(*self),
    {
        match self {
            AurrError::KeyNotFound(k) => {
                let mut m = owned("Key does not exist: ");
                m.append(k.as_str());
                m
            },
            AurrError::InvalidCaseName(_) => owned("Fix case template name plz"),
            AurrError::ToolNotFound(n) => {
                let mut m = owned("Tool: ");
                m.append(n.as_str());
                m.append(" Does not exist in the tool index");
                m
            },
            AurrError::FileNotFound(_) => owned(
                "Could not create AurrObject - File does not exist! >:(",
            ),
            AurrError::UnsupportedCloudType(_) => owned(
                "Need to implment CloudResource::from_path for the specified CloudResourceManager",
            ),
            AurrError::UnsupportedParameter(_) => owned("The provided parameter is not supported"),
            AurrError::MissingUploadLocation => owned(
                "Missing valid upload location in env or config",
            ),
            AurrError::ManagerNotFound(_) => owned(
                "The provided target cloud manager does not exist in the cloud service manager map. Consider to import this!",
            ),
            AurrError::UnsupportedResource(_) => owned("Only supported for AzureCloudResource::text"),
            AurrError::InvalidResourcePath(_) => owned(
                "Using wrong separator in container/blob path. Use \"container/blob\" OR \"container::blob\"",
            ),
            AurrError::NoContainerGiven => owned(
                "Error in AzureStorageMgmt::get_blob_download_url: the provided containeroption + t_resource creates error",
            ),
            AurrError::ContainerOnly(_) => owned("Cant Grant Read Access to CONTAINER ONLY"),
            AurrError::ResourceNotSupported => owned(
                "Provided AzureCloudResource: <{}> not supported yet - Check spelling",
            ),
            AurrError::NoCaseGiven => owned(
                "Error - We should not be in this situation. Error in code",
            ),
            AurrError::UnsupportedCarrier => owned("The provided cloud type is not supported"),
            AurrError::MissingObjectIndex => owned("Could not find LOCAL_AURROBJECT_INDEX"),
        }
    }
}

} // verus!
