//! The core of the manager: the configuration and the cloud service managers,
//! one of which is the one in use, and the decisions that a tool's mandatory
//! steps call for.
use vstd::prelude::*;
use crate::cloud::{AzureCloudResource, CloudResource, resource_from_path};
use crate::error::AurrError;
use crate::generate::{
    grant_for, location_resource, parameter_grant, parameter_kind, request_view,
    upload_location_key, upload_location_or_new, upload_timeout, uuid_shaped, variable_grant,
    variable_kind, GrantKind, GrantRequest,
};
use crate::kv::{lookup, ConfigTable};
use crate::shell::{fill_download_template, filled_template};
use crate::table::{holds_key, value_of, SortedTable};
use crate::text::{ends_with, ends_with_seq, owned};
use crate::tools::ToolConfig;

verus! {

broadcast use vstd::string::group_string_axioms;

/// The key of a cloud service manager: its type and its name, joined by `_`.
pub open spec fn manager_key_spec(cloud_type: Seq<char>, name: Seq<char>) -> Seq<char> {
    cloud_type + "_"@ + name
}

/// The key of a cloud service manager of type `cloud_type` named `name`.
pub fn manager_key(cloud_type: &str, name: &str) -> (r: String)
    ensures
        r@ == manager_key_spec(cloud_type@, name@),
{
    let mut k = owned(cloud_type);
    k.append("_");
    k.append(name);
    k
}

/// The core: a configuration and cloud service managers by key, one of them
/// the one in use (once there is any).
pub struct AurrCore<M> {
    config: ConfigTable,
    managers: SortedTable<M>,
    csm: String,
}

impl<M> AurrCore<M> {
    #[verifier::type_invariant]
    spec fn current_present(self) -> bool {
        if self.managers.entries().len() == 0 {
            self.csm@ == Seq::<char>::empty()
        } else {
            holds_key(self.managers.entries(), self.csm@)
        }
    }

    /// The configuration.
    pub closed spec fn config_spec(&self) -> ConfigTable {
        self.config
    }

    /// The managers, by key.
    pub closed spec fn managers(&self) -> Seq<(Seq<char>, M)> {
        self.managers.entries()
    }

    /// The key of the manager in use.
    pub closed spec fn current(&self) -> Seq<char> {
        self.csm@
    }

    /// The manager under key `k`, if any.
    pub open spec fn manager(&self, k: Seq<char>) -> Option<M> {
        value_of(self.managers(), k)
    }

    /// Whether the core has a manager at all.
    pub open spec fn has_managers(&self) -> bool {
        self.managers().len() > 0
    }

    /// A core with a configuration and no manager yet.
    pub fn new(config: ConfigTable) -> (c: AurrCore<M>)
        ensures
            c.config_spec() == config,
            c.managers() == Seq::<(Seq<char>, M)>::empty(),
            c.current() == Seq::<char>::empty(),
    {
        AurrCore { config, managers: SortedTable::new(), csm: String::new() }
    }

    /// A core with a configuration and its first manager, `mgr`, registered
    /// under the key made of `cloud_type` and `name` and in use.
    pub fn with_manager(config: ConfigTable, cloud_type: &str, name: &str, mgr: M) -> (c:
        AurrCore<M>)
        ensures
            c.config_spec() == config,
            c.current() == manager_key_spec(cloud_type@, name@),
            c.manager(c.current()) == Some(mgr),
            forall|k: Seq<char>| k != c.current() ==> c.manager(k) is None,
    {
        let mut c = AurrCore::new(config);
        c.add_cloud_manager(cloud_type, name, mgr);
        c
    }

    /// The configuration.
    pub fn config(&self) -> (r: &ConfigTable)
        ensures
            *r == self.config_spec(),
    {
        &self.config
    }

    /// Registers manager `mgr` of type `cloud_type` named `name` under the key
    /// the two make. A manager under a new key becomes the one in use; one
    /// under a key already present replaces the manager there, and the one in
    /// use stays.
    pub fn add_cloud_manager(&mut self, cloud_type: &str, name: &str, mgr: M)
        ensures
            ({
                let key = manager_key_spec(cloud_type@, name@);
                &&& final(self).manager(key) == Some(mgr)
                &&& forall|k: Seq<char>| k != key ==> final(self).manager(k) == old(self).manager(k)
                &&& if old(self).manager(key) is None {
                    final(self).current() == key
                } else {
                    final(self).current() == old(self).current()
                }
                &&& final(self).config_spec() == old(self).config_spec()
                &&& final(self).has_managers()
                &&& final(self).manager(final(self).current()) is Some
            }),
    {
        proof {
            use_type_invariant(&*self);
        }
        let key = manager_key(cloud_type, name);
        let fresh = self.managers.find(key.as_str()).is_none();
        let mut whole = AurrCore { config: ConfigTable::new(), managers: SortedTable::new(), csm: String::new() };
        std::mem::swap(&mut whole, self);
        let ghost before = whole.managers.entries();
        let ghost old_csm = whole.csm@;
        let AurrCore { config, mut managers, csm } = whole;
        managers.insert(key.clone(), mgr);
        proof {
            assert(holds_key(managers.entries(), key@));
            if !fresh {
                assert(holds_key(before, old_csm));
                if old_csm != key@ {
                    assert(value_of(managers.entries(), old_csm) == value_of(before, old_csm));
                }
            }
        }
        let current = if fresh { key } else { csm };
        *self = AurrCore { config, managers, csm: current };
    }

    /// Makes the manager under `target_csm` the one in use; an error, with
    /// nothing changed, when there is no manager under that key.
    pub fn set_csm(&mut self, target_csm: &str) -> (r: Result<(), AurrError>)
        ensures
            r is Ok <==> old(self).manager(target_csm@) is Some,
            r is Ok ==> final(self).current() == target_csm@,
            r is Err ==> final(self).current() == old(self).current(),
            r matches Err(e) ==> (e matches AurrError::ManagerNotFound(t) && t@ == target_csm@),
            final(self).managers() == old(self).managers(),
            final(self).config_spec() == old(self).config_spec(),
            final(self).has_managers() ==> final(self).manager(final(self).current()) is Some,
    {
        proof {
            use_type_invariant(&*self);
        }
        match self.managers.find(target_csm) {
            None => Err(AurrError::ManagerNotFound(owned(target_csm))),
            Some(_) => {
                self.csm = owned(target_csm);
                Ok(())
            },
        }
    }

    /// The manager in use is always one of the managers, once there is any;
    /// before, no key is in use.
    pub fn in_use_is_registered(&self)
        ensures
            self.has_managers() ==> self.manager(self.current()) is Some,
            !self.has_managers() ==> self.current() == Seq::<char>::empty(),
    {
        proof {
            use_type_invariant(self);
        }
    }

    /// The key of the manager in use.
    pub fn current_key(&self) -> (r: &String)
        ensures
            r@ == self.current(),
    {
        &self.csm
    }

    /// The keys of the managers, in ascending order.
    pub fn manager_keys(&self) -> (r: Vec<String>)
        ensures
            crate::text::views(r@) == crate::table::key_seq(self.managers()),
    {
        self.managers.keys()
    }

    /// The manager under key `key`, if any.
    pub fn get_manager(&self, key: &str) -> (r: Option<&M>)
        ensures
            match self.manager(key@) {
                Some(m) => r matches Some(x) && *x == m,
                None => r is None,
            },
    {
        self.managers.get(key)
    }

    /// The manager in use; the core must have a manager.
    pub fn get_mgmr(&self) -> (r: &M)
        requires
            self.has_managers(),
        ensures
            self.manager(self.current()) == Some(*r),
    {
        proof {
            use_type_invariant(self);
        }
        self.managers.get(self.csm.as_str()).unwrap()
    }
}

/// A line of the listing of managers: key, information and reachability.
pub open spec fn manager_line_spec(key: Seq<char>, info: Seq<char>, status: Seq<char>) -> Seq<
    char,
> {
    key + " -> "@ + info + " - ["@ + status + "]"@
}

/// A line of the listing of managers.
pub fn manager_line(key: &str, info: &str, status: &str) -> (r: String)
    ensures
        r@ == manager_line_spec(key@, info@, status@),
{
    let mut s = owned(key);
    s.append(" -> ");
    s.append(info);
    s.append(" - [");
    s.append(status);
    s.append("]");
    s
}

/// The container that a tool is uploaded to: the one given, else `tools`.
pub fn tool_container(container: Option<&str>) -> (r: String)
    ensures
        match container {
            Some(c) => r@ == c@,
            None => r@ == "tools"@,
        },
{
    match container {
        Some(s) => owned(s),
        None => owned("tools"),
    }
}

/// The resource that a download of the cloud path `path` fetches.
pub fn download_target(path: &str) -> (r: CloudResource)
    ensures
        r matches CloudResource::Azure(AzureCloudResource::Text(p)) && p@ == path@,
{
    CloudResource::Azure(AzureCloudResource::Text(owned(path)))
}

/// The location a grant is made for, and the resource that the location
/// names: the configured upload location, else some random UUID.
pub open spec fn grant_location_ok(
    config: Seq<(Seq<char>, Seq<char>)>,
    q: GrantRequest,
    kind: GrantKind,
) -> bool {
    match lookup(config, upload_location_key()) {
        Some(l) => request_view(q) == (kind, resource_from_path(l), upload_timeout(config)->0),
        None => exists|u: Seq<char>|
            uuid_shaped(u) && request_view(q) == (
                kind,
                resource_from_path(u),
                upload_timeout(config)->0,
            ),
    }
}

/// What generating parameter `parameter` asks for: the key its result is
/// stored under, which is the parameter itself (`SURGE_SAS-UPLOAD-TOKEN`
/// gives an entry `SURGE_SAS-UPLOAD-TOKEN`), and the grant to ask the cloud manager
/// of type `cloud_type` for, at the configured upload location (or a fresh
/// random one) and for the configured upload timeout, which an Azure manager
/// needs. A parameter holding `UPLOAD-TOKEN` asks for an upload token, one
/// holding `UPLOAD-URI` for an upload address; others are not supported.
pub fn generation_step(parameter: &str, config: &ToolConfig, cloud_type: &str) -> (r:
    Result<(String, GrantRequest), AurrError>)
    requires
        cloud_type@ == "Azure"@ ==> upload_timeout(config.config.entries()) is Some,
    ensures
        cloud_type@ != "Azure"@ ==> (r matches Err(e) && (e matches AurrError::UnsupportedCloudType(
            t,
        ) && t@ == cloud_type@)),
        cloud_type@ == "Azure"@ ==> match parameter_kind(parameter@) {
            None => r matches Err(e) && (e matches AurrError::UnsupportedParameter(p) && p@
                == parameter@),
            Some(k) => r matches Ok(p) && p.0@ == parameter@ && grant_location_ok(
                config.config.entries(),
                p.1,
                k,
            ),
        },
{
    let location = upload_location_or_new(&config.config);
    let req = grant_for(GrantKind::UploadToken, location.as_str(), cloud_type, &config.config);
    let q = match req {
        Ok(q) => q,
        Err(e) => {
            return Err(e);
        },
    };
    match parameter_grant(parameter) {
        Some(GrantKind::UploadToken) => {
            let key = owned(parameter);
            let out = GrantRequest { kind: GrantKind::UploadToken, resource: q.resource, timeout: q.timeout };
            proof {
                if lookup(config.config.entries(), upload_location_key()) is None {
                    assert(uuid_shaped(location@) && request_view(out) == (
                        GrantKind::UploadToken,
                        resource_from_path(location@),
                        upload_timeout(config.config.entries())->0,
                    ));
                }
            }
            Ok((key, out))
        },
        Some(GrantKind::UploadUrl) => {
            let key = owned(parameter);
            let out = GrantRequest { kind: GrantKind::UploadUrl, resource: q.resource, timeout: q.timeout };
            proof {
                if lookup(config.config.entries(), upload_location_key()) is None {
                    assert(uuid_shaped(location@) && request_view(out) == (
                        GrantKind::UploadUrl,
                        resource_from_path(location@),
                        upload_timeout(config.config.entries())->0,
                    ));
                }
            }
            Ok((key, out))
        },
        None => Err(AurrError::UnsupportedParameter(owned(parameter))),
    }
}

/// Whether a value to generate asks for a download grant, which is not
/// supported.
pub open spec fn asks_download(v: Seq<char>) -> bool {
    ends_with_seq(v, "DOWNLOAD_URL"@) || ends_with_seq(v, "DOWNLOAD_TOKEN"@)
}

/// What generating value `v` asks for: for a name ending in `UPLOAD_TOKEN`
/// or `UPLOAD_URL`, that grant at the configured upload location (or a fresh
/// random one) for the configured upload timeout, which an Azure manager
/// needs; other values ask for nothing. Download grants are not supported
/// and must not be asked for.
pub fn generation_request(v: &str, config: &ToolConfig, cloud_type: &str) -> (r: Result<
    Option<GrantRequest>,
    AurrError,
>)
    requires
        variable_kind(v@) is None ==> !asks_download(v@),
        variable_kind(v@) is Some && cloud_type@ == "Azure"@ ==> upload_timeout(
            config.config.entries(),
        ) is Some,
    ensures
        match variable_kind(v@) {
            None => r matches Ok(None),
            Some(k) => if cloud_type@ == "Azure"@ {
                r matches Ok(Some(q)) && grant_location_ok(config.config.entries(), q, k)
            } else {
                r matches Err(e) && (e matches AurrError::UnsupportedCloudType(t) && t@
                    == cloud_type@)
            },
        },
{
    let kind = match variable_grant(v) {
        Some(k) => k,
        None => {
            return Ok(None);
        },
    };
    let location = upload_location_or_new(&config.config);
    match grant_for(kind, location.as_str(), cloud_type, &config.config) {
        Ok(q) => {
            proof {
                if lookup(config.config.entries(), upload_location_key()) is None {
                    assert(uuid_shaped(location@) && request_view(q) == (
                        kind,
                        resource_from_path(location@),
                        upload_timeout(config.config.entries())->0,
                    ));
                }
            }
            Ok(Some(q))
        },
        Err(e) => Err(e),
    }
}

/// The configuration key that names the file of required objects of a tool
/// with tag `tag`.
pub open spec fn require_path_key_spec(tag: Seq<char>) -> Seq<char> {
    tag + "_MANDATORY_REQUIRE_PATH"@
}

/// The configuration key that names the file of required objects of a tool.
pub fn require_path_key(tag: &str) -> (r: String)
    ensures
        r@ == require_path_key_spec(tag@),
{
    let mut k = owned(tag);
    k.append("_MANDATORY_REQUIRE_PATH");
    k
}

/// The command that downloads a required object named `name` from `url` on
/// the target, by the shell's download template.
pub fn require_download_line(download_template: &str, url: &str, name: &str) -> (r: String)
    ensures
        r@ == filled_template(download_template@, url@, name@),
{
    fill_download_template(download_template, url, name)
}

/// The kinds of cloud service managers.
#[derive(Debug, Clone, Copy, PartialEq, Eq, Structural)]
pub enum CarrierTypes {
    Azure,
    S3,
    SMB,
}

impl CarrierTypes {
    /// Whether a manager of this kind can be made: only Azure ones can.
    pub fn check_supported(&self) -> (r: Result<(), AurrError>)
        ensures
            r is Ok <==> *self == CarrierTypes::Azure,
            r matches Err(e) ==> e is UnsupportedCarrier,
    {
        match self {
            CarrierTypes::Azure => Ok(()),
            _ => Err(AurrError::UnsupportedCarrier),
        }
    }
}

} // verus!
