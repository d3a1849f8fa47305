use vstd::prelude::*;

use crate::http::{HttpRequest, Method, RequestBody};
use crate::nomad::{opt_view, DrainSpec, NodeEligibility};
use crate::vault::url_join;

verus! {

/// Errors of the drain that an Auto Scaling lifecycle hook asks for
#[derive(Debug)]
pub enum Error {
    /// An error of the library
    LibError(crate::Error),
    /// Configuration option was expected but is missing
    MissingConfiguration(String),
    /// Expecting an Instance Terminating event, but got something else instead
    UnexpectedLifecycleTransition,
}

impl From<crate::Error> for Error {
    fn from(error: crate::Error) -> (r: Self) {
        Error::LibError(error)
    }
}

impl vstd::std_specs::convert::FromSpecImpl<crate::Error> for Error {
    open spec fn obeys_from_spec() -> bool {
        true
    }

    open spec fn from_spec(error: crate::Error) -> Self {
        Error::LibError(error)
    }
}

/// Vault options of the configuration
#[derive(Clone, Debug, PartialEq, Eq)]
pub struct VaultConfig {
    pub vault_token: Option<String>,
    pub vault_address: Option<String>,
    pub auth_path: Option<String>,
    pub auth_role: Option<String>,
    pub auth_header_value: Option<String>,
    pub nomad_path: Option<String>,
    pub nomad_role: Option<String>,
}

/// Configuration of the drain, as read from the environment
#[derive(Clone, Debug, PartialEq, Eq)]
pub struct Config {
    /// Address of Nomad server
    pub nomad_address: String,
    /// Use Nomad Token or not
    pub use_nomad_token: bool,
    /// Nomad token, if any
    pub nomad_token: Option<String>,
    pub vault_config: VaultConfig,
}

/// How to log in to Vault with AWS credentials
#[derive(Clone, Debug, PartialEq, Eq)]
pub struct VaultLogin {
    pub vault_address: String,
    pub auth_path: String,
    pub auth_role: String,
    pub header_value: Option<String>,
}

/// How to get a Vault client
pub enum VaultClientPlan {
    /// The configured token gives this client
    Ready(crate::vault::Client),
    /// Log in to Vault with AWS credentials, then use the token at this address
    Login(VaultLogin),
}

/// How to get the Nomad token
pub enum NomadTokenPlan {
    /// The configured token
    Configured(String),
    /// Ask Vault's Nomad secrets engine, with a Vault client got this way
    FromVault(VaultClientPlan),
}

/// How to get the Nomad client
pub enum NomadClientPlan {
    /// Connect with this token (or none)
    Connect(Option<String>),
    /// First get the Nomad token from Vault, with a Vault client got this way
    FromVault(VaultClientPlan),
}

/// Whether `e` is the error for the missing option `name`.
pub open spec fn is_missing(e: Error, name: Seq<char>) -> bool {
    e matches Error::MissingConfiguration(n) && n@ == name
}

/// The Vault client plan that a configuration calls for, as plain values.
pub open spec fn vault_plan_ok(c: Config, p: VaultClientPlan) -> bool {
    let v = c.vault_config;
    match v.vault_token {
        Some(t) => p matches VaultClientPlan::Ready(client)
            && client@.address == v.vault_address->Some_0@ && client@.token == t@,
        None => p matches VaultClientPlan::Login(l)
            && l.vault_address@ == v.vault_address->Some_0@
            && l.auth_path@ == v.auth_path->Some_0@
            && l.auth_role@ == v.auth_role->Some_0@
            && opt_view(l.header_value) == opt_view(v.auth_header_value),
    }
}

/// The option that a configuration lacks to get a Vault client, if any.
pub open spec fn vault_missing(c: Config) -> Option<Seq<char>> {
    let v = c.vault_config;
    if v.vault_address is None {
        Some("vault_address"@)
    } else if v.vault_token is Some {
        None
    } else if v.auth_path is None {
        Some("auth_path"@)
    } else if v.auth_role is None {
        Some("auth_role"@)
    } else {
        None
    }
}

/// A Vault client can be had exactly when the Vault address is set and either a Vault
/// token is set or both the AWS auth path and role are; with a Vault token, the client
/// is that of the Vault address and the token, whatever the AWS auth options are.
pub proof fn lemma_vault_client_options(c: Config, p: VaultClientPlan)
    ensures
        (vault_missing(c) is None) <==> (c.vault_config.vault_address is Some && (c.vault_config.vault_token is Some
            || (c.vault_config.auth_path is Some && c.vault_config.auth_role is Some))),
        c.vault_config.vault_address is None ==> vault_missing(c) == Some("vault_address"@),
        c.vault_config.vault_address is Some && c.vault_config.vault_token is Some && vault_plan_ok(c, p) ==> (p matches VaultClientPlan::Ready(client)
            && client@.address == c.vault_config.vault_address->Some_0@
            && client@.token == c.vault_config.vault_token->Some_0@),
{
}

/// The value of an option that is set.
fn required(option: &Option<String>, name: &str) -> (r: Result<String, Error>)
    ensures
        match option {
            Some(v) => r matches Ok(s) && s@ == v@,
            None => r matches Err(e) && is_missing(e, name@),
        },
{
    match option {
        Some(v) => Ok(v.clone()),
        None => Err(Error::MissingConfiguration(name.to_owned())),
    }
}

/// The copy of an optional string.
fn copy_opt(s: &Option<String>) -> (r: Option<String>)
    ensures
        opt_view(r) == opt_view(*s),
{
    match s {
        Some(v) => Some(v.clone()),
        None => None,
    }
}

impl Config {
    /// Use a Nomad token unless the configuration says otherwise
    pub fn default_use_nomad_token() -> (r: bool)
        ensures
            r,
    {
        true
    }

    /// How to get a Vault client: with the configured Vault token, else by logging in to
    /// Vault with AWS credentials; the Vault address is required, and so are the auth path
    /// and role when there is no Vault token.
    pub fn get_vault_client(&self) -> (res: Result<VaultClientPlan, Error>)
        ensures
            match vault_missing(*self) {
                Some(name) => res matches Err(e) && is_missing(e, name),
                None => res matches Ok(p) && vault_plan_ok(*self, p),
            },
    {
        let vault_address = required(&self.vault_config.vault_address, "vault_address")?;
        match &self.vault_config.vault_token {
            Some(token) => Ok(VaultClientPlan::Ready(crate::vault::Client::new(vault_address.as_str(), token.as_str()))),
            None => {
                let auth_path = required(&self.vault_config.auth_path, "auth_path")?;
                let auth_role = required(&self.vault_config.auth_role, "auth_role")?;
                Ok(VaultClientPlan::Login(VaultLogin {
                    vault_address,
                    auth_path,
                    auth_role,
                    header_value: copy_opt(&self.vault_config.auth_header_value),
                }))
            },
        }
    }

    /// How to get the Nomad token: the configured one, else from Vault.
    pub fn get_nomad_token(&self) -> (res: Result<NomadTokenPlan, Error>)
        ensures
            match self.nomad_token {
                Some(t) => res matches Ok(NomadTokenPlan::Configured(s)) && s@ == t@,
                None => match vault_missing(*self) {
                    Some(name) => res matches Err(e) && is_missing(e, name),
                    None => res matches Ok(NomadTokenPlan::FromVault(p)) && vault_plan_ok(*self, p),
                },
            },
    {
        match &self.nomad_token {
            Some(token) => Ok(NomadTokenPlan::Configured(token.clone())),
            None => Ok(NomadTokenPlan::FromVault(self.get_vault_client()?)),
        }
    }

    /// How to get the Nomad client: without a token when none is to be used; with the
    /// configured token; else with a token from Vault.
    pub fn new_nomad_client(&self) -> (res: Result<NomadClientPlan, Error>)
        ensures
            !self.use_nomad_token ==> res matches Ok(NomadClientPlan::Connect(None)),
            self.use_nomad_token ==> match self.nomad_token {
                Some(t) => res matches Ok(NomadClientPlan::Connect(Some(s))) && s@ == t@,
                None => match vault_missing(*self) {
                    Some(name) => res matches Err(e) && is_missing(e, name),
                    None => res matches Ok(NomadClientPlan::FromVault(p)) && vault_plan_ok(*self, p),
                },
            },
    {
        if self.use_nomad_token {
            match self.get_nomad_token()? {
                NomadTokenPlan::Configured(token) => Ok(NomadClientPlan::Connect(Some(token))),
                NomadTokenPlan::FromVault(plan) => Ok(NomadClientPlan::FromVault(plan)),
            }
        } else {
            Ok(NomadClientPlan::Connect(None))
        }
    }

    /// The request to Vault's Nomad secrets engine for the Nomad token, made with a Vault
    /// client; the Nomad path and role are required.
    pub fn nomad_token_request(&self, vault: &crate::vault::Client) -> (res: Result<HttpRequest, Error>)
        ensures
            self.vault_config.nomad_path is None ==> (res matches Err(e) && is_missing(e, "nomad_path"@)),
            self.vault_config.nomad_path is Some && self.vault_config.nomad_role is None
                ==> (res matches Err(e) && is_missing(e, "nomad_role"@)),
            self.vault_config.nomad_path is Some && self.vault_config.nomad_role is Some ==> match url_join(
                vault@.address,
                crate::vault::nomad_creds_path(self.vault_config.nomad_path->Some_0@, self.vault_config.nomad_role->Some_0@),
            ) {
                Some(u) => res matches Ok(r)
                    && r@.method == Method::Get
                    && r@.url == u
                    && r@.query == Seq::<(Seq<char>, Seq<char>)>::empty()
                    && r@.headers == seq![(crate::vault::VAULT_TOKEN_HEADER@, vault@.token)]
                    && r.body == RequestBody::Empty,
                None => res matches Err(Error::LibError(e)) && e is UrlParseError,
            },
    {
        let nomad_path = required(&self.vault_config.nomad_path, "nomad_path")?;
        let nomad_role = required(&self.vault_config.nomad_role, "nomad_role")?;
        match vault.nomad_token_request(nomad_path.as_str(), nomad_role.as_str()) {
            Ok(r) => Ok(r),
            Err(e) => Err(Error::LibError(e)),
        }
    }

    /// The Nomad client for the configured address, with `token` (or none).
    pub fn nomad_client(&self, token: Option<&str>) -> (res: Result<crate::nomad::Client, Error>)
        ensures
            match res {
                Ok(c) => c@.address == self.nomad_address@ && c@.token == crate::nomad::opt_str_view(token)
                    && crate::nomad::client_timeout(c.spec_http_client())
                        == Some((crate::nomad::DEFAULT_HTTP_TIMEOUT_SECS, 0u32)),
                Err(e) => e matches Error::LibError(l) && l is ReqwestError,
            },
    {
        match crate::nomad::Client::new(self.nomad_address.as_str(), token, None) {
            Ok(c) => Ok(c),
            Err(e) => Err(Error::LibError(e)),
        }
    }
}

/// Lifecycle transition of an Auto Scaling event
#[derive(Clone, Copy, Debug, PartialEq, Eq, Structural)]
pub enum AsgLifecycleTransition {
    InstanceLaunching,
    InstanceTerminating,
}

/// Details of an Auto Scaling lifecycle event
#[derive(Clone, Debug, PartialEq, Eq)]
pub struct AsgEventDetails {
    pub lifecycle_action_token: String,
    pub auto_scaling_group_name: String,
    pub instance_id: String,
    pub lifecycle_transition: AsgLifecycleTransition,
    pub lifecycle_hook_name: String,
}

/// The completion of a lifecycle action
#[derive(Clone, Debug, PartialEq, Eq)]
pub struct LifecycleCompletion {
    pub auto_scaling_group_name: String,
    pub instance_id: String,
    pub lifecycle_action_result: String,
    pub lifecycle_action_token: String,
    pub lifecycle_hook_name: String,
}

/// What to do for an instance that is being terminated
#[derive(Clone, Debug, PartialEq, Eq)]
pub struct DrainPlan {
    /// The instance whose Nomad node is drained
    pub instance_id: String,
    /// The eligibility that the node is set to first
    pub eligibility: NodeEligibility,
    /// The drain specification
    pub drain_spec: DrainSpec,
    /// Whether the drain is monitored until it is complete
    pub monitor: bool,
    /// The lifecycle action to complete afterwards
    pub completion: LifecycleCompletion,
}

/// Drain deadline when a lifecycle hook asks for the drain: the Lambda may run 900
/// seconds at most, so 600 seconds
pub const LAMBDA_DRAIN_DEADLINE_SECS: u64 = 600;

/// The drain of the node of an instance that is being terminated: the node is made
/// ineligible, drained with a deadline of 600 seconds without ignoring system jobs and
/// monitored, and the lifecycle action is then completed with "CONTINUE". Any other
/// lifecycle transition is refused.
pub fn drain_plan(event: &AsgEventDetails) -> (res: Result<DrainPlan, Error>)
    ensures
        event.lifecycle_transition != AsgLifecycleTransition::InstanceTerminating
            ==> res matches Err(Error::UnexpectedLifecycleTransition),
        event.lifecycle_transition == AsgLifecycleTransition::InstanceTerminating ==> (res matches Ok(p)
            && p.instance_id@ == event.instance_id@
            && p.eligibility == NodeEligibility::Ineligible
            && p.drain_spec == (DrainSpec { deadline: 600, ignore_system_jobs: false })
            && p.monitor
            && p.completion.auto_scaling_group_name@ == event.auto_scaling_group_name@
            && p.completion.instance_id@ == event.instance_id@
            && p.completion.lifecycle_action_result@ == "CONTINUE"@
            && p.completion.lifecycle_action_token@ == event.lifecycle_action_token@
            && p.completion.lifecycle_hook_name@ == event.lifecycle_hook_name@),
{
    if event.lifecycle_transition != AsgLifecycleTransition::InstanceTerminating {
        return Err(Error::UnexpectedLifecycleTransition);
    }
    Ok(DrainPlan {
        instance_id: event.instance_id.clone(),
        eligibility: NodeEligibility::Ineligible,
        drain_spec: DrainSpec { deadline: LAMBDA_DRAIN_DEADLINE_SECS, ignore_system_jobs: false },
        monitor: true,
        completion: LifecycleCompletion {
            auto_scaling_group_name: event.auto_scaling_group_name.clone(),
            instance_id: event.instance_id.clone(),
            lifecycle_action_result: String::from_str("CONTINUE"),
            lifecycle_action_token: event.lifecycle_action_token.clone(),
            lifecycle_hook_name: event.lifecycle_hook_name.clone(),
        },
    })
}

} // verus!
