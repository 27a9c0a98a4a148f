//! Operation configuration for management-plane calls: the API version
//! selector, the service base path, and the credential resource, each
//! falling back to a documented default. The transport and the credential
//! themselves live outside this core; callers hand the built requests a
//! bearer token directly.

use vstd::prelude::*;

verus! {

/// The default management-plane service root.
pub const DEFAULT_BASE_PATH: &'static str = "https://management.azure.com";

/// The default credential resource.
pub const DEFAULT_TOKEN_RESOURCE: &'static str = "https://management.azure.com/";

/// The API version of the feature-registration operations.
pub const API_VERSION: &'static str = "2015-12-01";

/// The version selector used when the builder was given none.
pub fn get_default_feature() -> (r: String)
    ensures
        r@ == API_VERSION@,
{
    String::from_str(API_VERSION)
}

/// Starts an operation configuration. (The transport handle and the
/// credential that the configuration travels with are outside this core.)
pub fn config() -> (r: OperationConfigBuilder)
    ensures
        r.api_version is None,
        r.base_path is None,
        r.token_credential_resource is None,
{
    OperationConfigBuilder { api_version: None, base_path: None, token_credential_resource: None }
}

#[derive(Debug)]
pub struct OperationConfigBuilder {
    pub api_version: Option<String>,
    pub base_path: Option<String>,
    pub token_credential_resource: Option<String>,
}

impl OperationConfigBuilder {
    pub fn api_version(self, api_version: String) -> (r: OperationConfigBuilder)
        ensures
            r.api_version == Some(api_version),
            r.base_path == self.base_path,
            r.token_credential_resource == self.token_credential_resource,
    {
        OperationConfigBuilder { api_version: Some(api_version), ..self }
    }

    pub fn base_path(self, base_path: String) -> (r: OperationConfigBuilder)
        ensures
            r.base_path == Some(base_path),
            r.api_version == self.api_version,
            r.token_credential_resource == self.token_credential_resource,
    {
        OperationConfigBuilder { base_path: Some(base_path), ..self }
    }

    pub fn token_credential_resource(self, token_credential_resource: String) -> (r:
        OperationConfigBuilder)
        ensures
            r.token_credential_resource == Some(token_credential_resource),
            r.api_version == self.api_version,
            r.base_path == self.base_path,
    {
        OperationConfigBuilder { token_credential_resource: Some(token_credential_resource), ..self }
    }

    /// Closes the builder, filling every unset field with its default.
    pub fn build(self) -> (r: OperationConfig)
        ensures
            r.spec_api_version() == match self.api_version {
                Some(v) => v@,
                None => API_VERSION@,
            },
            r.spec_base_path() == match self.base_path {
                Some(v) => v@,
                None => DEFAULT_BASE_PATH@,
            },
            r.spec_token_credential_resource() == match self.token_credential_resource {
                Some(v) => v@,
                None => DEFAULT_TOKEN_RESOURCE@,
            },
    {
        let api_version = match self.api_version {
            Some(v) => v,
            None => get_default_feature(),
        };
        let base_path = match self.base_path {
            Some(v) => v,
            None => String::from_str(DEFAULT_BASE_PATH),
        };
        let token_credential_resource = match self.token_credential_resource {
            Some(v) => v,
            None => String::from_str(DEFAULT_TOKEN_RESOURCE),
        };
        OperationConfig { api_version, base_path, token_credential_resource }
    }
}

/// A closed operation configuration.
#[derive(Debug)]
pub struct OperationConfig {
    api_version: String,
    base_path: String,
    token_credential_resource: String,
}

impl OperationConfig {
    pub closed spec fn spec_api_version(&self) -> Seq<char> {
        self.api_version@
    }

    pub closed spec fn spec_base_path(&self) -> Seq<char> {
        self.base_path@
    }

    pub closed spec fn spec_token_credential_resource(&self) -> Seq<char> {
        self.token_credential_resource@
    }

    pub fn api_version(&self) -> (r: &str)
        ensures
            r@ == self.spec_api_version(),
    {
        self.api_version.as_str()
    }

    pub fn base_path(&self) -> (r: &str)
        ensures
            r@ == self.spec_base_path(),
    {
        self.base_path.as_str()
    }

    pub fn token_credential_resource(&self) -> (r: &str)
        ensures
            r@ == self.spec_token_credential_resource(),
    {
        self.token_credential_resource.as_str()
    }
}

} // verus!
