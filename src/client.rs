//! One tenant's connection to the secret engine.
use std::sync::Arc;
use vstd::prelude::*;

use crate::config::{parse_url, url_parses, Config};
use crate::error::{api_status, status_error, status_of, VaultError};

verus! {

#[verifier::external_type_specification]
#[verifier::external_body]
pub struct ExVaultClient(vaultrs::client::VaultClient);

/// Version of the secret engine's HTTP API.
pub const API_VERSION: u8 = 1;

/// Relies on vaultrs::client::VaultClient::new with the given settings and no
/// timeout or client identity. It connects to nothing; it reads the CA
/// certificate files, so it may fail whatever the arguments.
#[verifier::external_body]
fn open_vault(
    token: &String,
    address: url::Url,
    ca_certs: &Vec<String>,
    verify: bool,
    version: u8,
    wrapping: bool,
    namespace: Option<String>,
) -> (r: Result<vaultrs::client::VaultClient, vaultrs::error::ClientError>) {
    vaultrs::client::VaultClient::new(vaultrs::client::VaultClientSettings {
        token: token.clone(),
        address,
        ca_certs: ca_certs.clone(),
        identity: None,
        verify,
        version,
        wrapping,
        timeout: None,
        namespace,
    })
}

/// A connection to the secret engine, bound to one mount point, with the
/// settings it was opened with. Cloning it shares the connection.
#[derive(Clone)]
pub struct Client {
    inner: Arc<vaultrs::client::VaultClient>,
    namespace: String,
    token: String,
    address: String,
    certs: Vec<String>,
}

impl Client {
    /// The mount point under which every secret of this client lives.
    pub open spec fn spec_namespace(&self) -> Seq<char> {
        self.mount()@
    }

    /// The mount point, as the text that errors of this client name.
    pub closed spec fn mount(&self) -> String {
        self.namespace
    }

    /// The token the connection was opened with.
    pub closed spec fn spec_token(&self) -> Seq<char> {
        self.token@
    }

    /// The address the connection was opened on.
    pub closed spec fn spec_address(&self) -> Seq<char> {
        self.address@
    }

    /// The CA certificate paths the connection was opened with.
    pub closed spec fn spec_certs(&self) -> Seq<Seq<char>> {
        self.certs@.map_values(|s: String| s@)
    }

    /// Creates a client for the given settings. Nothing is contacted: an
    /// address or token that does not work shows on first use.
    pub fn new(config: Config) -> (r: Result<Client, VaultError>)
        ensures
            r matches Ok(c) ==> c.spec_namespace() == config.mount@ && c.spec_token()
                == config.token@ && c.spec_address() == config.addr@ && c.spec_certs()
                == config.certs@.map_values(|s: String| s@),
            !url_parses(config.addr@) ==> r == Err::<Client, VaultError>(
                VaultError::InvalidAddress { address: config.addr },
            ),
            url_parses(config.addr@) ==> (r is Ok || (r matches Err(e) && e is Client)),
    {
        let address = match parse_url(config.addr.as_str()) {
            Some(u) => u,
            None => {
                return Err(VaultError::InvalidAddress { address: config.addr });
            },
        };
        let token = config.token;
        let certs = config.certs;
        match open_vault(&token, address, &certs, false, API_VERSION, false, Some(config.mount.clone())) {
            Ok(v) => Ok(
                Client {
                    inner: Arc::new(v),
                    namespace: config.mount,
                    token,
                    address: config.addr,
                    certs,
                },
            ),
            Err(e) => Err(VaultError::Client(e)),
        }
    }

    /// The mount point of this client.
    pub fn namespace(&self) -> (r: &String)
        ensures
            r@ == self.spec_namespace(),
    {
        &self.namespace
    }

    /// The underlying connection.
    pub fn vault(&self) -> &vaultrs::client::VaultClient {
        &self.inner
    }

    /// The outcome of a request that looks a secret up (read, metadata, list):
    /// a "not found" answer becomes `NotFound` for this client's mount and the
    /// path, whatever its cause; any other failure is kept.
    pub fn lookup_outcome<T>(
        &self,
        path: &String,
        outcome: Result<T, vaultrs::error::ClientError>,
    ) -> (r: Result<T, VaultError>)
        ensures
            outcome matches Ok(v) ==> r == Ok::<T, VaultError>(v),
            outcome matches Err(e) ==> r == Err::<T, VaultError>(
                status_error(self.mount(), *path, api_status(e), e),
            ),
    {
        match outcome {
            Ok(v) => Ok(v),
            Err(e) => {
                let status = status_of(&e);
                Err(VaultError::from_status(&self.namespace, path, status, e))
            },
        }
    }

    /// The outcome of a request that changes a secret (write, delete): every
    /// failure is the engine's own, "not found" included.
    pub fn change_outcome<T>(
        outcome: Result<T, vaultrs::error::ClientError>,
    ) -> (r: Result<T, VaultError>)
        ensures
            outcome matches Ok(v) ==> r == Ok::<T, VaultError>(v),
            outcome matches Err(e) ==> r == Err::<T, VaultError>(VaultError::Client(e)),
    {
        match outcome {
            Ok(v) => Ok(v),
            Err(e) => Err(VaultError::Client(e)),
        }
    }
}

} // verus!
