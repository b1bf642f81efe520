//! Errors of the backend connection.
use vstd::prelude::*;

verus! {

#[verifier::external_type_specification]
#[verifier::external_body]
pub struct ExClientError(vaultrs::error::ClientError);

/// What went wrong in a request to the secret engine.
pub enum VaultError {
    /// The secret engine reported no secret at the path. It reports the same
    /// when the caller is not authorized to read it; the two are deliberately
    /// not told apart.
    NotFound { namespace: String, path: String },
    /// The backend address is not a URL.
    InvalidAddress { address: String },
    /// Any other failure of the backend or of the transport.
    Client(vaultrs::error::ClientError),
}

/// The HTTP status that the secret engine answers for a missing secret.
pub const STATUS_NOT_FOUND: u16 = 404;

/// The text shown for any backend failure other than a missing secret.
pub open spec fn client_failure_text() -> Seq<char> {
    "An error occurred with the request"@
}

/// The text that a caller sees for an error.
pub open spec fn error_text(e: VaultError) -> Seq<char> {
    match e {
        VaultError::NotFound { namespace, path } => "Key not found: namespace/key "@ + namespace@
            + "/"@ + path@,
        VaultError::InvalidAddress { address } => "Invalid backend address: "@ + address@,
        VaultError::Client(_) => client_failure_text(),
    }
}

/// The error of a failed request, from the engine's status and its error.
pub open spec fn status_error(
    namespace: String,
    path: String,
    status: Option<u16>,
    source: vaultrs::error::ClientError,
) -> VaultError {
    if status == Some(STATUS_NOT_FOUND) {
        VaultError::NotFound { namespace, path }
    } else {
        VaultError::Client(source)
    }
}

impl VaultError {
    /// The error that a failed request answers: a missing secret when the
    /// engine's status was "not found", else the engine's own error.
    pub fn from_status(
        namespace: &String,
        path: &String,
        status: Option<u16>,
        source: vaultrs::error::ClientError,
    ) -> (r: VaultError)
        ensures
            r == status_error(*namespace, *path, status, source),
    {
        match status {
            Some(code) if code == STATUS_NOT_FOUND => VaultError::NotFound {
                namespace: namespace.clone(),
                path: path.clone(),
            },
            _ => VaultError::Client(source),
        }
    }

    /// The text that a caller sees for this error.
    pub fn message(&self) -> (r: String)
        ensures
            r@ == error_text(*self),
    {
        match self {
            VaultError::NotFound { namespace, path } => {
                let mut s = "Key not found: namespace/key ".to_owned();
                s.append(namespace.as_str());
                s.append("/");
                s.append(path.as_str());
                s
            },
            VaultError::InvalidAddress { address } => {
                let mut s = "Invalid backend address: ".to_owned();
                s.append(address.as_str());
                s
            },
            VaultError::Client(_) => "An error occurred with the request".to_owned(),
        }
    }
}

/// The HTTP status that an error of the secret engine carries, if any.
pub uninterp spec fn api_status(e: vaultrs::error::ClientError) -> Option<u16>;

/// Relies on the variants of vaultrs::error::ClientError: the HTTP status
/// carried by an `APIError`, none for the other variants.
#[verifier::external_body]
pub(crate) fn status_of(e: &vaultrs::error::ClientError) -> (r: Option<u16>)
    ensures
        r == api_status(*e),
{
    match e {
        vaultrs::error::ClientError::APIError { code, .. } => Some(*code),
        _ => None,
    }
}

} // verus!
