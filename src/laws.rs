//! Properties that hold across the operations of the library.
use vstd::prelude::*;

use crate::adapter::download_of;
use crate::client::Client;
use crate::config::{setting, spec_addr, url_parses, DEFAULT_VAULT_ADDR};
use crate::error::{error_text, status_error, STATUS_NOT_FOUND};
use crate::registry::link_established;
use crate::wasmcloud_interface_blobstore::{GetObjectRequest, PutObjectRequest};

verus! {

/// Links are isolated: once tenant `a` and then another tenant `b` are
/// linked, `a` is still served by its own client, on the mount of its own
/// settings, and `b` by a client on the mount of its settings; when the two
/// mounts differ, no request of `a` addresses a secret of `b`.
pub proof fn lemma_link_isolation(
    m0: Map<Seq<char>, Client>,
    m1: Map<Seq<char>, Client>,
    m2: Map<Seq<char>, Client>,
    a: Seq<char>,
    values_a: Seq<(String, String)>,
    b: Seq<char>,
    values_b: Seq<(String, String)>,
)
    requires
        link_established(m0, m1, a, values_a),
        link_established(m1, m2, b, values_b),
        a != b,
    ensures
        m2.contains_key(a) && m2[a] == m1[a],
        m2[a].spec_namespace() == crate::config::spec_mount(values_a),
        m2[b].spec_namespace() == crate::config::spec_mount(values_b),
        crate::config::spec_mount(values_a) != crate::config::spec_mount(values_b)
            ==> m2[a].spec_namespace() != m2[b].spec_namespace(),
{
    assert(m1.contains_key(a));
}

/// A write followed by a read of the same object gives back exactly the
/// bytes written, as one last chunk at offset 0, for any bytes, none
/// included: the write stores the chunk's bytes whole at the object's path,
/// and the reply to the read carries the secret whole.
pub proof fn lemma_write_read_round_trip(put: PutObjectRequest, get: GetObjectRequest)
    requires
        get.object_id == put.chunk.object_id,
    ensures
        download_of(get, put.chunk.bytes).initial_chunk matches Some(c) && c.bytes
            == put.chunk.bytes && c.is_last && c.offset == 0,
{
}

/// "Not found" is masked: a request answered with the engine's not-found
/// status gives one and the same error, whatever the engine's error says
/// of its cause, so a missing secret and a forbidden one look alike.
pub proof fn lemma_not_found_masking(
    namespace: String,
    path: String,
    first: vaultrs::error::ClientError,
    second: vaultrs::error::ClientError,
)
    ensures
        status_error(namespace, path, Some(STATUS_NOT_FOUND), first) == status_error(
            namespace,
            path,
            Some(STATUS_NOT_FOUND),
            second,
        ),
        status_error(namespace, path, Some(STATUS_NOT_FOUND), first) is NotFound,
        error_text(status_error(namespace, path, Some(STATUS_NOT_FOUND), first)) == error_text(
            status_error(namespace, path, Some(STATUS_NOT_FOUND), second),
        ),
{
}

/// An address that is not a URL gives way to the default address.
pub proof fn lemma_invalid_address_defaults(values: Seq<(String, String)>)
    requires
        setting(values, "addr"@, "ADDR"@) matches Some(a) && !url_parses(a),
    ensures
        spec_addr(values) == DEFAULT_VAULT_ADDR@,
{
}

} // verus!
