//! The blob-store operations over a tenant's secret engine. Containers are
//! only names: they are never created, looked up or listed in the backend.
//! An object lives as the secret `{mount}/{object id}`.
//!
//! Operations that need the backend come in parts: the request is resolved to
//! the tenant's client (`Registry::get_client`), the caller makes the backend
//! call, and the functions below turn its outcome into the reply.
use vstd::prelude::*;

use crate::error::{error_text, VaultError};
use crate::registry::{tenant_of, unlinked_text, Registry};
use crate::wasmcloud_interface_blobstore::{
    Chunk, ContainerId, ContainerIds, ContainerMetadata, ContainerObject, ContainersInfo,
    GetObjectRequest, GetObjectResponse, ItemResult, ListObjectsRequest, ListObjectsResponse,
    MultiResult, ObjectMetadata, PutChunkRequest, PutObjectRequest, PutObjectResponse, Timestamp,
};

verus! {

/// The answer to every chunked upload.
pub open spec fn chunking_text() -> Seq<char> {
    "Chunking not supported"@
}

/// Whether a request from `actor` reaches a backend client.
pub open spec fn routed(registry: &Registry, actor: Option<String>) -> bool {
    registry@.contains_key(tenant_of(actor))
}

/// The result of a request of an unlinked tenant.
pub open spec fn is_unlinked_failure<T>(r: Result<T, String>) -> bool {
    r matches Err(e) && e@ == unlinked_text()
}

/// The metadata of an object of which only the names are known.
pub open spec fn bare_metadata(container_id: String, object_id: String) -> ObjectMetadata {
    ObjectMetadata {
        object_id,
        container_id,
        content_length: 0,
        last_modified: None,
        content_type: None,
        content_encoding: None,
    }
}

/// The reply to a download of `arg` whose secret holds `data`: all of it, as
/// one last chunk at offset 0.
pub open spec fn download_of(arg: GetObjectRequest, data: Vec<u8>) -> GetObjectResponse {
    GetObjectResponse {
        success: true,
        error: None,
        initial_chunk: Some(
            Chunk {
                object_id: arg.object_id,
                container_id: arg.container_id,
                bytes: data,
                offset: 0,
                is_last: true,
            },
        ),
        content_length: 0,
        content_type: None,
        content_encoding: None,
    }
}

/// A failed request, as its caller sees it.
pub open spec fn failed_with<T>(r: Result<T, String>, e: VaultError) -> bool {
    r matches Err(m) && m@ == error_text(e)
}

/// Whether the container exists: every container does, for a linked tenant.
pub fn container_exists(
    registry: &Registry,
    actor: &Option<String>,
    _arg: &ContainerId,
) -> (r: Result<bool, String>)
    requires
        registry.wf(),
    ensures
        routed(registry, *actor) ==> r == Ok::<bool, String>(true),
        !routed(registry, *actor) ==> is_unlinked_failure(r),
{
    match registry.get_client(actor) {
        Ok(_) => Ok(true),
        Err(e) => Err(e),
    }
}

/// Creates a container: there is nothing to create, so this succeeds for a
/// linked tenant.
pub fn create_container(
    registry: &Registry,
    actor: &Option<String>,
    _arg: &ContainerId,
) -> (r: Result<(), String>)
    requires
        registry.wf(),
    ensures
        routed(registry, *actor) ==> r == Ok::<(), String>(()),
        !routed(registry, *actor) ==> is_unlinked_failure(r),
{
    match registry.get_client(actor) {
        Ok(_) => Ok(()),
        Err(e) => Err(e),
    }
}

/// The metadata of a container: its name, created at `created_at`.
pub fn container_info_at(
    registry: &Registry,
    actor: &Option<String>,
    arg: ContainerId,
    created_at: Timestamp,
) -> (r: Result<ContainerMetadata, String>)
    requires
        registry.wf(),
    ensures
        routed(registry, *actor) ==> r == Ok::<ContainerMetadata, String>(
            ContainerMetadata { container_id: arg, created_at: Some(created_at) },
        ),
        !routed(registry, *actor) ==> is_unlinked_failure(r),
{
    match registry.get_client(actor) {
        Ok(_) => Ok(ContainerMetadata { container_id: arg, created_at: Some(created_at) }),
        Err(e) => Err(e),
    }
}

/// The metadata of a container: its name, created now.
pub fn get_container_info(
    registry: &Registry,
    actor: &Option<String>,
    arg: ContainerId,
) -> (r: Result<ContainerMetadata, String>)
    requires
        registry.wf(),
    ensures
        routed(registry, *actor) ==> (r matches Ok(m) && m.container_id == arg && (
        m.created_at matches Some(t) && t.wf())),
        !routed(registry, *actor) ==> is_unlinked_failure(r),
{
    container_info_at(registry, actor, arg, Timestamp::now())
}

/// The containers: none is ever materialized.
pub fn list_containers(
    registry: &Registry,
    actor: &Option<String>,
) -> (r: Result<ContainersInfo, String>)
    requires
        registry.wf(),
    ensures
        routed(registry, *actor) ==> (r matches Ok(v) && v@.len() == 0),
        !routed(registry, *actor) ==> is_unlinked_failure(r),
{
    match registry.get_client(actor) {
        Ok(_) => Ok(Vec::new()),
        Err(e) => Err(e),
    }
}

/// Removes containers: nothing is attempted, so nothing fails.
pub fn remove_containers(
    registry: &Registry,
    actor: &Option<String>,
    _arg: ContainerIds,
) -> (r: Result<MultiResult, String>)
    requires
        registry.wf(),
    ensures
        routed(registry, *actor) ==> (r matches Ok(v) && v@.len() == 0),
        !routed(registry, *actor) ==> is_unlinked_failure(r),
{
    match registry.get_client(actor) {
        Ok(_) => Ok(Vec::new()),
        Err(e) => Err(e),
    }
}

/// Uploads a further chunk: chunked uploads are not supported.
pub fn put_chunk(
    registry: &Registry,
    actor: &Option<String>,
    _arg: PutChunkRequest,
) -> (r: Result<(), String>)
    requires
        registry.wf(),
    ensures
        routed(registry, *actor) ==> (r matches Err(e) && e@ == chunking_text()),
        !routed(registry, *actor) ==> is_unlinked_failure(r),
{
    match registry.get_client(actor) {
        Ok(_) => Err("Chunking not supported".to_owned()),
        Err(e) => Err(e),
    }
}

/// Whether an object exists, from the outcome of reading its metadata: a
/// missing secret means no, another failure fails the request.
pub fn object_exists_reply<T>(outcome: Result<T, VaultError>) -> (r: Result<bool, String>)
    ensures
        outcome is Ok ==> r == Ok::<bool, String>(true),
        outcome matches Err(e) ==> if e is NotFound {
            r == Ok::<bool, String>(false)
        } else {
            failed_with(r, e)
        },
{
    match outcome {
        Ok(_) => Ok(true),
        Err(VaultError::NotFound { .. }) => Ok(false),
        Err(e) => Err(e.message()),
    }
}

/// The metadata of an object, from the outcome of reading its metadata: the
/// backend gives neither its size nor its type, so only the names are set.
pub fn object_info_reply<T>(
    arg: ContainerObject,
    outcome: Result<T, VaultError>,
) -> (r: Result<ObjectMetadata, String>)
    ensures
        outcome is Ok ==> r == Ok::<ObjectMetadata, String>(
            bare_metadata(arg.container_id, arg.object_id),
        ),
        outcome matches Err(e) ==> failed_with(r, e),
{
    match outcome {
        Ok(_) => Ok(ObjectMetadata {
            object_id: arg.object_id,
            container_id: arg.container_id,
            content_length: 0,
            last_modified: None,
            content_type: None,
            content_encoding: None,
        }),
        Err(e) => Err(e.message()),
    }
}

/// The objects of a container, from the outcome of listing the keys under
/// its name: one bare entry per key, complete in one page. The paging hints
/// of the request are not honoured.
pub fn list_objects_reply(
    arg: &ListObjectsRequest,
    outcome: Result<Vec<String>, VaultError>,
) -> (r: Result<ListObjectsResponse, String>)
    ensures
        outcome matches Ok(keys) ==> (r matches Ok(resp) && resp.is_last
            && resp.continuation is None && resp.objects@.len() == keys@.len()
            && forall|j: int|
            0 <= j < keys@.len() ==> #[trigger] resp.objects@[j] == bare_metadata(
                arg.container_id,
                keys@[j],
            )),
        outcome matches Err(e) ==> failed_with(r, e),
{
    match outcome {
        Ok(keys) => {
            let mut objects: Vec<ObjectMetadata> = Vec::new();
            let mut i: usize = 0;
            while i < keys.len()
                invariant
                    i <= keys@.len(),
                    objects@.len() == i,
                    forall|j: int|
                        0 <= j < i ==> #[trigger] objects@[j] == bare_metadata(
                            arg.container_id,
                            keys@[j],
                        ),
                decreases keys@.len() - i,
            {
                objects.push(ObjectMetadata {
                    object_id: keys[i].clone(),
                    container_id: arg.container_id.clone(),
                    content_length: 0,
                    last_modified: None,
                    content_type: None,
                    content_encoding: None,
                });
                i = i + 1;
            }
            Ok(ListObjectsResponse { objects, is_last: true, continuation: None })
        },
        Err(e) => Err(e.message()),
    }
}

/// The result of a batch of deletions, from the outcome of each: one item per
/// key, in the order of the keys, a failure for each deletion that failed.
pub fn remove_objects_reply(
    keys: &Vec<String>,
    outcomes: &Vec<Result<(), VaultError>>,
) -> (r: MultiResult)
    requires
        keys@.len() == outcomes@.len(),
    ensures
        r@.len() == keys@.len(),
        forall|j: int| 0 <= j < keys@.len() ==> {
            &&& (#[trigger] r@[j]).key == keys@[j]
            &&& r@[j].success == outcomes@[j] is Ok
            &&& outcomes@[j] is Ok ==> r@[j].error is None
            &&& outcomes@[j] matches Err(e) ==> (r@[j].error matches Some(m) && m@ == error_text(e))
        },
{
    let mut results: Vec<ItemResult> = Vec::new();
    let mut i: usize = 0;
    while i < keys.len()
        invariant
            keys@.len() == outcomes@.len(),
            i <= keys@.len(),
            results@.len() == i,
            forall|j: int| 0 <= j < i ==> {
                &&& (#[trigger] results@[j]).key == keys@[j]
                &&& results@[j].success == outcomes@[j] is Ok
                &&& outcomes@[j] is Ok ==> results@[j].error is None
                &&& outcomes@[j] matches Err(e) ==> (results@[j].error matches Some(m) && m@
                    == error_text(e))
            },
        decreases keys@.len() - i,
    {
        let item = match &outcomes[i] {
            Ok(_) => ItemResult { key: keys[i].clone(), success: true, error: None },
            Err(e) => ItemResult { key: keys[i].clone(), success: false, error: Some(e.message()) },
        };
        results.push(item);
        i = i + 1;
    }
    results
}

/// What an upload writes: the chunk's bytes, whole, at the object's path.
/// Content type and encoding are not kept.
pub fn put_object_write(arg: PutObjectRequest) -> (r: (String, Vec<u8>))
    ensures
        r.0 == arg.chunk.object_id,
        r.1 == arg.chunk.bytes,
{
    (arg.chunk.object_id, arg.chunk.bytes)
}

/// The reply to an upload, from the outcome of the write. No stream is
/// opened: there are no further chunks.
pub fn put_object_reply<T>(outcome: Result<T, VaultError>) -> (r: Result<PutObjectResponse, String>)
    ensures
        outcome is Ok ==> r == Ok::<PutObjectResponse, String>(
            PutObjectResponse { stream_id: None },
        ),
        outcome matches Err(e) ==> failed_with(r, e),
{
    match outcome {
        Ok(_) => Ok(PutObjectResponse { stream_id: None }),
        Err(e) => Err(e.message()),
    }
}

/// The reply to a download, from the outcome of reading the secret: the whole
/// object in one last chunk. The requested range is not honoured.
pub fn get_object_reply(
    arg: GetObjectRequest,
    outcome: Result<Vec<u8>, VaultError>,
) -> (r: Result<GetObjectResponse, String>)
    ensures
        outcome matches Ok(data) ==> r == Ok::<GetObjectResponse, String>(download_of(arg, data)),
        outcome matches Err(e) ==> failed_with(r, e),
{
    match outcome {
        Ok(data) => Ok(GetObjectResponse {
            success: true,
            error: None,
            initial_chunk: Some(Chunk {
                object_id: arg.object_id,
                container_id: arg.container_id,
                bytes: data,
                offset: 0,
                is_last: true,
            }),
            content_length: 0,
            content_type: None,
            content_encoding: None,
        }),
        Err(e) => Err(e.message()),
    }
}

} // verus!
