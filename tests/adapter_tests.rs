use blobstore_vault::adapter::{
    get_object_reply, list_objects_reply, object_exists_reply, object_info_reply,
    put_object_reply, put_object_write, remove_objects_reply,
};
use blobstore_vault::client::Client;
use blobstore_vault::config::Config;
use blobstore_vault::dispatch::{invalid_method, method_from_name, Method};
use blobstore_vault::error::VaultError;
use blobstore_vault::wasmcloud_interface_blobstore::{
    Chunk, ContainerObject, GetObjectRequest, ListObjectsRequest, PutObjectRequest,
    PutObjectResponse,
};
use vaultrs::error::ClientError;

fn not_found(path: &str) -> VaultError {
    VaultError::NotFound { namespace: "secret".to_string(), path: path.to_string() }
}

fn api_error(code: u16) -> ClientError {
    ClientError::APIError { code, errors: vec![] }
}

fn client(mount: &str) -> Client {
    Client::new(Config {
        token: "t".to_string(),
        addr: "http://127.0.0.1:8200".to_string(),
        mount: mount.to_string(),
        certs: vec![],
    })
    .ok()
    .unwrap()
}

#[test]
fn error_messages() {
    assert_eq!(not_found("k").message(), "Key not found: namespace/key secret/k");
    assert_eq!(VaultError::Client(api_error(500)).message(), "An error occurred with the request");
    assert_eq!(
        VaultError::InvalidAddress { address: "x".to_string() }.message(),
        "Invalid backend address: x"
    );
}

#[test]
fn not_found_status_is_masked() {
    let c = client("mnt");
    let r: Result<(), VaultError> = c.lookup_outcome(&"obj".to_string(), Err(api_error(404)));
    match r {
        Err(VaultError::NotFound { namespace, path }) => {
            assert_eq!(namespace, "mnt");
            assert_eq!(path, "obj");
        }
        _ => panic!("expected NotFound"),
    }
    let r: Result<(), VaultError> = c.lookup_outcome(&"obj".to_string(), Err(api_error(403)));
    assert!(matches!(r, Err(VaultError::Client(_))));
    let r: Result<u8, VaultError> = c.lookup_outcome(&"obj".to_string(), Ok(7));
    assert!(matches!(r, Ok(7)));
}

#[test]
fn changes_keep_not_found_as_backend_error() {
    let r: Result<(), VaultError> = Client::change_outcome(Err(api_error(404)));
    assert!(matches!(r, Err(VaultError::Client(_))));
}

#[test]
fn client_with_bad_address_is_refused() {
    let r = Client::new(Config {
        token: "t".to_string(),
        addr: "no url".to_string(),
        mount: "m".to_string(),
        certs: vec![],
    });
    assert!(matches!(r, Err(VaultError::InvalidAddress { .. })));
}

#[test]
fn missing_object_does_not_exist() {
    assert_eq!(object_exists_reply::<()>(Err(not_found("k"))), Ok(false));
    assert_eq!(object_exists_reply(Ok(())), Ok(true));
    assert_eq!(
        object_exists_reply::<()>(Err(VaultError::Client(api_error(500)))),
        Err("An error occurred with the request".to_string())
    );
}

#[test]
fn missing_object_info_fails() {
    let arg = ContainerObject { container_id: "c".to_string(), object_id: "k".to_string() };
    assert_eq!(
        object_info_reply::<()>(arg.clone(), Err(not_found("k"))),
        Err("Key not found: namespace/key secret/k".to_string())
    );
    let m = object_info_reply(arg, Ok(())).unwrap();
    assert_eq!(m.object_id, "k");
    assert_eq!(m.container_id, "c");
    assert_eq!(m.content_length, 0);
    assert!(m.content_type.is_none() && m.last_modified.is_none());
}

#[test]
fn listing_is_one_complete_page() {
    let arg = ListObjectsRequest {
        container_id: "c".to_string(),
        max_items: Some(1),
        ..Default::default()
    };
    let r = list_objects_reply(&arg, Ok(vec!["a".to_string(), "b".to_string()])).unwrap();
    assert!(r.is_last);
    assert!(r.continuation.is_none());
    assert_eq!(r.objects.len(), 2);
    assert_eq!(r.objects[0].object_id, "a");
    assert_eq!(r.objects[1].object_id, "b");
    assert_eq!(r.objects[1].container_id, "c");
    assert_eq!(
        list_objects_reply(&arg, Err(not_found("c"))),
        Err("Key not found: namespace/key secret/c".to_string())
    );
}

#[test]
fn remove_objects_reports_each_key() {
    let keys = vec!["k1".to_string(), "k2".to_string()];
    let outcomes = vec![Ok(()), Err(VaultError::Client(api_error(404)))];
    let r = remove_objects_reply(&keys, &outcomes);
    assert_eq!(r.len(), 2);
    assert_eq!(r[0].key, "k1");
    assert!(r[0].success);
    assert!(r[0].error.is_none());
    assert_eq!(r[1].key, "k2");
    assert!(!r[1].success);
    assert_eq!(r[1].error.as_deref(), Some("An error occurred with the request"));
}

fn put(id: &str, bytes: Vec<u8>) -> PutObjectRequest {
    PutObjectRequest {
        chunk: Chunk {
            object_id: id.to_string(),
            container_id: "c".to_string(),
            bytes,
            offset: 0,
            is_last: true,
        },
        content_type: Some("text/plain".to_string()),
        content_encoding: None,
    }
}

#[test]
fn write_read_round_trip() {
    for bytes in [vec![], vec![1u8, 2, 3], vec![0u8; 1000]] {
        let (path, data) = put_object_write(put("obj", bytes.clone()));
        assert_eq!(path, "obj");
        let get = GetObjectRequest {
            object_id: "obj".to_string(),
            container_id: "c".to_string(),
            range_start: Some(1),
            range_end: Some(2),
        };
        let resp = get_object_reply(get, Ok(data)).unwrap();
        assert!(resp.success);
        let chunk = resp.initial_chunk.unwrap();
        assert_eq!(chunk.bytes, bytes);
        assert!(chunk.is_last);
        assert_eq!(chunk.offset, 0);
        assert_eq!(chunk.object_id, "obj");
    }
}

#[test]
fn upload_opens_no_stream() {
    assert_eq!(put_object_reply(Ok(())), Ok(PutObjectResponse { stream_id: None }));
    assert_eq!(
        put_object_reply::<()>(Err(VaultError::Client(api_error(500)))),
        Err("An error occurred with the request".to_string())
    );
}

#[test]
fn failed_download_reports_error() {
    let get = GetObjectRequest { object_id: "k".to_string(), ..Default::default() };
    assert_eq!(
        get_object_reply(get, Err(not_found("k"))),
        Err("Key not found: namespace/key secret/k".to_string())
    );
}

#[test]
fn method_names_route() {
    assert_eq!(method_from_name(&"Blobstore.GetObject".to_string()), Some(Method::GetObject));
    assert_eq!(method_from_name(&"Blobstore.PutChunk".to_string()), Some(Method::PutChunk));
    assert_eq!(
        method_from_name(&"Blobstore.ContainerExists".to_string()),
        Some(Method::ContainerExists)
    );
    assert_eq!(method_from_name(&"Blobstore.Nope".to_string()), None);
    assert_eq!(invalid_method(&"X".to_string()), "Invalid method name X");
}
