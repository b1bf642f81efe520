use blobstore_vault::adapter::{
    container_info_at, container_exists, create_container, get_container_info, list_containers, put_chunk,
    remove_containers,
};
use blobstore_vault::client::Client;
use blobstore_vault::config::Config;
use blobstore_vault::error::VaultError;
use blobstore_vault::registry::Registry;
use blobstore_vault::wasmcloud_interface_blobstore::{PutChunkRequest, Timestamp};

fn pairs(items: &[(&str, &str)]) -> Vec<(String, String)> {
    items.iter().map(|(k, v)| (k.to_string(), v.to_string())).collect()
}

fn linked(tenant: &str, mount: &str) -> Registry {
    let mut r = Registry::new();
    assert!(r.put_link(&tenant.to_string(), &pairs(&[("token", "t"), ("mount", mount)])));
    r
}

#[test]
fn link_without_token_is_denied() {
    let mut r = Registry::new();
    assert!(!r.put_link(&"a".to_string(), &pairs(&[("mount", "m")])));
    assert!(r.get_client(&Some("a".to_string())).is_err());
}

#[test]
fn links_are_isolated() {
    let mut r = Registry::new();
    assert!(r.put_link(&"a".to_string(), &pairs(&[("token", "ta"), ("mount", "ma")])));
    assert!(r.put_link(&"b".to_string(), &pairs(&[("token", "tb"), ("mount", "mb")])));
    assert_eq!(r.get_client(&Some("a".to_string())).unwrap().namespace(), "ma");
    assert_eq!(r.get_client(&Some("b".to_string())).unwrap().namespace(), "mb");
}

#[test]
fn relinking_replaces_the_client() {
    let mut r = linked("a", "old");
    assert!(r.put_link(&"a".to_string(), &pairs(&[("token", "t"), ("mount", "new")])));
    assert_eq!(r.get_client(&Some("a".to_string())).unwrap().namespace(), "new");
}

#[test]
fn unlinked_tenant_fails() {
    let mut r = linked("a", "m");
    r.delete_link(&"a".to_string());
    let e = r.get_client(&Some("a".to_string())).err().unwrap();
    assert_eq!(e, "Actor is not linked");
    r.delete_link(&"a".to_string());
    assert_eq!(container_exists(&r, &Some("a".to_string()), &"c".to_string()), Err(e.clone()));
    assert_eq!(list_containers(&r, &Some("a".to_string())), Err(e.clone()));
    assert_eq!(put_chunk(&r, &Some("a".to_string()), PutChunkRequest::default()), Err(e));
}

#[test]
fn shutdown_ends_every_link() {
    let mut r = linked("a", "m");
    assert!(r.put_link(&"b".to_string(), &pairs(&[("token", "t")])));
    r.shutdown();
    assert!(r.get_client(&Some("a".to_string())).is_err());
    assert!(r.get_client(&Some("b".to_string())).is_err());
}

#[test]
fn request_without_actor_uses_empty_name() {
    let r = linked("", "m");
    assert_eq!(r.get_client(&None).unwrap().namespace(), "m");
    let s = linked("x", "m");
    assert!(s.get_client(&None).is_err());
}

#[test]
fn containers_are_virtual() {
    let r = linked("a", "m");
    let actor = Some("a".to_string());
    assert_eq!(create_container(&r, &actor, &"box".to_string()), Ok(()));
    assert_eq!(list_containers(&r, &actor), Ok(vec![]));
    assert_eq!(container_exists(&r, &actor, &"anything".to_string()), Ok(true));
    assert_eq!(remove_containers(&r, &actor, vec!["box".to_string()]), Ok(vec![]));
    let info = get_container_info(&r, &actor, "box".to_string()).unwrap();
    assert_eq!(info.container_id, "box");
    assert!(info.created_at.unwrap().nsec < 1_000_000_000);
}

#[test]
fn chunking_is_rejected() {
    let r = linked("a", "m");
    let actor = Some("a".to_string());
    let e = put_chunk(&r, &actor, PutChunkRequest::default());
    assert_eq!(e, Err("Chunking not supported".to_string()));
}

#[test]
fn timestamp_now_is_after_epoch() {
    let t = Timestamp::now();
    assert!(t.sec > 1_600_000_000);
    assert!(t.nsec < 1_000_000_000);
}

#[test]
fn timestamp_from_reading() {
    assert_eq!(Timestamp::timestamp_from(Some((12, 345))), Timestamp { sec: 12, nsec: 345 });
    assert_eq!(Timestamp::timestamp_from(None), Timestamp { sec: 0, nsec: 0 });
}

#[test]
fn container_info_carries_creation_time() {
    let r = linked("a", "m");
    let t = Timestamp { sec: 1_700_000_000, nsec: 5 };
    let info = container_info_at(&r, &Some("a".to_string()), "box".to_string(), t.clone()).unwrap();
    assert_eq!(info.container_id, "box");
    assert_eq!(info.created_at, Some(t.clone()));
    assert_eq!(
        container_info_at(&r, &Some("b".to_string()), "box".to_string(), t),
        Err("Actor is not linked".to_string())
    );
}

#[test]
fn link_client_follows_the_outcome() {
    let mut r = Registry::new();
    let made = Client::new(Config {
        token: "t".to_string(),
        addr: "http://127.0.0.1:8200".to_string(),
        mount: "kv".to_string(),
        certs: vec![],
    });
    assert!(r.link_client(&"a".to_string(), made));
    assert_eq!(r.get_client(&Some("a".to_string())).unwrap().namespace(), "kv");
    let failed = Err(VaultError::InvalidAddress { address: "x".to_string() });
    assert!(!r.link_client(&"b".to_string(), failed));
    assert!(r.get_client(&Some("b".to_string())).is_err());
}

#[test]
fn missing_certificate_file_denies_link() {
    let mut r = Registry::new();
    let values = pairs(&[("token", "t"), ("certs", "/nonexistent/ca.pem")]);
    assert!(!r.put_link(&"a".to_string(), &values));
    assert!(r.get_client(&Some("a".to_string())).is_err());
}
