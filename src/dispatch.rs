//! The names under which the blob-store operations are invoked.
use vstd::prelude::*;

verus! {

/// A blob-store operation.
#[derive(Clone, Copy, Debug, PartialEq, Eq, Structural)]
pub enum Method {
    ContainerExists,
    CreateContainer,
    GetContainerInfo,
    ListContainers,
    RemoveContainers,
    ObjectExists,
    GetObjectInfo,
    ListObjects,
    RemoveObjects,
    PutObject,
    GetObject,
    PutChunk,
}

/// The name under which an operation is invoked.
pub open spec fn method_name(m: Method) -> Seq<char> {
    match m {
        Method::ContainerExists => "Blobstore.ContainerExists"@,
        Method::CreateContainer => "Blobstore.CreateContainer"@,
        Method::GetContainerInfo => "Blobstore.GetContainerInfo"@,
        Method::ListContainers => "Blobstore.ListContainers"@,
        Method::RemoveContainers => "Blobstore.RemoveContainers"@,
        Method::ObjectExists => "Blobstore.ObjectExists"@,
        Method::GetObjectInfo => "Blobstore.GetObjectInfo"@,
        Method::ListObjects => "Blobstore.ListObjects"@,
        Method::RemoveObjects => "Blobstore.RemoveObjects"@,
        Method::PutObject => "Blobstore.PutObject"@,
        Method::GetObject => "Blobstore.GetObject"@,
        Method::PutChunk => "Blobstore.PutChunk"@,
    }
}

/// The text of the failure that answers an unknown operation name.
pub open spec fn invalid_method_text(name: Seq<char>) -> Seq<char> {
    "Invalid method name "@ + name
}

/// The operation invoked under `name`, if any.
pub fn method_from_name(name: &String) -> (r: Option<Method>)
    ensures
        r matches Some(m) ==> method_name(m) == name@,
        r is None ==> forall|m: Method| method_name(m) != name@,
{
    if *name == "Blobstore.ContainerExists".to_owned() {
        return Some(Method::ContainerExists);
    }
    if *name == "Blobstore.CreateContainer".to_owned() {
        return Some(Method::CreateContainer);
    }
    if *name == "Blobstore.GetContainerInfo".to_owned() {
        return Some(Method::GetContainerInfo);
    }
    if *name == "Blobstore.ListContainers".to_owned() {
        return Some(Method::ListContainers);
    }
    if *name == "Blobstore.RemoveContainers".to_owned() {
        return Some(Method::RemoveContainers);
    }
    if *name == "Blobstore.ObjectExists".to_owned() {
        return Some(Method::ObjectExists);
    }
    if *name == "Blobstore.GetObjectInfo".to_owned() {
        return Some(Method::GetObjectInfo);
    }
    if *name == "Blobstore.ListObjects".to_owned() {
        return Some(Method::ListObjects);
    }
    if *name == "Blobstore.RemoveObjects".to_owned() {
        return Some(Method::RemoveObjects);
    }
    if *name == "Blobstore.PutObject".to_owned() {
        return Some(Method::PutObject);
    }
    if *name == "Blobstore.GetObject".to_owned() {
        return Some(Method::GetObject);
    }
    if *name == "Blobstore.PutChunk".to_owned() {
        return Some(Method::PutChunk);
    }
    None
}

/// The failure that answers an unknown operation name.
pub fn invalid_method(name: &String) -> (r: String)
    ensures
        r@ == invalid_method_text(name@),
{
    let mut s = "Invalid method name ".to_owned();
    s.append(name.as_str());
    s
}

} // verus!
