//! Data shapes of the blob-store interface.
use vstd::prelude::*;

verus! {

pub type ContainerId = String;

pub type ContainerIds = Vec<ContainerId>;

pub type ContainersInfo = Vec<ContainerMetadata>;

pub type MultiResult = Vec<ItemResult>;

pub type ObjectId = String;

pub type ObjectIds = Vec<ObjectId>;

pub type ObjectsInfo = Vec<ObjectMetadata>;

/// Nanoseconds in one second.
pub const NANOS_PER_SEC: u32 = 1_000_000_000;

/// A point in time, as seconds and nanoseconds since the Unix epoch.
#[derive(Clone, Debug, Default, PartialEq, Eq)]
pub struct Timestamp {
    pub sec: u64,
    pub nsec: u32,
}

impl Timestamp {
    /// The nanosecond part is a fraction of a second.
    pub open spec fn wf(&self) -> bool {
        self.nsec < NANOS_PER_SEC
    }

    /// The time of a clock reading given as whole seconds and nanoseconds
    /// since the epoch; no reading (a clock before the epoch) is the epoch.
    pub fn timestamp_from(reading: Option<(u64, u32)>) -> (r: Timestamp)
        requires
            reading matches Some(p) ==> p.1 < NANOS_PER_SEC,
        ensures
            r == (match reading {
                Some(p) => Timestamp { sec: p.0, nsec: p.1 },
                None => Timestamp { sec: 0, nsec: 0 },
            }),
            r.wf(),
    {
        match reading {
            Some(p) => Timestamp { sec: p.0, nsec: p.1 },
            None => Timestamp { sec: 0, nsec: 0 },
        }
    }

    /// The current time of the system clock. A clock that reads earlier than
    /// the epoch is reported as the epoch itself.
    pub fn now() -> (r: Timestamp)
        ensures
            r.wf(),
    {
        let now = system_now();
        let reading = match since_epoch(&now) {
            Some(d) => Some((whole_seconds(&d), subsecond_nanos(&d))),
            None => None,
        };
        Timestamp::timestamp_from(reading)
    }
}

#[verifier::external_type_specification]
#[verifier::external_body]
pub struct ExSystemTime(std::time::SystemTime);

/// Relies on std::time::SystemTime::now: a reading of the system clock, of
/// which nothing is known in advance.
#[verifier::external_body]
fn system_now() -> (r: std::time::SystemTime) {
    std::time::SystemTime::now()
}

/// Relies on std::time::SystemTime::duration_since, measured from
/// std::time::UNIX_EPOCH: it fails when the time lies before the epoch.
#[verifier::external_body]
fn since_epoch(t: &std::time::SystemTime) -> (r: Option<std::time::Duration>) {
    t.duration_since(std::time::UNIX_EPOCH).ok()
}

/// Relies on std::time::Duration::as_secs: the whole seconds of a duration.
#[verifier::external_body]
fn whole_seconds(d: &std::time::Duration) -> (r: u64) {
    d.as_secs()
}

/// Relies on std::time::Duration::subsec_nanos, documented to be less than
/// one billion.
#[verifier::external_body]
fn subsecond_nanos(d: &std::time::Duration) -> (r: u32)
    ensures
        r < NANOS_PER_SEC,
{
    d.subsec_nanos()
}

/// One piece of an object's bytes.
#[derive(Clone, Debug, Default, PartialEq, Eq)]
pub struct Chunk {
    pub object_id: ObjectId,
    pub container_id: ContainerId,
    /// bytes in this chunk
    pub bytes: Vec<u8>,
    /// The byte offset within the object for this chunk
    pub offset: u64,
    /// true if this is the last chunk
    pub is_last: bool,
}

#[derive(Clone, Debug, Default, PartialEq, Eq)]
pub struct ChunkResponse {
    /// If set and `true`, the sender will stop sending chunks,
    pub cancel_download: bool,
}

#[derive(Clone, Debug, Default, PartialEq, Eq)]
pub struct ContainerMetadata {
    /// Container name
    pub container_id: ContainerId,
    /// Creation date, if available
    pub created_at: Option<Timestamp>,
}

#[derive(Clone, Debug, Default, PartialEq, Eq)]
pub struct ContainerObject {
    pub container_id: ContainerId,
    pub object_id: ObjectId,
}

#[derive(Clone, Debug, Default, PartialEq, Eq)]
pub struct GetObjectRequest {
    /// object to download
    pub object_id: ObjectId,
    /// object's container
    pub container_id: ContainerId,
    /// Requested start of the object, inclusive; accepted and not honoured.
    pub range_start: Option<u64>,
    /// Requested end of the object, inclusive; accepted and not honoured.
    pub range_end: Option<u64>,
}

#[derive(Clone, Debug, Default, PartialEq, Eq)]
pub struct GetObjectResponse {
    /// indication whether the request was successful
    pub success: bool,
    /// If success is false, this may contain an error
    pub error: Option<String>,
    /// The first (here: the only) chunk of the object
    pub initial_chunk: Option<Chunk>,
    /// Length of the content
    pub content_length: u64,
    /// A standard MIME type describing the format of the object data.
    pub content_type: Option<String>,
    /// Content encodings applied to the object data
    pub content_encoding: Option<String>,
}

#[derive(Clone, Debug, Default, PartialEq, Eq)]
pub struct ItemResult {
    pub key: String,
    /// whether the item succeeded or failed
    pub success: bool,
    /// optional error message for failures
    pub error: Option<String>,
}

#[derive(Clone, Debug, Default, PartialEq, Eq)]
pub struct ListObjectsRequest {
    /// Name of the container to search
    pub container_id: String,
    /// Request object names starting with this value. (Optional)
    pub start_with: Option<String>,
    /// Continuation token passed in ListObjectsResponse. (Optional)
    pub continuation: Option<String>,
    /// Last item to return (inclusive terminator) (Optional)
    pub end_with: Option<String>,
    /// Stop returning items before returning this value. (Optional)
    pub end_before: Option<String>,
    /// maximum number of items to return (Optional)
    pub max_items: Option<u32>,
}

#[derive(Clone, Debug, Default, PartialEq, Eq)]
pub struct ListObjectsResponse {
    /// set of objects returned
    pub objects: ObjectsInfo,
    /// Indicates if the item list is complete
    pub is_last: bool,
    /// Token for a following ListObjectsRequest, when `is_last` is false
    pub continuation: Option<String>,
}

#[derive(Clone, Debug, Default, PartialEq, Eq)]
pub struct ObjectMetadata {
    /// Object identifier that is unique within its container.
    pub object_id: ObjectId,
    /// container of the object
    pub container_id: ContainerId,
    /// size of the object in bytes
    pub content_length: u64,
    /// date object was last modified
    pub last_modified: Option<Timestamp>,
    /// A MIME type of the object
    pub content_type: Option<String>,
    /// Content encodings applied to the object data
    pub content_encoding: Option<String>,
}

#[derive(Clone, Debug, Default, PartialEq, Eq)]
pub struct PutChunkRequest {
    /// upload chunk from the file.
    pub chunk: Chunk,
    /// The `stream_id` returned from the initial PutObject.
    pub stream_id: Option<String>,
    /// If set, the upload is to be cancelled and the file removed.
    pub cancel_and_remove: bool,
}

#[derive(Clone, Debug, Default, PartialEq, Eq)]
pub struct PutObjectRequest {
    /// File path and initial data
    pub chunk: Chunk,
    /// A MIME type of the object
    pub content_type: Option<String>,
    /// Content encodings applied to the object data
    pub content_encoding: Option<String>,
}

#[derive(Clone, Debug, Default, PartialEq, Eq)]
pub struct RemoveObjectsRequest {
    /// name of container
    pub container_id: ContainerId,
    /// list of object names to be removed
    pub objects: ObjectIds,
}

#[derive(Clone, Debug, Default, PartialEq, Eq)]
pub struct PutObjectResponse {
    /// For a multipart upload, the id that later PutChunk requests carry
    pub stream_id: Option<String>,
}

} // verus!
