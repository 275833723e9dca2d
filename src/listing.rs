//! The recorder's file listing: which recorded files are to be deleted.
use crate::ids::EntityId;
use vstd::prelude::*;
use vstd::string::StringExecFns;

verus! {

/// A file that the recorder reports.
pub struct FileRecord {
    pub relative_path: String,
    pub host_id: String,
    pub recorder_event_id: Option<EntityId>,
}

/// The recorder's reply to a listing: an error, or the files.
pub struct GetFilesResponse {
    pub error: Option<String>,
    pub data: Vec<FileRecord>,
}

/// The request that deletes files.
pub struct DeleteFilesRequest {
    pub request: String,
    pub files_path: Vec<String>,
}

/// Why the recorder's files could not be listed or deleted.
pub enum ListingError {
    /// The reply's HTTP status was not a success.
    Status(u16),
    /// The recorder reported this error.
    Server(String),
}

/// A success status: 200 to 299.
pub open spec fn is_success(status: u16) -> bool {
    200 <= status && status <= 299
}

/// Fails with the status unless it is a success.
pub fn check_status(status: u16) -> (r: Result<(), ListingError>)
    ensures
        r is Ok <==> is_success(status),
        r matches Err(ListingError::Status(s)) ==> s == status,
        r is Err ==> r matches Err(ListingError::Status(_)),
{
    if 200 <= status && status <= 299 {
        Ok(())
    } else {
        Err(ListingError::Status(status))
    }
}

/// The address of the recorder's file listing under `base_url`.
pub fn files_endpoint(base_url: &str) -> (r: String)
    ensures
        r@ == base_url@ + "/bililive_recorder/files"@,
{
    let mut url = String::from_str(base_url);
    url.append("/bililive_recorder/files");
    url
}

/// The authorization header's value for `password`.
pub fn bearer(password: &str) -> (r: String)
    ensures
        r@ == "Bearer "@ + password@,
{
    let mut v = String::from_str("Bearer ");
    v.append(password);
    v
}

/// The relative paths of the files listed, in order; the recorder's error
/// where it reported one.
pub fn relative_paths(resp: &GetFilesResponse) -> (r: Result<Vec<String>, ListingError>)
    ensures
        match resp.error {
            Some(e) => r matches Err(ListingError::Server(m)) && m@ == e@,
            None => r matches Ok(paths) && paths@.len() == resp.data@.len() && forall|i: int|
                0 <= i < paths@.len() ==> #[trigger] paths@[i]@ == resp.data@[i].relative_path@,
        },
{
    match &resp.error {
        Some(e) => {
            return Err(ListingError::Server(e.clone()));
        },
        None => {},
    }
    let mut out: Vec<String> = Vec::new();
    let n = resp.data.len();
    let mut i: usize = 0;
    while i < n
        invariant
            n == resp.data@.len(),
            0 <= i <= n,
            out@.len() == i,
            forall|k: int| 0 <= k < i ==> #[trigger] out@[k]@ == resp.data@[k].relative_path@,
        decreases n - i,
    {
        out.push(resp.data[i].relative_path.clone());
        i = i + 1;
    }
    Ok(out)
}

/// The request that deletes `files`.
pub fn delete_request(files: Vec<String>) -> (r: DeleteFilesRequest)
    ensures
        r.request@ == "DeleteFiles"@,
        r.files_path@ == files@,
{
    DeleteFilesRequest { request: String::from_str("DeleteFiles"), files_path: files }
}

} // verus!
