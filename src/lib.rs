//! Lock-gated submission of video archives: chunked streaming of upload
//! bytes, lock verification, descriptor building, the submission state
//! machine and the result write-back.
pub mod stream;
pub mod ids;
pub mod locks;
pub mod descriptor;
pub mod response;
pub mod persist;
pub mod submission;
pub mod repositories;
pub mod listing;
