//! Record keeping for collaborative music projects, and the computing half
//! of the pipeline that pins audio files with a remote content-addressed
//! service.
//!
//! The crate performs no I/O. [`store::RecordStore`] owns the project and
//! collectible records. [`outcall::build_upload_request`] turns an upload
//! request into the outbound call, byte for byte, and
//! [`response::reduce_call_result`] reduces whatever came back to a
//! [`records::PinataUploadResponse`]; the caller carries the call over the
//! wire. [`laws`] states what holds of both, whatever the calls.

pub mod bytes;
pub mod decimal;
pub mod laws;
pub mod multipart;
pub mod outcall;
pub mod records;
pub mod response;
pub mod store;
pub mod text;
