//! What a download brought, and whether a run can go on with it.

use vstd::prelude::*;
use bytes::Bytes;
use crate::types::Status;

verus! {

/// The buffer type of the `bytes` crate. The library hands such a buffer on
/// and asks it for its length; it never looks at the memory behind it.
#[verifier::external_type_specification]
#[verifier::external_body]
pub struct ExBytes(bytes::Bytes);

/// The bytes that a buffer holds, first to last.
pub uninterp spec fn bytes_of(buf: bytes::Bytes) -> Seq<u8>;

/// `Bytes::len` of the `bytes` crate: the number of bytes that the buffer
/// holds.
pub assume_specification[ bytes::Bytes::len ](buf: &bytes::Bytes) -> (n: usize)
    ensures
        n == bytes_of(*buf).len(),
;

/// `Bytes::is_empty` of the `bytes` crate: whether the buffer holds no byte
/// at all.
pub assume_specification[ bytes::Bytes::is_empty ](buf: &bytes::Bytes) -> (empty: bool)
    ensures
        empty == (bytes_of(*buf).len() == 0),
;

/// An image of this many bytes or more is never posted.
pub const MAX_IMAGE_BYTES: usize = 5_000_000;

/// The first HTTP status code that counts as success.
pub const HTTP_SUCCESS_FIRST: u16 = 200;

/// The last HTTP status code that counts as success.
pub const HTTP_SUCCESS_LAST: u16 = 299;

/// Whether an answer with the status `code` is a success: the codes from
/// `HTTP_SUCCESS_FIRST` to `HTTP_SUCCESS_LAST`, both included.
pub open spec fn spec_status_accepted(code: u16) -> bool {
    HTTP_SUCCESS_FIRST <= code <= HTTP_SUCCESS_LAST
}

/// Whether an answer with the status `code` is a success. Redirects that the
/// transport did not follow, client errors and server errors are all none.
#[verifier::when_used_as_spec(spec_status_accepted)]
pub fn status_accepted(code: u16) -> (accepted: bool)
    ensures
        accepted == spec_status_accepted(code),
{
    HTTP_SUCCESS_FIRST <= code && code <= HTTP_SUCCESS_LAST
}

/// How a single GET request ended.
#[derive(Debug)]
pub enum Transport {
    /// No answer came: the request could not be sent, or it broke off.
    Failed,
    /// The server answered with an HTTP status code. `body` is `None` where
    /// the body could not be read to its end.
    Answered { code: u16, body: Option<Bytes> },
}

impl Transport {
    /// The body of an answer that a run accepts: one with a status of
    /// success whose body was read whole. Every other answer, whatever its
    /// code, counts as a failed download, and so does a request without an
    /// answer.
    pub open spec fn accepted_body(self) -> Option<Bytes> {
        match self {
            Transport::Answered { code, body: Some(buf) } if spec_status_accepted(code) => Some(
                buf,
            ),
            _ => None,
        }
    }
}

/// Whether an image of `len` bytes may be posted: it is not empty and stays
/// under the limit.
pub open spec fn size_accepted(len: nat) -> bool {
    0 < len < MAX_IMAGE_BYTES
}

/// Interprets the end of a download. The body is handed on where the server
/// answered with a status of success, 200 to 299, and the body was read;
/// anything else is a `DownloadFail`, with no distinction between the ways
/// of failing.
pub fn download_image(response: Transport) -> (fetched: Result<Bytes, Status>)
    ensures
        fetched == match response.accepted_body() {
            Some(buf) => Ok::<Bytes, Status>(buf),
            None => Err::<Bytes, Status>(Status::DownloadFail),
        },
{
    match response {
        Transport::Failed => Err(Status::DownloadFail),
        Transport::Answered { code, body } => {
            if !status_accepted(code) {
                return Err(Status::DownloadFail);
            }
            match body {
                Some(buf) => Ok(buf),
                None => Err(Status::DownloadFail),
            }
        },
    }
}

/// Holds a downloaded image to the size limit: an empty image and one of
/// `MAX_IMAGE_BYTES` or more are both `ImageTooLarge`; any other comes back
/// as it was.
pub fn check_size(buf: Bytes) -> (checked: Result<Bytes, Status>)
    ensures
        size_accepted(bytes_of(buf).len()) ==> checked == Ok::<Bytes, Status>(buf),
        !size_accepted(bytes_of(buf).len()) ==> checked == Err::<Bytes, Status>(
            Status::ImageTooLarge,
        ),
{
    if !buf.is_empty() && buf.len() < MAX_IMAGE_BYTES {
        Ok(buf)
    } else {
        Err(Status::ImageTooLarge)
    }
}

} // verus!
