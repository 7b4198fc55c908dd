//! One exchange with the service, after its call was described: how the
//! reply is read, and what it ends in.
//!
//! The transport makes the call and reports the status; [`Capture`] or
//! [`UsageQuery`] then says how the body is to be read ([`CaptureReply`],
//! [`UsageReply`]), and each way of reading ends in the operation's result.

use vstd::prelude::*;
use vstd::string::StringExecFns;
use crate::client::{failure_message, is_success, standard_phrase, HttpCall, Pxshot};
use crate::error::{Error, ErrorModel};
use crate::request::{text_of, ScreenshotRequest};
use crate::response::{ResponseModel, ScreenshotResponse, StoredScreenshot, Usage};

verus! {

/// A capture that was started: the call to make, and how its reply is read.
#[derive(Debug)]
pub struct Capture {
    /// The call that asks the service for the capture.
    pub call: HttpCall,
    /// Whether the request asked the service to keep the image.
    pub store: bool,
}

/// How the body of a capture's reply is to be read. Which of the three it
/// is follows from the reply's status and the request's `store` flag, never
/// from the body.
#[derive(Debug)]
pub enum CaptureReply {
    /// The status tells of a failure: the body may hold the service's message.
    Failed(FailedReply),
    /// Success, and the image was to be stored: the body describes the copy.
    Stored(StoredReply),
    /// Success, and the image was not to be stored: the body is the image.
    Bytes(BytesReply),
}

/// A reply whose status tells of a failure.
#[derive(Debug)]
pub struct FailedReply {
    status: u16,
}

/// A successful reply whose body describes a stored copy.
#[derive(Debug)]
pub struct StoredReply {
    sealed: (),
}

/// A successful reply whose body is the image.
#[derive(Debug)]
pub struct BytesReply {
    sealed: (),
}

impl Capture {
    /// How the reply is read, for a status: as a failure when the status is
    /// outside 200 to 299; else as a stored copy's description when the
    /// request asked to store the image, and as the image when it did not.
    pub open spec fn spec_on_status(&self, status: u16) -> CaptureReply {
        if !is_success(status) {
            CaptureReply::Failed(FailedReply::of(status))
        } else if self.store {
            CaptureReply::Stored(StoredReply::token())
        } else {
            CaptureReply::Bytes(BytesReply::token())
        }
    }

    /// The failure of a call that the transport could not complete.
    pub fn send_failed(&self, cause: String) -> (error: Error)
        ensures
            error@ == ErrorModel::Request(cause@),
    {
        Error::Request(cause)
    }

    /// How the reply is read, now that its status is known.
    pub fn on_status(&self, status: u16) -> (reply: CaptureReply)
        ensures
            reply == self.spec_on_status(status),
            reply matches CaptureReply::Failed(failed) ==> failed.spec_status() == status,
    {
        if status < 200 || status > 299 {
            CaptureReply::Failed(FailedReply { status })
        } else if self.store {
            CaptureReply::Stored(StoredReply { sealed: () })
        } else {
            CaptureReply::Bytes(BytesReply { sealed: () })
        }
    }
}

impl FailedReply {
    /// The failed reply with this status.
    pub closed spec fn of(status: u16) -> FailedReply {
        FailedReply { status }
    }

    /// The status of the reply.
    pub closed spec fn spec_status(&self) -> u16 {
        self.status
    }

    /// The status of the reply.
    pub fn status(&self) -> (status: u16)
        ensures
            status == self.spec_status(),
    {
        self.status
    }

    /// What the reply ends in, as a model.
    pub open spec fn spec_finish(&self, decoded: Option<Seq<char>>) -> ErrorModel {
        ErrorModel::Api {
            status: self.spec_status(),
            message: failure_message(decoded, standard_phrase(self.spec_status())),
        }
    }

    /// Ends the operation with the failure that the reply stands for.
    /// `decoded` is the message that the body held, or `None` where the body
    /// could not be read as the service's error object.
    pub fn finish(self, decoded: Option<String>) -> (error: Error)
        ensures
            error@ == self.spec_finish(text_of(decoded)),
    {
        Pxshot::parse_error(self.status, decoded)
    }
}

/// What a reply that is read as a stored copy's description ends in.
pub open spec fn stored_outcome(decoded: Result<StoredScreenshot, String>) -> Result<
    ResponseModel,
    ErrorModel,
> {
    match decoded {
        Ok(kept) => Ok(ResponseModel::Stored(kept@)),
        Err(cause) => Err(
            ErrorModel::Parse("failed to parse stored screenshot response: "@ + cause@),
        ),
    }
}

/// What a reply that is read as the image ends in.
pub open spec fn bytes_outcome(read: Result<Vec<u8>, String>) -> Result<
    ResponseModel,
    ErrorModel,
> {
    match read {
        Ok(data) => Ok(ResponseModel::Bytes(data@)),
        Err(cause) => Err(ErrorModel::Request(cause@)),
    }
}

/// What a reply that is read as the usage ends in.
pub open spec fn usage_outcome(decoded: Result<Usage, String>) -> Result<Usage, ErrorModel> {
    match decoded {
        Ok(usage) => Ok(usage),
        Err(cause) => Err(ErrorModel::Parse("failed to parse usage response: "@ + cause@)),
    }
}

/// The model of a capture's result.
pub open spec fn capture_model(result: Result<ScreenshotResponse, Error>) -> Result<
    ResponseModel,
    ErrorModel,
> {
    match result {
        Ok(response) => Ok(response@),
        Err(error) => Err(error@),
    }
}

/// The model of a usage query's result.
pub open spec fn usage_model(result: Result<Usage, Error>) -> Result<Usage, ErrorModel> {
    match result {
        Ok(usage) => Ok(usage),
        Err(error) => Err(error@),
    }
}

impl StoredReply {
    /// The one value of this type.
    pub closed spec fn token() -> StoredReply {
        StoredReply { sealed: () }
    }

    /// Ends the capture. `decoded` is the description that the body held,
    /// or why the body could not be read as one.
    pub fn finish(self, decoded: Result<StoredScreenshot, String>) -> (result: Result<
        ScreenshotResponse,
        Error,
    >)
        ensures
            capture_model(result) == stored_outcome(decoded),
    {
        match decoded {
            Ok(kept) => Ok(ScreenshotResponse::Stored(kept)),
            Err(cause) => Err(
                Error::Parse(
                    String::from_str("failed to parse stored screenshot response: ").concat(
                        cause.as_str(),
                    ),
                ),
            ),
        }
    }
}

impl BytesReply {
    /// The one value of this type.
    pub closed spec fn token() -> BytesReply {
        BytesReply { sealed: () }
    }

    /// Ends the capture. `read` is the whole body, taken as it came, or
    /// why the transport could not read it.
    pub fn finish(self, read: Result<Vec<u8>, String>) -> (result: Result<
        ScreenshotResponse,
        Error,
    >)
        ensures
            capture_model(result) == bytes_outcome(read),
    {
        match read {
            Ok(data) => Ok(ScreenshotResponse::Bytes(data)),
            Err(cause) => Err(Error::Request(cause)),
        }
    }
}

/// How the reply of a capture is read depends on the reply's status and on
/// the request's `store` flag, and on nothing in the body. A failure status
/// is read as a failure whatever the flag. After a success status, a
/// request with `store` unset or false has its reply read as the image, and
/// where that reading succeeds the result is the `Bytes` shape; a request
/// with `store` true has its reply read as a stored copy's description, and
/// where that reading succeeds the result is the `Stored` shape.
pub proof fn lemma_capture_follows_store_flag(
    request: ScreenshotRequest,
    capture: Capture,
    status: u16,
    decoded: Result<StoredScreenshot, String>,
    read: Result<Vec<u8>, String>,
)
    requires
        capture.store == request.spec_wants_stored(),
    ensures
        !is_success(status) ==> capture.spec_on_status(status) == CaptureReply::Failed(
            FailedReply::of(status),
        ),
        is_success(status) && (request.store is None || request.store == Some(false))
            ==> capture.spec_on_status(status) is Bytes,
        is_success(status) && request.store == Some(true) ==> capture.spec_on_status(status)
            is Stored,
        bytes_outcome(read) matches Ok(response) ==> response is Bytes,
        stored_outcome(decoded) matches Ok(response) ==> response is Stored,
        FailedReply::of(status).spec_status() == status,
{
}

/// A usage query that was started: the call to make.
#[derive(Debug)]
pub struct UsageQuery {
    /// The call that asks the service for the usage.
    pub call: HttpCall,
}

/// How the body of a usage query's reply is to be read.
#[derive(Debug)]
pub enum UsageReply {
    /// The status tells of a failure: the body may hold the service's message.
    Failed(FailedReply),
    /// Success: the body holds the usage.
    Usage(UsageBody),
}

/// A successful reply whose body holds the usage.
#[derive(Debug)]
pub struct UsageBody {
    sealed: (),
}

impl UsageQuery {
    /// How the reply is read, for a status: as a failure when the status is
    /// outside 200 to 299, else as the usage.
    pub open spec fn spec_on_status(&self, status: u16) -> UsageReply {
        if !is_success(status) {
            UsageReply::Failed(FailedReply::of(status))
        } else {
            UsageReply::Usage(UsageBody::token())
        }
    }

    /// The failure of a call that the transport could not complete.
    pub fn send_failed(&self, cause: String) -> (error: Error)
        ensures
            error@ == ErrorModel::Request(cause@),
    {
        Error::Request(cause)
    }

    /// How the reply is read, now that its status is known.
    pub fn on_status(&self, status: u16) -> (reply: UsageReply)
        ensures
            reply == self.spec_on_status(status),
            reply matches UsageReply::Failed(failed) ==> failed.spec_status() == status,
    {
        if status < 200 || status > 299 {
            UsageReply::Failed(FailedReply { status })
        } else {
            UsageReply::Usage(UsageBody { sealed: () })
        }
    }
}

impl UsageBody {
    /// The one value of this type.
    pub closed spec fn token() -> UsageBody {
        UsageBody { sealed: () }
    }

    /// Ends the query. `decoded` is the usage that the body held, or why
    /// the body could not be read as one.
    pub fn finish(self, decoded: Result<Usage, String>) -> (result: Result<Usage, Error>)
        ensures
            usage_model(result) == usage_outcome(decoded),
    {
        match decoded {
            Ok(usage) => Ok(usage),
            Err(cause) => Err(
                Error::Parse(
                    String::from_str("failed to parse usage response: ").concat(cause.as_str()),
                ),
            ),
        }
    }
}

} // verus!
