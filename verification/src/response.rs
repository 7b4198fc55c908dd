//! What the service answers: a screenshot, or the account's usage.

use vstd::prelude::*;

verus! {

/// A point in time, counted from 1970-01-01T00:00:00 UTC.
#[derive(Debug, Clone, Copy, PartialEq, Eq, Structural)]
pub struct Timestamp {
    /// Whole seconds since the epoch; negative before it.
    pub seconds: i64,
    /// Nanoseconds into that second.
    pub nanoseconds: u32,
}

/// Where the service keeps a screenshot that it was asked to store.
#[derive(Debug)]
pub struct StoredScreenshot {
    /// Address of the stored image.
    pub url: String,
    /// When the stored image is removed.
    pub expires_at: Timestamp,
    /// Width of the image in pixels.
    pub width: u32,
    /// Height of the image in pixels.
    pub height: u32,
    /// Size of the image in bytes.
    pub size_bytes: u64,
}

/// What a [`StoredScreenshot`] holds.
pub struct StoredModel {
    pub url: Seq<char>,
    pub expires_at: Timestamp,
    pub width: u32,
    pub height: u32,
    pub size_bytes: u64,
}

impl View for StoredScreenshot {
    type V = StoredModel;

    open spec fn view(&self) -> StoredModel {
        StoredModel {
            url: self.url@,
            expires_at: self.expires_at,
            width: self.width,
            height: self.height,
            size_bytes: self.size_bytes,
        }
    }
}

impl Clone for StoredScreenshot {
    fn clone(&self) -> (copy: StoredScreenshot)
        ensures
            copy == *self,
    {
        StoredScreenshot {
            url: self.url.clone(),
            expires_at: self.expires_at,
            width: self.width,
            height: self.height,
            size_bytes: self.size_bytes,
        }
    }
}

/// The account's consumption in the current billing period.
#[derive(Debug, Clone, Copy, PartialEq, Eq, Structural)]
pub struct Usage {
    /// Screenshots taken in the period.
    pub screenshots: u64,
    /// Bytes of screenshots taken in the period.
    pub bytes: u64,
    /// Start of the period.
    pub period_start: Timestamp,
    /// End of the period.
    pub period_end: Timestamp,
}

/// The result of one capture: exactly one of two shapes.
#[derive(Debug)]
pub enum ScreenshotResponse {
    /// The image itself, when the request did not ask to store it.
    Bytes(Vec<u8>),
    /// The stored copy's description, when the request asked to store it.
    Stored(StoredScreenshot),
}

/// What a [`ScreenshotResponse`] holds.
pub enum ResponseModel {
    Bytes(Seq<u8>),
    Stored(StoredModel),
}

impl View for ScreenshotResponse {
    type V = ResponseModel;

    open spec fn view(&self) -> ResponseModel {
        match *self {
            ScreenshotResponse::Bytes(data) => ResponseModel::Bytes(data@),
            ScreenshotResponse::Stored(kept) => ResponseModel::Stored(kept@),
        }
    }
}

impl ScreenshotResponse {
    /// The image, unless the response describes a stored copy.
    pub open spec fn spec_bytes(&self) -> Option<Seq<u8>> {
        match *self {
            ScreenshotResponse::Bytes(data) => Some(data@),
            ScreenshotResponse::Stored(_) => None,
        }
    }

    /// The stored copy's description, unless the response holds the image.
    pub open spec fn spec_stored(&self) -> Option<StoredScreenshot> {
        match *self {
            ScreenshotResponse::Bytes(_) => None,
            ScreenshotResponse::Stored(kept) => Some(kept),
        }
    }

    /// The image, unless the response describes a stored copy.
    pub fn bytes(&self) -> (image: Option<&[u8]>)
        ensures
            match self.spec_bytes() {
                Some(data) => image matches Some(slice) && slice@ == data,
                None => image is None,
            },
    {
        match self {
            ScreenshotResponse::Bytes(data) => Some(data.as_slice()),
            ScreenshotResponse::Stored(_) => None,
        }
    }

    /// The stored copy's description, unless the response holds the image.
    pub fn stored(&self) -> (info: Option<&StoredScreenshot>)
        ensures
            match self.spec_stored() {
                Some(kept) => info matches Some(found) && *found == kept,
                None => info is None,
            },
    {
        match self {
            ScreenshotResponse::Bytes(_) => None,
            ScreenshotResponse::Stored(kept) => Some(kept),
        }
    }

    /// Gives up the response for the image, if it holds one.
    pub fn into_bytes(self) -> (image: Option<Vec<u8>>)
        ensures
            match self {
                ScreenshotResponse::Bytes(data) => image == Some(data),
                ScreenshotResponse::Stored(_) => image is None,
            },
            image is Some <==> self.spec_bytes() is Some,
    {
        match self {
            ScreenshotResponse::Bytes(data) => Some(data),
            ScreenshotResponse::Stored(_) => None,
        }
    }

    /// Gives up the response for the stored copy's description, if it holds one.
    pub fn into_stored(self) -> (info: Option<StoredScreenshot>)
        ensures
            info == self.spec_stored(),
    {
        match self {
            ScreenshotResponse::Bytes(_) => None,
            ScreenshotResponse::Stored(kept) => Some(kept),
        }
    }
}

/// Of the two readings of a response exactly one gives something: a
/// response that holds the image gives the image and no description, and a
/// response that describes a stored copy gives the description and no image.
pub proof fn lemma_accessors_exclusive(response: ScreenshotResponse)
    ensures
        response.spec_bytes() is Some <==> response.spec_stored() is None,
        response is Bytes ==> response.spec_bytes() == Some(response->Bytes_0@)
            && response.spec_stored() is None,
        response is Stored ==> response.spec_stored() == Some(response->Stored_0)
            && response.spec_bytes() is None,
{
}

} // verus!
