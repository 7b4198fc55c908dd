//! One screenshot request, and the builder that validates it.

use vstd::prelude::*;
use vstd::string::StringExecFns;
use crate::error::Error;
use crate::format::{ImageFormat, WaitUntil};

verus! {

/// A device scale factor: a single-precision number, held as the 32 bits of
/// its IEEE 754 form. The library passes the number on and never computes
/// with it; two factors are equal when their bits are.
#[derive(Debug, Clone, Copy, PartialEq, Eq, Structural)]
pub struct ScaleFactor {
    /// The number's bits.
    pub bits: u32,
}

/// What a request, or a builder on its way to one, holds: for each field
/// either the value that was set or nothing.
pub struct RequestModel {
    pub url: Option<Seq<char>>,
    pub format: Option<ImageFormat>,
    pub quality: Option<u8>,
    pub width: Option<u32>,
    pub height: Option<u32>,
    pub full_page: Option<bool>,
    pub wait_until: Option<WaitUntil>,
    pub wait_for_selector: Option<Seq<char>>,
    pub wait_for_timeout: Option<u32>,
    pub device_scale_factor: Option<ScaleFactor>,
    pub store: Option<bool>,
    pub block_ads: Option<bool>,
}

impl RequestModel {
    /// The model in which nothing is set.
    pub open spec fn unset() -> RequestModel {
        RequestModel {
            url: None,
            format: None,
            quality: None,
            width: None,
            height: None,
            full_page: None,
            wait_until: None,
            wait_for_selector: None,
            wait_for_timeout: None,
            device_scale_factor: None,
            store: None,
            block_ads: None,
        }
    }
}

/// The characters of a text that may be absent.
pub open spec fn text_of(text: Option<String>) -> Option<Seq<char>> {
    match text {
        Some(s) => Some(s@),
        None => None,
    }
}

/// A request to capture one page. Only `url` is required; a field left at
/// `None` is not sent, so that the service applies its own default.
#[derive(Debug)]
pub struct ScreenshotRequest {
    /// Address of the page to capture.
    pub url: String,
    /// Image format.
    pub format: Option<ImageFormat>,
    /// Image quality, 1 to 100; has a meaning for JPEG and WebP only.
    pub quality: Option<u8>,
    /// Viewport width in pixels.
    pub width: Option<u32>,
    /// Viewport height in pixels.
    pub height: Option<u32>,
    /// Whether to capture the whole scrollable page.
    pub full_page: Option<bool>,
    /// The point at which the page counts as loaded.
    pub wait_until: Option<WaitUntil>,
    /// A CSS selector to wait for before the capture.
    pub wait_for_selector: Option<String>,
    /// Milliseconds to wait after the page has loaded.
    pub wait_for_timeout: Option<u32>,
    /// Device scale factor, nominally 1 to 3.
    pub device_scale_factor: Option<ScaleFactor>,
    /// Whether the service keeps the image and answers with its address.
    pub store: Option<bool>,
    /// Whether to block ads and trackers.
    pub block_ads: Option<bool>,
}

impl View for ScreenshotRequest {
    type V = RequestModel;

    open spec fn view(&self) -> RequestModel {
        RequestModel {
            url: Some(self.url@),
            format: self.format,
            quality: self.quality,
            width: self.width,
            height: self.height,
            full_page: self.full_page,
            wait_until: self.wait_until,
            wait_for_selector: text_of(self.wait_for_selector),
            wait_for_timeout: self.wait_for_timeout,
            device_scale_factor: self.device_scale_factor,
            store: self.store,
            block_ads: self.block_ads,
        }
    }
}

impl Clone for ScreenshotRequest {
    fn clone(&self) -> (copy: ScreenshotRequest)
        ensures
            copy@ == self@,
    {
        ScreenshotRequest {
            url: self.url.clone(),
            format: self.format,
            quality: self.quality,
            width: self.width,
            height: self.height,
            full_page: self.full_page,
            wait_until: self.wait_until,
            wait_for_selector: match &self.wait_for_selector {
                Some(selector) => Some(selector.clone()),
                None => None,
            },
            wait_for_timeout: self.wait_for_timeout,
            device_scale_factor: self.device_scale_factor,
            store: self.store,
            block_ads: self.block_ads,
        }
    }
}

impl ScreenshotRequest {
    /// A builder on which nothing is set yet.
    pub fn builder() -> (builder: ScreenshotRequestBuilder)
        ensures
            builder@ == RequestModel::unset(),
    {
        ScreenshotRequestBuilder::default()
    }

    /// Whether the request asks the service to keep the image: the `store`
    /// field, read as `false` where it was never set.
    pub open spec fn spec_wants_stored(&self) -> bool {
        self.store == Some(true)
    }

    /// Whether the request asks the service to keep the image: the `store`
    /// field, read as `false` where it was never set.
    pub fn wants_stored(&self) -> (stored: bool)
        ensures
            stored == self.spec_wants_stored(),
    {
        match self.store {
            Some(flag) => flag,
            None => false,
        }
    }
}

/// Collects the fields of a [`ScreenshotRequest`] one by one. No setter
/// checks its value against another field: the service judges those.
#[derive(Debug)]
pub struct ScreenshotRequestBuilder {
    url: Option<String>,
    format: Option<ImageFormat>,
    quality: Option<u8>,
    width: Option<u32>,
    height: Option<u32>,
    full_page: Option<bool>,
    wait_until: Option<WaitUntil>,
    wait_for_selector: Option<String>,
    wait_for_timeout: Option<u32>,
    device_scale_factor: Option<ScaleFactor>,
    store: Option<bool>,
    block_ads: Option<bool>,
}

impl View for ScreenshotRequestBuilder {
    type V = RequestModel;

    closed spec fn view(&self) -> RequestModel {
        RequestModel {
            url: text_of(self.url),
            format: self.format,
            quality: self.quality,
            width: self.width,
            height: self.height,
            full_page: self.full_page,
            wait_until: self.wait_until,
            wait_for_selector: text_of(self.wait_for_selector),
            wait_for_timeout: self.wait_for_timeout,
            device_scale_factor: self.device_scale_factor,
            store: self.store,
            block_ads: self.block_ads,
        }
    }
}

impl Default for ScreenshotRequestBuilder {
    fn default() -> (builder: ScreenshotRequestBuilder)
        ensures
            builder@ == RequestModel::unset(),
    {
        ScreenshotRequestBuilder {
            url: None,
            format: None,
            quality: None,
            width: None,
            height: None,
            full_page: None,
            wait_until: None,
            wait_for_selector: None,
            wait_for_timeout: None,
            device_scale_factor: None,
            store: None,
            block_ads: None,
        }
    }
}

impl ScreenshotRequestBuilder {
    /// Sets the address of the page to capture.
    pub fn url(self, url: &str) -> (next: ScreenshotRequestBuilder)
        ensures
            next@ == (RequestModel { url: Some(url@), ..self@ }),
    {
        ScreenshotRequestBuilder { url: Some(String::from_str(url)), ..self }
    }

    /// Sets the image format.
    pub fn format(self, format: ImageFormat) -> (next: ScreenshotRequestBuilder)
        ensures
            next@ == (RequestModel { format: Some(format), ..self@ }),
    {
        ScreenshotRequestBuilder { format: Some(format), ..self }
    }

    /// Sets the image quality, 1 to 100.
    pub fn quality(self, quality: u8) -> (next: ScreenshotRequestBuilder)
        ensures
            next@ == (RequestModel { quality: Some(quality), ..self@ }),
    {
        ScreenshotRequestBuilder { quality: Some(quality), ..self }
    }

    /// Sets the viewport width in pixels.
    pub fn width(self, width: u32) -> (next: ScreenshotRequestBuilder)
        ensures
            next@ == (RequestModel { width: Some(width), ..self@ }),
    {
        ScreenshotRequestBuilder { width: Some(width), ..self }
    }

    /// Sets the viewport height in pixels.
    pub fn height(self, height: u32) -> (next: ScreenshotRequestBuilder)
        ensures
            next@ == (RequestModel { height: Some(height), ..self@ }),
    {
        ScreenshotRequestBuilder { height: Some(height), ..self }
    }

    /// Sets whether the whole scrollable page is captured.
    pub fn full_page(self, full_page: bool) -> (next: ScreenshotRequestBuilder)
        ensures
            next@ == (RequestModel { full_page: Some(full_page), ..self@ }),
    {
        ScreenshotRequestBuilder { full_page: Some(full_page), ..self }
    }

    /// Sets the point at which the page counts as loaded.
    pub fn wait_until(self, wait_until: WaitUntil) -> (next: ScreenshotRequestBuilder)
        ensures
            next@ == (RequestModel { wait_until: Some(wait_until), ..self@ }),
    {
        ScreenshotRequestBuilder { wait_until: Some(wait_until), ..self }
    }

    /// Sets a CSS selector to wait for before the capture.
    pub fn wait_for_selector(self, selector: &str) -> (next: ScreenshotRequestBuilder)
        ensures
            next@ == (RequestModel { wait_for_selector: Some(selector@), ..self@ }),
    {
        ScreenshotRequestBuilder { wait_for_selector: Some(String::from_str(selector)), ..self }
    }

    /// Sets the milliseconds to wait after the page has loaded.
    pub fn wait_for_timeout(self, timeout: u32) -> (next: ScreenshotRequestBuilder)
        ensures
            next@ == (RequestModel { wait_for_timeout: Some(timeout), ..self@ }),
    {
        ScreenshotRequestBuilder { wait_for_timeout: Some(timeout), ..self }
    }

    /// Sets the device scale factor.
    pub fn device_scale_factor(self, factor: ScaleFactor) -> (next: ScreenshotRequestBuilder)
        ensures
            next@ == (RequestModel { device_scale_factor: Some(factor), ..self@ }),
    {
        ScreenshotRequestBuilder { device_scale_factor: Some(factor), ..self }
    }

    /// Sets whether the service keeps the image and answers with its address.
    pub fn store(self, store: bool) -> (next: ScreenshotRequestBuilder)
        ensures
            next@ == (RequestModel { store: Some(store), ..self@ }),
    {
        ScreenshotRequestBuilder { store: Some(store), ..self }
    }

    /// Sets whether ads and trackers are blocked.
    pub fn block_ads(self, block_ads: bool) -> (next: ScreenshotRequestBuilder)
        ensures
            next@ == (RequestModel { block_ads: Some(block_ads), ..self@ }),
    {
        ScreenshotRequestBuilder { block_ads: Some(block_ads), ..self }
    }

    /// Ends the building. A builder without a URL is refused, whatever else
    /// was set; any other builder gives the request that holds exactly what
    /// was set on it.
    pub fn build(self) -> (result: Result<ScreenshotRequest, Error>)
        ensures
            self@.url is None ==> (result matches Err(Error::MissingField(name)) && name@ == "url"@),
            self@.url is Some ==> (result matches Ok(request) && request@ == self@),
    {
        match self.url {
            None => Err(Error::MissingField("url")),
            Some(url) => Ok(
                ScreenshotRequest {
                    url,
                    format: self.format,
                    quality: self.quality,
                    width: self.width,
                    height: self.height,
                    full_page: self.full_page,
                    wait_until: self.wait_until,
                    wait_for_selector: self.wait_for_selector,
                    wait_for_timeout: self.wait_for_timeout,
                    device_scale_factor: self.device_scale_factor,
                    store: self.store,
                    block_ads: self.block_ads,
                },
            ),
        }
    }
}

} // verus!
