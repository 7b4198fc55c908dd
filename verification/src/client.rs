//! The client: what it is configured with, and the calls that stand for
//! its two operations.
//!
//! The client performs no I/O. An operation starts with a value that holds
//! the call to make ([`Capture`], [`UsageQuery`]); what follows the call is
//! in [`crate::exchange`].

use vstd::prelude::*;
use vstd::string::StringExecFns;
use crate::error::{Error, ErrorModel};
use crate::http::{
    canonical_reason, header_value_accepts, is_header_char, is_header_text, is_status_code,
    reason_phrase,
};
use crate::request::{text_of, ScreenshotRequest};
use crate::exchange::{Capture, UsageQuery};
use crate::text::{lemma_without_trailing_slashes, trim_trailing_slashes, without_trailing_slashes};
use crate::wire::{payload_of, PayloadModel, WireField};

verus! {

/// The HTTP method of a call.
#[derive(Debug, Clone, Copy, PartialEq, Eq, Structural)]
pub enum Method {
    Get,
    Post,
}

/// One HTTP call, ready for a transport to make.
#[derive(Debug)]
pub struct HttpCall {
    /// The method.
    pub method: Method,
    /// The full address.
    pub url: String,
    /// The value of the `Authorization` header.
    pub authorization: String,
    /// The value of the `Content-Type` header, for a call with a body.
    pub content_type: Option<&'static str>,
    /// The body, sent as one JSON object with these entries.
    pub body: Option<Vec<WireField>>,
}

/// What an [`HttpCall`] holds.
pub struct CallModel {
    pub method: Method,
    pub url: Seq<char>,
    pub authorization: Seq<char>,
    pub content_type: Option<Seq<char>>,
    pub body: Option<PayloadModel>,
}

impl View for HttpCall {
    type V = CallModel;

    open spec fn view(&self) -> CallModel {
        CallModel {
            method: self.method,
            url: self.url@,
            authorization: self.authorization@,
            content_type: match self.content_type {
                Some(kind) => Some(kind@),
                None => None,
            },
            body: match self.body {
                Some(fields) => Some(payload_of(fields@)),
                None => None,
            },
        }
    }
}

/// Whether a status tells of success: 200 to 299.
pub open spec fn is_success(status: u16) -> bool {
    200 <= status <= 299
}

/// The value of the `Authorization` header for an API key.
pub open spec fn bearer(api_key: Seq<char>) -> Seq<char> {
    "Bearer "@ + api_key
}

/// The message of an API failure: the service's own where the body held
/// one, else the status's standard phrase, else a fixed text.
pub open spec fn failure_message(decoded: Option<Seq<char>>, phrase: Option<Seq<char>>) -> Seq<
    char,
> {
    match decoded {
        Some(message) => message,
        None => match phrase {
            Some(standard) => standard,
            None => "Unknown error"@,
        },
    }
}

/// The standard phrase of a status; none for a number that is no status code.
pub open spec fn standard_phrase(status: u16) -> Option<Seq<char>> {
    if is_status_code(status) {
        canonical_reason(status)
    } else {
        None
    }
}

/// A client of the screenshot service: the address of the service and the
/// credential. Neither changes after construction.
#[derive(Debug)]
pub struct Pxshot {
    base_url: String,
    authorization: String,
}

impl Clone for Pxshot {
    fn clone(&self) -> (copy: Pxshot)
        ensures
            copy.spec_base_url() == self.spec_base_url(),
            copy.spec_authorization() == self.spec_authorization(),
    {
        proof {
            use_type_invariant(self);
        }
        Pxshot { base_url: self.base_url.clone(), authorization: self.authorization.clone() }
    }
}

/// Whether a text is empty or ends in something else than a slash.
pub open spec fn is_trimmed(text: Seq<char>) -> bool {
    text.len() > 0 ==> text.last() != '/'
}

/// An API key can travel in the `Authorization` header exactly when each of
/// its characters can travel in a header.
pub proof fn lemma_bearer_is_header_text(api_key: Seq<char>)
    ensures
        is_header_text(bearer(api_key)) <==> is_header_text(api_key),
{
    reveal_strlit("Bearer ");
    let value = bearer(api_key);
    if is_header_text(value) {
        assert forall|i: int| 0 <= i < api_key.len() implies is_header_char(
            #[trigger] api_key[i],
        ) by {
            assert(value[i + 7] == api_key[i]);
        }
    }
    if is_header_text(api_key) {
        assert forall|i: int| 0 <= i < value.len() implies is_header_char(#[trigger] value[i]) by {
            if i >= 7 {
                assert(value[i] == api_key[i - 7]);
            }
        }
    }
}

impl Pxshot {
    /// What holds of every client: its credential can travel in a header,
    /// and its address does not end in a slash.
    #[verifier::type_invariant]
    closed spec fn well_formed(&self) -> bool {
        is_header_text(self.authorization@) && is_trimmed(self.base_url@)
    }

    /// The address of the service, without a slash at its end.
    pub closed spec fn spec_base_url(&self) -> Seq<char> {
        self.base_url@
    }

    /// The value that the client sends as the `Authorization` header.
    pub closed spec fn spec_authorization(&self) -> Seq<char> {
        self.authorization@
    }

    /// The address of the service that a client uses unless told another.
    pub open spec fn default_base_url() -> Seq<char> {
        "https://api.pxshot.com"@
    }

    /// Whether a client can be made with this API key: whether the key can
    /// travel in a header.
    pub fn accepts_api_key(api_key: &str) -> (accepted: bool)
        ensures
            accepted == is_header_text(bearer(api_key@)),
    {
        let value = String::from_str("Bearer ").concat(api_key);
        header_value_accepts(value.as_str())
    }

    /// A client of the service at its usual address.
    pub fn new(api_key: &str) -> (client: Pxshot)
        requires
            is_header_text(bearer(api_key@)),
        ensures
            client.spec_base_url() == Self::default_base_url(),
            client.spec_authorization() == bearer(api_key@),
    {
        proof {
            reveal_strlit("https://api.pxshot.com");
        }
        Self::with_base_url(api_key, "https://api.pxshot.com")
    }

    /// A client of the service at another address, for a test or a
    /// deployment of one's own. Slashes at the end of the address are dropped.
    pub fn with_base_url(api_key: &str, base_url: &str) -> (client: Pxshot)
        requires
            is_header_text(bearer(api_key@)),
        ensures
            client.spec_base_url() == without_trailing_slashes(base_url@),
            client.spec_authorization() == bearer(api_key@),
    {
        proof {
            lemma_without_trailing_slashes(base_url@);
        }
        Pxshot {
            base_url: trim_trailing_slashes(base_url),
            authorization: String::from_str("Bearer ").concat(api_key),
        }
    }

    /// The address of the service, without a slash at its end.
    pub fn base_url(&self) -> (address: &str)
        ensures
            address@ == self.spec_base_url(),
            is_trimmed(address@),
    {
        proof {
            use_type_invariant(self);
        }
        self.base_url.as_str()
    }

    /// The value that the client sends as the `Authorization` header.
    pub fn authorization(&self) -> (value: &str)
        ensures
            value@ == self.spec_authorization(),
            is_header_text(value@),
    {
        proof {
            use_type_invariant(self);
        }
        self.authorization.as_str()
    }

    /// Starts a capture: the call that asks for it, and the request's
    /// `store` flag, by which the reply will be read. The flag is taken from
    /// the request here, before anything is sent.
    pub fn screenshot(&self, request: ScreenshotRequest) -> (capture: Capture)
        ensures
            capture.store == request.spec_wants_stored(),
            capture.call@ == (CallModel {
                method: Method::Post,
                url: self.spec_base_url() + "/v1/screenshot"@,
                authorization: self.spec_authorization(),
                content_type: Some("application/json"@),
                body: Some(request@.payload()),
            }),
            is_header_text(capture.call.authorization@),
    {
        proof {
            use_type_invariant(self);
        }
        let store = request.wants_stored();
        let call = HttpCall {
            method: Method::Post,
            url: self.base_url.clone().concat("/v1/screenshot"),
            authorization: self.authorization.clone(),
            content_type: Some("application/json"),
            body: Some(request.payload()),
        };
        Capture { call, store }
    }

    /// Starts a usage query: the call that asks for it.
    pub fn usage(&self) -> (query: UsageQuery)
        ensures
            query.call@ == (CallModel {
                method: Method::Get,
                url: self.spec_base_url() + "/v1/usage"@,
                authorization: self.spec_authorization(),
                content_type: None,
                body: None,
            }),
            is_header_text(query.call.authorization@),
    {
        proof {
            use_type_invariant(self);
        }
        let call = HttpCall {
            method: Method::Get,
            url: self.base_url.clone().concat("/v1/usage"),
            authorization: self.authorization.clone(),
            content_type: None,
            body: None,
        };
        UsageQuery { call }
    }

    /// The failure that a reply with a status outside 200 to 299 stands
    /// for. `decoded` is the message that the body held, where the body
    /// could be read as the service's error object. Where it could not, the
    /// message is the status's standard phrase, and why the body could not
    /// be read is not reported.
    pub fn parse_error(status: u16, decoded: Option<String>) -> (error: Error)
        ensures
            error@ == (ErrorModel::Api {
                status,
                message: failure_message(text_of(decoded), standard_phrase(status)),
            }),
    {
        match decoded {
            Some(message) => Error::Api { status, message },
            None => {
                let phrase = if 100 <= status && status <= 999 {
                    reason_phrase(status)
                } else {
                    None
                };
                Error::Api { status, message: api_failure_message(None, phrase) }
            },
        }
    }
}

/// The message of an API failure: the service's own where the body held
/// one, else the status's standard phrase, else a fixed text.
pub fn api_failure_message(decoded: Option<String>, phrase: Option<String>) -> (message: String)
    ensures
        message@ == failure_message(text_of(decoded), text_of(phrase)),
{
    match decoded {
        Some(message) => message,
        None => match phrase {
            Some(standard) => standard,
            None => String::from_str("Unknown error"),
        },
    }
}

} // verus!
