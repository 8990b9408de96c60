//! The messages that travel through the bridge: inbound fetch requests,
//! outbound fetch responses, the plan a request is classified into, and the
//! outcome a background unit of work reports back.

use vstd::prelude::*;

verus! {

/// An inbound request, published by host code on any thread.
#[derive(Debug, Clone, PartialEq, Eq)]
pub enum FetchRequest {
    /// Fetch the body of `url` as text with an HTTP GET.
    GetString(String),
    /// Send the body verbatim to `url` with an HTTP POST
    /// (`Content-Type: application/json`) and fetch the response text.
    PostString(String, String),
    /// Fetch the body of `url` with an HTTP GET and decode it as a JPEG image.
    GetImage(String),
}

/// Why a request could not produce a payload.
#[derive(Debug, Clone, PartialEq, Eq)]
pub enum FetchError {
    /// The transport failed before any HTTP response arrived.
    Transport(String),
    /// An image fetch saw a non-success HTTP status; the code is carried here.
    Status(u16),
    /// The fetched bytes were not a valid JPEG image.
    Decode,
}

/// A decoded bitmap: tightly packed RGBA rows, four bytes per pixel.
#[derive(Debug, Clone, PartialEq, Eq)]
pub struct DecodedImage {
    pub width: u32,
    pub height: u32,
    pub pixels: Vec<u8>,
}

impl DecodedImage {
    /// The pixel buffer holds exactly four bytes for each of the
    /// `width * height` pixels.
    pub open spec fn wf(&self) -> bool {
        self.pixels@.len() == 4 * (self.width as nat) * (self.height as nat)
    }
}

/// An outbound response, published on the owner thread; exactly one is
/// produced for each request that was dispatched.
#[derive(Debug, Clone, PartialEq, Eq)]
pub enum FetchResponse {
    /// The response body of a text fetch, verbatim.
    Str(String),
    /// The decoded bitmap of an image fetch.
    Image(DecodedImage),
    /// The request's background work failed; no payload exists.
    Failed(FetchError),
}

/// What one background unit of work has to do, read off a request by the
/// dispatch tick.
#[derive(Debug, Clone, PartialEq, Eq)]
pub enum FetchPlan {
    /// GET the url and report the body as text.
    GetText(String),
    /// POST the body to the url and report the response body as text.
    PostText(String, String),
    /// GET the url and report the HTTP status and the raw body bytes.
    GetBytes(String),
}

/// What a background unit of work reports back after performing its plan.
#[derive(Debug, Clone, PartialEq, Eq)]
pub enum FetchOutcome {
    /// A text fetch completed; the body text, whatever the HTTP status was.
    Text(String),
    /// A byte fetch completed with this HTTP status and body.
    Bytes(u16, Vec<u8>),
    /// The transport failed; the diagnostic message.
    Transport(String),
}

} // verus!
