//! Core of a small personal-site content server: resolving post ids, assets
//! and QR info pages to rendered responses, and rewriting plaintext requests
//! to their HTTPS equivalents. File and network I/O stay outside; this crate
//! works on the values read and proves what each response contains.
use vstd::prelude::*;

pub mod text;
pub mod dates;
pub mod markdown;
pub mod metadata;
pub mod pages;
pub mod posts;
pub mod assets;
pub mod qr;
pub mod redirect;

verus! {

/// Listener configuration: the plaintext port and the TLS port.
#[derive(Clone, Copy, Debug, PartialEq, Eq, Structural)]
pub struct Args {
    pub http_port: u16,
    pub https_port: u16,
}

impl Default for Args {
    /// The stock ports: 8080 for plaintext, 4343 for TLS.
    fn default() -> (r: Self)
        ensures
            r.http_port == 8080,
            r.https_port == 4343,
    {
        Args { http_port: 8080, https_port: 4343 }
    }
}

/// Model of a per-request failure, for contracts.
pub enum ErrModel {
    BadRequest(Seq<char>),
    NotFound,
    ConversionError,
}

/// A per-request failure, mapped by the serving layer to an HTTP status and a
/// short human-readable reason. It never carries internal paths or traces.
#[derive(Clone, Debug, PartialEq, Eq)]
pub enum ServeError {
    /// Malformed or missing input or resource; served as status 400.
    BadRequest(String),
    /// Resource absent where no fallback applies; served as status 404.
    NotFound,
    /// The rewritten redirect target is not a valid authority; status 400.
    ConversionError,
}

impl View for ServeError {
    type V = ErrModel;

    open spec fn view(&self) -> ErrModel {
        match self {
            ServeError::BadRequest(m) => ErrModel::BadRequest(m@),
            ServeError::NotFound => ErrModel::NotFound,
            ServeError::ConversionError => ErrModel::ConversionError,
        }
    }
}

/// The HTTP status that a failure is served with.
pub open spec fn spec_status(e: ErrModel) -> u16 {
    match e {
        ErrModel::BadRequest(_) => 400,
        ErrModel::NotFound => 404,
        ErrModel::ConversionError => 400,
    }
}

/// The reason text that a failure is served with.
pub open spec fn spec_reason(e: ErrModel) -> Seq<char> {
    match e {
        ErrModel::BadRequest(m) => m,
        ErrModel::NotFound => "Not Found"@,
        ErrModel::ConversionError => "failed to convert URI to HTTPS"@,
    }
}

/// Law: a per-request failure is always served as a client error: its
/// status lies in the 4xx range, so no failure can pose as success or bring
/// the listener down as a server error would suggest.
pub proof fn lemma_errors_are_client_errors(e: ErrModel)
    ensures
        400 <= spec_status(e) <= 499,
{
}

impl ServeError {
    pub fn status_code(&self) -> (r: u16)
        ensures
            r == spec_status(self@),
    {
        match self {
            ServeError::BadRequest(_) => 400,
            ServeError::NotFound => 404,
            ServeError::ConversionError => 400,
        }
    }

    pub fn reason(&self) -> (r: &str)
        ensures
            r@ == spec_reason(self@),
    {
        match self {
            ServeError::BadRequest(m) => m.as_str(),
            ServeError::NotFound => "Not Found",
            ServeError::ConversionError => "failed to convert URI to HTTPS",
        }
    }
}

} // verus!
