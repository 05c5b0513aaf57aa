//! The error kinds of the service and how they surface over HTTP.

use vstd::prelude::*;

verus! {

/// Everything that can go wrong across the API and the pipeline, each kind
/// carrying its message.
#[derive(Debug, Clone)]
pub enum AppError {
    /// A failure of the persistent store.
    Database(String),
    /// An upstream vision-model failure.
    Vlm(String),
    /// A failure of the capture infrastructure.
    Stream(String),
    /// A missing entity.
    NotFound(String),
    /// A request that fails validation.
    BadRequest(String),
    /// Anything else, wrapped.
    Other(String),
}

impl AppError {
    /// The HTTP status each kind maps to: missing entities are 404, bad
    /// requests 400, upstream model failures 502, everything else 500.
    pub fn http_status(&self) -> (s: u16)
        ensures
            s == self.spec_http_status(),
    {
        match self {
            AppError::Database(_) => 500,
            AppError::Vlm(_) => 502,
            AppError::Stream(_) => 500,
            AppError::NotFound(_) => 404,
            AppError::BadRequest(_) => 400,
            AppError::Other(_) => 500,
        }
    }

    pub open spec fn spec_http_status(self) -> u16 {
        match self {
            AppError::Database(_) => 500,
            AppError::Vlm(_) => 502,
            AppError::Stream(_) => 500,
            AppError::NotFound(_) => 404,
            AppError::BadRequest(_) => 400,
            AppError::Other(_) => 500,
        }
    }

    /// The user-visible message: the kind's prefix, then the detail; the
    /// wrapped kind passes its detail through untouched.
    pub open spec fn spec_message(self) -> Seq<char> {
        match self {
            AppError::Database(m) => "Database error: "@ + m@,
            AppError::Vlm(m) => "VLM error: "@ + m@,
            AppError::Stream(m) => "Stream error: "@ + m@,
            AppError::NotFound(m) => "Not found: "@ + m@,
            AppError::BadRequest(m) => "Bad request: "@ + m@,
            AppError::Other(m) => m@,
        }
    }

    /// Renders the user-visible message.
    pub fn message(&self) -> (r: String)
        ensures
            r@ == self.spec_message(),
    {
        let (prefix, detail): (&str, &String) = match self {
            AppError::Database(m) => ("Database error: ", m),
            AppError::Vlm(m) => ("VLM error: ", m),
            AppError::Stream(m) => ("Stream error: ", m),
            AppError::NotFound(m) => ("Not found: ", m),
            AppError::BadRequest(m) => ("Bad request: ", m),
            AppError::Other(m) => ("", m),
        };
        let mut out = String::from_str(prefix);
        out.append(detail.as_str());
        proof {
            reveal_strlit("");
            assert(out@ =~= self.spec_message());
        }
        out
    }
}

} // verus!
