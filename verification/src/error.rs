//! Error types of the framework.
use vstd::prelude::*;

verus! {

/// Error types for fastrust operations.
#[derive(Debug, Clone)]
pub enum Error {
    /// Invalid route configuration (e.g., overlapping routes).
    RouteError(String),
    /// Invalid server configuration (e.g., invalid host/port).
    ServerError(String),
    /// Failed to parse socket address.
    AddressError(String),
    /// Failed to bind to the socket address.
    BindError(String),
    /// OpenAPI specification generation failed.
    OpenApiError(String),
    /// Internal error.
    Internal(String),
}

/// The message of an error: its kind followed by its detail.
pub open spec fn error_message(e: Error) -> Seq<char> {
    match e {
        Error::RouteError(m) => "Route error: "@ + m@,
        Error::ServerError(m) => "Server error: "@ + m@,
        Error::AddressError(m) => "Address error: "@ + m@,
        Error::BindError(m) => "Bind error: "@ + m@,
        Error::OpenApiError(m) => "OpenAPI error: "@ + m@,
        Error::Internal(m) => "Internal error: "@ + m@,
    }
}

impl Error {
    /// The message of the error, such as `Route error: <detail>`.
    pub fn message(&self) -> (r: String)
        ensures
            r@ == error_message(*self),
    {
        let (kind, detail) = match self {
            Error::RouteError(m) => ("Route error: ", m),
            Error::ServerError(m) => ("Server error: ", m),
            Error::AddressError(m) => ("Address error: ", m),
            Error::BindError(m) => ("Bind error: ", m),
            Error::OpenApiError(m) => ("OpenAPI error: ", m),
            Error::Internal(m) => ("Internal error: ", m),
        };
        let mut text = String::new();
        text.append(kind);
        text.append(detail.as_str());
        text
    }
}

/// Result type for fastrust operations.
pub type Result<T> = std::result::Result<T, Error>;

} // verus!
