use vstd::prelude::*;
use vstd::string::StringExecFns;

verus! {

/// The closed set of failures that the adapter reports.
#[derive(Debug, Clone)]
pub enum HyperliquidError {
    /// The signing-key text could not be read as a secp256k1 secret key.
    InvalidPrivateKey { message: String },
    /// The task runner or the session could not be established.
    NetworkError { message: String },
    /// The venue client reported a failure during an operation.
    ApiError { message: String },
    /// A caller-supplied account address is not syntactically valid.
    InvalidInput { message: String },
}

/// The label that leads the description of each kind of failure.
pub open spec fn label_of(e: HyperliquidError) -> Seq<char> {
    match e {
        HyperliquidError::InvalidPrivateKey { .. } => "Invalid private key: "@,
        HyperliquidError::NetworkError { .. } => "Network error: "@,
        HyperliquidError::ApiError { .. } => "API error: "@,
        HyperliquidError::InvalidInput { .. } => "Invalid input: "@,
    }
}

impl HyperliquidError {
    /// The detail text carried by the failure.
    pub open spec fn message_view(&self) -> Seq<char> {
        match self {
            HyperliquidError::InvalidPrivateKey { message } => message@,
            HyperliquidError::NetworkError { message } => message@,
            HyperliquidError::ApiError { message } => message@,
            HyperliquidError::InvalidInput { message } => message@,
        }
    }

    /// The detail text carried by the failure.
    pub fn message(&self) -> (r: &String)
        ensures
            r@ == self.message_view(),
    {
        match self {
            HyperliquidError::InvalidPrivateKey { message } => message,
            HyperliquidError::NetworkError { message } => message,
            HyperliquidError::ApiError { message } => message,
            HyperliquidError::InvalidInput { message } => message,
        }
    }

    /// A human-readable description: the kind's label followed by the detail.
    pub fn describe(&self) -> (r: String)
        ensures
            r@ == label_of(*self) + self.message_view(),
    {
        let label = match self {
            HyperliquidError::InvalidPrivateKey { .. } => "Invalid private key: ",
            HyperliquidError::NetworkError { .. } => "Network error: ",
            HyperliquidError::ApiError { .. } => "API error: ",
            HyperliquidError::InvalidInput { .. } => "Invalid input: ",
        };
        String::from_str(label).concat(self.message().as_str())
    }

    /// A failure reported by the venue client, carrying its text verbatim.
    pub fn api(message: String) -> (r: HyperliquidError)
        ensures
            r == (HyperliquidError::ApiError { message }),
    {
        HyperliquidError::ApiError { message }
    }

    /// The outcome of a venue operation: a success passes through, and a
    /// failure of the client becomes an `ApiError` with the client's text.
    pub fn from_venue<T>(outcome: Result<T, String>) -> (r: Result<T, HyperliquidError>)
        ensures
            match outcome {
                Ok(v) => r == Ok::<T, HyperliquidError>(v),
                Err(m) => r == Err::<T, HyperliquidError>(HyperliquidError::ApiError { message: m }),
            },
    {
        match outcome {
            Ok(v) => Ok(v),
            Err(m) => Err(HyperliquidError::api(m)),
        }
    }

    /// The outcome of establishing a read-only session: a session passes
    /// through, and a failure becomes a `NetworkError` with the client's text.
    pub fn from_session_setup<T>(outcome: Result<T, String>) -> (r: Result<T, HyperliquidError>)
        ensures
            match outcome {
                Ok(v) => r == Ok::<T, HyperliquidError>(v),
                Err(m) => r == Err::<T, HyperliquidError>(
                    HyperliquidError::NetworkError { message: m },
                ),
            },
    {
        match outcome {
            Ok(v) => Ok(v),
            Err(message) => Err(HyperliquidError::NetworkError { message }),
        }
    }
}

} // verus!
