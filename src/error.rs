use vstd::prelude::*;

verus! {

/// The closed set of failures that the gateway reports.
#[derive(Clone, Copy, Debug, PartialEq, Eq, Structural)]
pub enum GatewayError {
    /// Missing or malformed request parameters.
    Validation,
    /// Missing or malformed session cookies on a write.
    Authentication,
    /// Unknown identifier, unresolved receipt or unmatched route.
    NotFound,
    /// Malformed hex text for a hash or key.
    Decode,
    /// The ledger's storage or intake failed.
    Backend,
    /// Anything else.
    Unclassified,
}

/// The HTTP status that each failure is rendered with.
pub open spec fn status_of(e: GatewayError) -> u16 {
    match e {
        GatewayError::Validation => 400,
        GatewayError::Authentication => 500,
        GatewayError::NotFound => 404,
        GatewayError::Decode => 400,
        GatewayError::Backend => 500,
        GatewayError::Unclassified => 501,
    }
}

impl GatewayError {
    /// The HTTP status code of this failure.
    pub fn status_code(&self) -> (r: u16)
        ensures
            r == status_of(*self),
    {
        match self {
            GatewayError::Validation => 400,
            GatewayError::Authentication => 500,
            GatewayError::NotFound => 404,
            GatewayError::Decode => 400,
            GatewayError::Backend => 500,
            GatewayError::Unclassified => 501,
        }
    }
}

} // verus!
