use vstd::prelude::*;

verus! {

/// Every failure the library or the surrounding host boundary can report.
///
/// Variants that originate in the card transport or the card protocol carry
/// the underlying message verbatim; validation failures carry what was
/// rejected, so the host can build a descriptive message.
#[derive(Debug)]
pub enum SmartcardError {
    /// The card named at open time is absent or its transport cannot be claimed.
    CardConnection(String),
    /// The transport subsystem itself could not be queried during discovery.
    Discovery(String),
    /// The card rejected a protocol request.
    CardProtocol(String),
    /// The card reported key material of an algorithm other than RSA.
    UnsupportedKeyType,
    /// The hash-algorithm label is not in the supported set; carries the label.
    UnsupportedHash(String),
    /// The digest buffer does not match the algorithm's digest size.
    InvalidInputLength { expected: usize, actual: usize },
    /// The card refused or failed the signing operation; carries its message.
    Signing(String),
}

/// The human-readable message each failure carries to the host boundary.
/// Transport and protocol failures pass their underlying message through
/// verbatim; validation failures describe what was rejected.
pub open spec fn spec_message(e: SmartcardError) -> Seq<char> {
    match e {
        SmartcardError::CardConnection(m) => m@,
        SmartcardError::Discovery(m) => m@,
        SmartcardError::CardProtocol(m) => m@,
        SmartcardError::UnsupportedKeyType => "Unknown key type"@,
        SmartcardError::UnsupportedHash(l) => "Invalid hash type "@ + l@,
        SmartcardError::InvalidInputLength { expected: _, actual: _ } => (
        "Invalid data len for hash type sha256"@),
        SmartcardError::Signing(m) => "Failed to sign data: "@ + m@,
    }
}

impl SmartcardError {
    /// Renders the failure as the message string the host receives.
    pub fn message(&self) -> (r: String)
        ensures
            r@ == spec_message(*self),
    {
        match self {
            SmartcardError::CardConnection(m) => m.clone(),
            SmartcardError::Discovery(m) => m.clone(),
            SmartcardError::CardProtocol(m) => m.clone(),
            SmartcardError::UnsupportedKeyType => String::from_str("Unknown key type"),
            SmartcardError::UnsupportedHash(l) => {
                let mut s = String::from_str("Invalid hash type ");
                s.append(l.as_str());
                s
            },
            SmartcardError::InvalidInputLength { expected: _, actual: _ } => String::from_str(
                "Invalid data len for hash type sha256",
            ),
            SmartcardError::Signing(m) => {
                let mut s = String::from_str("Failed to sign data: ");
                s.append(m.as_str());
                s
            },
        }
    }
}

} // verus!
