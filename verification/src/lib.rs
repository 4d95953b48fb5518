mod be32;
mod digest;
mod error;
mod key;
mod parse;
mod ssh;

pub use digest::{validate_signature_request, HashInput, SHA256_DIGEST_LEN};
pub use error::SmartcardError;
pub use key::PublicKeyMaterial;
pub use parse::{decode_ssh_rsa_body, parse_ssh_fields};
pub use ssh::{build_ssh_rsa_blob, pubkey_to_ssh};
