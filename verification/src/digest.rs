use vstd::prelude::*;

use crate::error::SmartcardError;

verus! {

/// The digest size of SHA-256, in bytes.
pub const SHA256_DIGEST_LEN: usize = 32;

/// A digest the card can sign, tagged by its hash algorithm. Only SHA-256 is
/// supported; its payload is exactly 32 bytes when well formed.
#[derive(Debug)]
pub enum HashInput {
    Sha256(Vec<u8>),
}

/// A `HashInput` whose payload has the digest size its algorithm demands.
pub open spec fn hash_input_well_formed(h: HashInput) -> bool {
    match h {
        HashInput::Sha256(d) => d@.len() == 32,
    }
}

/// Validates a host-supplied hash-algorithm label and digest buffer before
/// any card interaction. The label must name a supported algorithm (only
/// `"sha256"`) and the buffer must have exactly that algorithm's digest size;
/// each check that fails says so, and nothing reaches the card.
pub fn validate_signature_request(label: &str, digest: &Vec<u8>) -> (r: Result<
    HashInput,
    SmartcardError,
>)
    ensures
        r is Ok <==> (label@ == "sha256"@ && digest@.len() == 32),
        r matches Ok(h) ==> h matches HashInput::Sha256(d) && d@ == digest@,
        r matches Ok(h) ==> hash_input_well_formed(h),
        label@ == "sha256"@ && digest@.len() != 32 ==> (r matches Err(e) && (e matches SmartcardError::InvalidInputLength { expected, actual } && expected == 32 && actual
            == digest@.len())),
        label@ != "sha256"@ ==> (r matches Err(e) && (e matches SmartcardError::UnsupportedHash(l)
            && l@ == label@)),
{
    let given = String::from_str(label);
    let supported = String::from_str("sha256");
    if given == supported {
        if digest.len() == SHA256_DIGEST_LEN {
            let mut copy: Vec<u8> = Vec::new();
            let mut i: usize = 0;
            while i < digest.len()
                invariant
                    i <= digest@.len(),
                    copy@ == digest@.subrange(0, i as int),
                decreases digest@.len() - i,
            {
                copy.push(digest[i]);
                proof {
                    assert(digest@.subrange(0, i as int + 1) =~= digest@.subrange(
                        0,
                        i as int,
                    ).push(digest@[i as int]));
                }
                i = i + 1;
            }
            proof {
                assert(copy@ =~= digest@);
            }
            Ok(HashInput::Sha256(copy))
        } else {
            Err(SmartcardError::InvalidInputLength { expected: SHA256_DIGEST_LEN, actual: digest.len() })
        }
    } else {
        Err(SmartcardError::UnsupportedHash(given))
    }
}

} // verus!
