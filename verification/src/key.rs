use vstd::prelude::*;

verus! {

/// Public-key material as the card reports it, reduced to the plain values
/// this library reads.
///
/// Only the RSA variant carries behaviour: `v` is the public exponent and `n`
/// the modulus, each as the raw bytes delivered by the card. Elliptic-curve
/// keys are recognised as a variant of their own but not implemented, and any
/// other algorithm is rejected outright.
#[derive(Debug)]
pub enum PublicKeyMaterial {
    Rsa { v: Vec<u8>, n: Vec<u8> },
    Ec,
    Other,
}

} // verus!
