use vstd::prelude::*;

use crate::be32::{push_u32_be, u32_be_bytes};
use crate::error::SmartcardError;
use crate::key::PublicKeyMaterial;

verus! {

/// The bytes of the literal key-type tag `"ssh-rsa"`.
pub open spec fn ssh_rsa_tag_bytes() -> Seq<u8> {
    seq![115u8, 115u8, 104u8, 45u8, 114u8, 115u8, 97u8]
}

/// A field of the SSH wire format: a four-byte big-endian length, then the
/// field's raw bytes.
pub open spec fn length_prefixed(f: Seq<u8>) -> Seq<u8> {
    u32_be_bytes(f.len() as u32) + f
}

/// The SSH public-key blob for an RSA key: the tag `"ssh-rsa"`, the exponent
/// bytes `v`, then the modulus bytes `n`, each as a length-prefixed field.
pub open spec fn ssh_rsa_blob(v: Seq<u8>, n: Seq<u8>) -> Seq<u8> {
    length_prefixed(ssh_rsa_tag_bytes()) + length_prefixed(v) + length_prefixed(n)
}

/// The base64 text that `base64::encode` produces for the given bytes.
pub uninterp spec fn base64_of(bytes: Seq<u8>) -> Seq<char>;

/// The one-line SSH public-key form: the tag, one space, and the
/// base64-encoded blob.
pub open spec fn ssh_rsa_line(v: Seq<u8>, n: Seq<u8>) -> Seq<char> {
    "ssh-rsa "@ + base64_of(ssh_rsa_blob(v, n))
}

/// Relies on base64::encode: standard-alphabet base64 text, a function of the
/// input bytes alone.
#[verifier::external_body]
fn base64_encode(bytes: &Vec<u8>) -> (r: String)
    ensures
        r@ == base64_of(bytes@),
{
    base64::encode(bytes)
}

/// Relies on base64::decode: with the standard alphabet it inverts
/// base64::encode, and rejects text that is not valid base64.
#[verifier::external_body]
pub(crate) fn base64_decode(text: &str) -> (r: Option<Vec<u8>>)
    ensures
        r is None ==> forall|d: Seq<u8>| text@ != base64_of(d),
        r matches Some(b) ==> forall|d: Seq<u8>| text@ == base64_of(d) ==> b@ == d,
{
    match base64::decode(text) {
        Ok(b) => Some(b),
        Err(_) => None,
    }
}

/// Appends every byte of `src` to `out`.
fn push_bytes(out: &mut Vec<u8>, src: &Vec<u8>)
    ensures
        final(out)@ == old(out)@ + src@,
{
    let mut i: usize = 0;
    while i < src.len()
        invariant
            i <= src@.len(),
            out@ == old(out)@ + src@.subrange(0, i as int),
        decreases src@.len() - i,
    {
        out.push(src[i]);
        proof {
            assert(old(out)@ + src@.subrange(0, i as int + 1) =~= (old(out)@ + src@.subrange(
                0,
                i as int,
            )).push(src@[i as int]));
        }
        i = i + 1;
    }
    proof {
        assert(out@ =~= old(out)@ + src@);
    }
}

/// Builds the SSH public-key blob for an RSA key with exponent bytes `v` and
/// modulus bytes `n`.
pub fn build_ssh_rsa_blob(v: &Vec<u8>, n: &Vec<u8>) -> (r: Vec<u8>)
    requires
        v@.len() <= u32::MAX,
        n@.len() <= u32::MAX,
    ensures
        r@ == ssh_rsa_blob(v@, n@),
{
    let mut tag: Vec<u8> = Vec::new();
    tag.push(115);
    tag.push(115);
    tag.push(104);
    tag.push(45);
    tag.push(114);
    tag.push(115);
    tag.push(97);
    proof {
        assert(tag@ =~= ssh_rsa_tag_bytes());
    }
    let mut data: Vec<u8> = Vec::new();
    push_u32_be(&mut data, 7);
    push_bytes(&mut data, &tag);
    push_u32_be(&mut data, v.len() as u32);
    push_bytes(&mut data, v);
    push_u32_be(&mut data, n.len() as u32);
    push_bytes(&mut data, n);
    proof {
        assert(data@ =~= ssh_rsa_blob(v@, n@));
    }
    data
}

/// Encodes the public-key material the card reported into the one-line SSH
/// form `ssh-rsa <base64>`. Only RSA material is supported: any other
/// algorithm fails with `UnsupportedKeyType` and produces nothing.
pub fn pubkey_to_ssh(key: &PublicKeyMaterial) -> (r: Result<String, SmartcardError>)
    requires
        key matches PublicKeyMaterial::Rsa { v, n } ==> v@.len() <= u32::MAX && n@.len()
            <= u32::MAX,
    ensures
        match key {
            PublicKeyMaterial::Rsa { v, n } => r matches Ok(s) && s@ == ssh_rsa_line(v@, n@),
            PublicKeyMaterial::Ec => r matches Err(e) && e is UnsupportedKeyType,
            PublicKeyMaterial::Other => r matches Err(e) && e is UnsupportedKeyType,
        },
{
    match key {
        PublicKeyMaterial::Rsa { v, n } => {
            let blob = build_ssh_rsa_blob(v, n);
            let b64 = base64_encode(&blob);
            let mut line = String::from_str("ssh-rsa ");
            line.append(b64.as_str());
            Ok(line)
        },
        PublicKeyMaterial::Ec => Err(SmartcardError::UnsupportedKeyType),
        PublicKeyMaterial::Other => Err(SmartcardError::UnsupportedKeyType),
    }
}

} // verus!
