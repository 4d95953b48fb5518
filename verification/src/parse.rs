use vstd::prelude::*;

use crate::be32::{lemma_u32_be_round_trip, read_u32_be, u32_be_bytes, u32_from_be};
use crate::ssh::{base64_decode, base64_of, ssh_rsa_blob, ssh_rsa_tag_bytes};

verus! {

/// The length-prefixed field starting at offset `i` of `data`: its raw bytes
/// and the offset just after it. `None` when the length prefix or the field
/// itself would run past the end of `data`.
pub open spec fn field_at(data: Seq<u8>, i: int) -> Option<(Seq<u8>, int)> {
    if 0 <= i && i + 4 <= data.len() {
        let flen = u32_from_be(data[i], data[i + 1], data[i + 2], data[i + 3]) as int;
        if i + 4 + flen <= data.len() {
            Some((data.subrange(i + 4, i + 4 + flen), i + 4 + flen))
        } else {
            None
        }
    } else {
        None
    }
}

/// The three length-prefixed fields of an SSH RSA public-key blob, in order,
/// provided they fill `data` exactly.
pub open spec fn parse_ssh_blob(data: Seq<u8>) -> Option<(Seq<u8>, Seq<u8>, Seq<u8>)> {
    match field_at(data, 0) {
        Some(p0) => match field_at(data, p0.1) {
            Some(p1) => match field_at(data, p1.1) {
                Some(p2) => if p2.1 == data.len() {
                    Some((p0.0, p1.0, p2.0))
                } else {
                    None
                },
                None => None,
            },
            None => None,
        },
        None => None,
    }
}

proof fn lemma_field_at(data: Seq<u8>, i: int, f: Seq<u8>)
    requires
        0 <= i,
        f.len() <= u32::MAX,
        i + 4 + f.len() <= data.len(),
        data.subrange(i, i + 4) == u32_be_bytes(f.len() as u32),
        data.subrange(i + 4, i + 4 + f.len()) == f,
    ensures
        field_at(data, i) == Some((f, i + 4 + f.len() as int)),
{
    lemma_u32_be_round_trip(f.len() as u32);
    assert(data[i] == data.subrange(i, i + 4)[0]);
    assert(data[i + 1] == data.subrange(i, i + 4)[1]);
    assert(data[i + 2] == data.subrange(i, i + 4)[2]);
    assert(data[i + 3] == data.subrange(i, i + 4)[3]);
    assert(u32_from_be(data[i], data[i + 1], data[i + 2], data[i + 3]) == f.len() as u32);
}

/// The round-trip law of the SSH RSA blob: parsing the blob built from
/// exponent bytes `v` and modulus bytes `n` recovers exactly the tag
/// `"ssh-rsa"`, then `v`, then `n`, in that order.
pub proof fn lemma_ssh_blob_round_trip(v: Seq<u8>, n: Seq<u8>)
    requires
        v.len() <= u32::MAX,
        n.len() <= u32::MAX,
    ensures
        parse_ssh_blob(ssh_rsa_blob(v, n)) == Some((ssh_rsa_tag_bytes(), v, n)),
{
    let tag = ssh_rsa_tag_bytes();
    let data = ssh_rsa_blob(v, n);
    assert(tag.len() == 7);
    assert(data.len() == 19 + v.len() + n.len());
    let o1: int = 11;
    let o2: int = 15 + v.len() as int;
    let o3: int = 19 + v.len() as int + n.len() as int;
    assert(data.subrange(0, 4) =~= u32_be_bytes(tag.len() as u32));
    assert(data.subrange(4, 11) =~= tag);
    lemma_field_at(data, 0, tag);
    assert(data.subrange(o1, o1 + 4) =~= u32_be_bytes(v.len() as u32));
    assert(data.subrange(o1 + 4, o1 + 4 + v.len()) =~= v);
    lemma_field_at(data, o1, v);
    assert(data.subrange(o2, o2 + 4) =~= u32_be_bytes(n.len() as u32));
    assert(data.subrange(o2 + 4, o2 + 4 + n.len()) =~= n);
    lemma_field_at(data, o2, n);
    assert(field_at(data, 0) == Some((tag, o1)));
    assert(field_at(data, o1) == Some((v, o2)));
    assert(field_at(data, o2) == Some((n, o3)));
    assert(o3 == data.len());
}

/// Copies the bytes of `data` between `start` and `end` into a fresh vector.
fn copy_range(data: &Vec<u8>, start: usize, end: usize) -> (r: Vec<u8>)
    requires
        start <= end,
        end <= data@.len(),
    ensures
        r@ == data@.subrange(start as int, end as int),
{
    let mut out: Vec<u8> = Vec::new();
    let mut i: usize = start;
    while i < end
        invariant
            start <= i <= end,
            end <= data@.len(),
            out@ == data@.subrange(start as int, i as int),
        decreases end - i,
    {
        out.push(data[i]);
        proof {
            assert(data@.subrange(start as int, i as int + 1) =~= data@.subrange(
                start as int,
                i as int,
            ).push(data@[i as int]));
        }
        i = i + 1;
    }
    out
}

/// Reads the length-prefixed field starting at offset `i` of `data`.
fn read_field(data: &Vec<u8>, i: usize) -> (r: Option<(Vec<u8>, usize)>)
    ensures
        match field_at(data@, i as int) {
            Some(p) => r matches Some(q) && q.0@ == p.0 && q.1 == p.1,
            None => r is None,
        },
{
    let len = data.len();
    if i > len || len - i < 4 {
        return None;
    }
    let flen = read_u32_be(data, i) as usize;
    let avail = len - (i + 4);
    if flen > avail {
        return None;
    }
    let field = copy_range(data, i + 4, i + 4 + flen);
    Some((field, i + 4 + flen))
}

/// Splits an SSH RSA public-key blob into its three length-prefixed fields:
/// the key-type tag, the exponent bytes and the modulus bytes. `None` when
/// the blob is not exactly three well-formed fields.
pub fn parse_ssh_fields(data: &Vec<u8>) -> (r: Option<(Vec<u8>, Vec<u8>, Vec<u8>)>)
    ensures
        match parse_ssh_blob(data@) {
            Some(t) => r matches Some(u) && u.0@ == t.0 && u.1@ == t.1 && u.2@ == t.2,
            None => r is None,
        },
{
    match read_field(data, 0) {
        None => None,
        Some((tag, o1)) => match read_field(data, o1) {
            None => None,
            Some((v, o2)) => match read_field(data, o2) {
                None => None,
                Some((n, o3)) => if o3 == data.len() {
                    Some((tag, v, n))
                } else {
                    None
                },
            },
        },
    }
}

/// Decodes the base64 body of an `ssh-rsa` public-key line and splits it back
/// into the exponent bytes and the modulus bytes. Together with
/// `lemma_ssh_blob_round_trip` this states the round-trip law: for every
/// exponent `v` and modulus `n`, decoding the encoded body recovers exactly
/// `v` and `n`.
pub fn decode_ssh_rsa_body(body: &str) -> (r: Option<(Vec<u8>, Vec<u8>)>)
    ensures
        forall|v: Seq<u8>, n: Seq<u8>|
            (v.len() <= u32::MAX && n.len() <= u32::MAX && body@ == base64_of(
                #[trigger] ssh_rsa_blob(v, n),
            )) ==> (r matches Some(p) && p.0@ == v && p.1@ == n),
{
    let bytes = match base64_decode(body) {
        Some(b) => b,
        None => {
            proof {
                assert forall|v: Seq<u8>, n: Seq<u8>|
                    (v.len() <= u32::MAX && n.len() <= u32::MAX && body@ == base64_of(
                        #[trigger] ssh_rsa_blob(v, n),
                    )) implies false by {
                    assert(body@ != base64_of(ssh_rsa_blob(v, n)));
                }
            }
            return None;
        },
    };
    let parsed = parse_ssh_fields(&bytes);
    proof {
        assert forall|v: Seq<u8>, n: Seq<u8>|
            (v.len() <= u32::MAX && n.len() <= u32::MAX && body@ == base64_of(
                #[trigger] ssh_rsa_blob(v, n),
            )) implies (parsed matches Some(u) && u.0@ == ssh_rsa_tag_bytes() && u.1@ == v && u.2@
            == n) by {
            assert(bytes@ == ssh_rsa_blob(v, n));
            lemma_ssh_blob_round_trip(v, n);
        }
    }
    match parsed {
        None => None,
        Some((tag, v, n)) => {
            let mut expect: Vec<u8> = Vec::new();
            expect.push(115);
            expect.push(115);
            expect.push(104);
            expect.push(45);
            expect.push(114);
            expect.push(115);
            expect.push(97);
            proof {
                assert(expect@ =~= ssh_rsa_tag_bytes());
            }
            if bytes_equal(&tag, &expect) {
                Some((v, n))
            } else {
                None
            }
        },
    }
}

/// Compares two byte vectors element by element.
fn bytes_equal(a: &Vec<u8>, b: &Vec<u8>) -> (r: bool)
    ensures
        r == (a@ == b@),
{
    if a.len() != b.len() {
        proof {
            assert(a@ != b@);
        }
        return false;
    }
    let mut i: usize = 0;
    while i < a.len()
        invariant
            i <= a@.len(),
            a@.len() == b@.len(),
            forall|j: int| 0 <= j < i ==> a@[j] == b@[j],
        decreases a@.len() - i,
    {
        if a[i] != b[i] {
            proof {
                assert(a@ != b@);
            }
            return false;
        }
        i = i + 1;
    }
    proof {
        assert(a@ =~= b@);
    }
    true
}

} // verus!
