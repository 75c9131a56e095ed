use vstd::prelude::*;
use vstd::string::StringSliceAdditionalSpecFns;
use crate::error::AdapterError;

verus! {

/// A byte sequence holds the terminator byte somewhere.
pub open spec fn has_nul(s: Seq<u8>) -> bool {
    exists|i: int| 0 <= i < s.len() && s[i] == 0u8
}

/// The null-terminated form of a byte sequence.
pub open spec fn c_encoded(s: Seq<u8>) -> Seq<u8> {
    s.push(0u8)
}

/// A byte sequence is a null-terminated string: it ends in the terminator
/// and holds no other.
pub open spec fn is_c_string(s: Seq<u8>) -> bool {
    s.len() > 0 && s.last() == 0u8 && !has_nul(s.drop_last())
}

/// The byte sequences that a list of buffers holds, in order.
pub open spec fn bytes_list(v: Seq<Vec<u8>>) -> Seq<Seq<u8>> {
    v.map_values(|b: Vec<u8>| b@)
}

/// What encoding a byte string for the boundary gives: the terminated bytes,
/// or `InvalidParameter` where a terminator is embedded.
pub open spec fn encoded(s: Seq<u8>) -> Result<Seq<u8>, AdapterError> {
    if has_nul(s) {
        Err(AdapterError::InvalidParameter)
    } else {
        Ok(c_encoded(s))
    }
}

/// The view of an encoding result.
pub open spec fn encoding_view(r: Result<Vec<u8>, AdapterError>) -> Result<Seq<u8>, AdapterError> {
    match r {
        Ok(v) => Ok(v@),
        Err(e) => Err(e),
    }
}

/// Tells whether `bytes` holds a zero byte.
pub fn contains_nul(bytes: &[u8]) -> (r: bool)
    ensures
        r == has_nul(bytes@),
{
    let mut i: usize = 0;
    while i < bytes.len()
        invariant
            i <= bytes.len(),
            forall|j: int| 0 <= j < i ==> bytes@[j] != 0u8,
        decreases bytes.len() - i,
    {
        if bytes[i] == 0 {
            return true;
        }
        i += 1;
    }
    false
}

/// An owned copy of `bytes`.
pub fn copy_bytes(bytes: &[u8]) -> (r: Vec<u8>)
    ensures
        r@ == bytes@,
{
    let mut out: Vec<u8> = Vec::new();
    let mut i: usize = 0;
    while i < bytes.len()
        invariant
            i <= bytes.len(),
            out@ == bytes@.take(i as int),
        decreases bytes.len() - i,
    {
        out.push(bytes[i]);
        proof {
            assert(bytes@.take(i + 1) =~= bytes@.take(i as int).push(bytes@[i as int]));
        }
        i += 1;
    }
    proof {
        assert(bytes@.take(bytes@.len() as int) =~= bytes@);
    }
    out
}

/// An owned copy of a list of buffers.
pub fn copy_bytes_list(list: &Vec<Vec<u8>>) -> (r: Vec<Vec<u8>>)
    ensures
        bytes_list(r@) == bytes_list(list@),
{
    let mut out: Vec<Vec<u8>> = Vec::new();
    let mut i: usize = 0;
    while i < list.len()
        invariant
            i <= list.len(),
            bytes_list(out@) == bytes_list(list@).take(i as int),
        decreases list.len() - i,
    {
        let ghost before = out@;
        let item = copy_bytes(list[i].as_slice());
        out.push(item);
        proof {
            assert(bytes_list(out@) =~= bytes_list(before).push(list@[i as int]@));
            assert(bytes_list(list@).take(i + 1) =~= bytes_list(list@).take(i as int).push(
                list@[i as int]@,
            ));
        }
        i += 1;
    }
    proof {
        assert(bytes_list(list@).take(list@.len() as int) =~= bytes_list(list@));
    }
    out
}

/// Encodes `bytes` for the boundary: a copy with the terminator appended.
/// Fails with `InvalidParameter` exactly where `bytes` holds a zero byte.
pub fn encode_c_bytes(bytes: &[u8]) -> (r: Result<Vec<u8>, AdapterError>)
    ensures
        encoding_view(r) == encoded(bytes@),
        r matches Ok(v) ==> is_c_string(v@),
{
    if contains_nul(bytes) {
        return Err(AdapterError::InvalidParameter);
    }
    let mut out = copy_bytes(bytes);
    out.push(0u8);
    proof {
        lemma_encoded_is_c_string(bytes@);
    }
    Ok(out)
}

/// Appending the terminator to bytes that hold none gives a null-terminated
/// string, and taking the terminator off again gives the bytes back.
pub proof fn lemma_encoded_is_c_string(s: Seq<u8>)
    requires
        !has_nul(s),
    ensures
        is_c_string(c_encoded(s)),
        c_encoded(s).drop_last() == s,
{
    assert(c_encoded(s).drop_last() =~= s);
}

/// Encodes the UTF-8 bytes of `text` for the boundary, as `encode_c_bytes`
/// does.
pub fn encode_c_string(text: &str) -> (r: Result<Vec<u8>, AdapterError>)
    ensures
        encoding_view(r) == encoded(text.spec_bytes()),
        r matches Ok(v) ==> is_c_string(v@),
{
    encode_c_bytes(text.as_bytes())
}

} // verus!
