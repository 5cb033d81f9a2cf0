use vstd::prelude::*;
use vstd::string::*;

verus! {

/// A string that cannot be handed to the client as a C string, because it
/// holds a NUL byte; `position` is the index of the first one.
#[derive(Clone, Copy, Debug, PartialEq, Eq)]
pub struct NulError {
    pub position: usize,
}

/// `bytes` holds no NUL byte before index `end`.
pub open spec fn nul_free_prefix(bytes: Seq<u8>, end: int) -> bool {
    forall|j: int| 0 <= j < end ==> bytes[j] != 0u8
}

/// Compares two strings character by character.
pub fn str_eq(a: &str, b: &str) -> (res: bool)
    ensures
        res == (a@ == b@),
{
    let sa: String = a.to_owned();
    let sb: String = b.to_owned();
    sa == sb
}

/// The bytes of `text` followed by a terminating NUL, as the client's C
/// routines expect them; refused when `text` already holds a NUL byte.
pub fn c_string(text: &str) -> (res: Result<Vec<u8>, NulError>)
    ensures
        match res {
            Ok(bytes) => {
                &&& !text.spec_bytes().contains(0u8)
                &&& bytes@ == text.spec_bytes().push(0u8)
            },
            Err(e) => {
                &&& e.position < text.spec_bytes().len()
                &&& text.spec_bytes()[e.position as int] == 0u8
                &&& nul_free_prefix(text.spec_bytes(), e.position as int)
            },
        },
{
    let bytes = text.as_bytes();
    let n = bytes.len();
    let mut i: usize = 0;
    while i < n
        invariant
            n == bytes@.len(),
            bytes@ == text.spec_bytes(),
            i <= n,
            nul_free_prefix(bytes@, i as int),
        decreases n - i,
    {
        if bytes[i] == 0 {
            return Err(NulError { position: i });
        }
        i = i + 1;
    }
    let mut out = text.as_bytes_vec();
    out.push(0u8);
    assert(!text.spec_bytes().contains(0u8)) by {
        if text.spec_bytes().contains(0u8) {
            let k = choose|k: int| 0 <= k < text.spec_bytes().len() && text.spec_bytes()[k] == 0u8;
            assert(bytes@[k] == 0u8);
        }
    }
    Ok(out)
}

/// The bytes of a fixed-size C string buffer up to its first NUL, or `None`
/// when the buffer holds no NUL.
pub fn bytes_until_nul(buffer: &[u8]) -> (res: Option<Vec<u8>>)
    ensures
        match res {
            Some(bytes) => {
                &&& bytes@.len() < buffer@.len()
                &&& buffer@[bytes@.len() as int] == 0u8
                &&& bytes@ == buffer@.subrange(0, bytes@.len() as int)
                &&& nul_free_prefix(buffer@, bytes@.len() as int)
            },
            None => !buffer@.contains(0u8),
        },
{
    let n = buffer.len();
    let mut out: Vec<u8> = Vec::new();
    let mut i: usize = 0;
    while i < n
        invariant
            n == buffer@.len(),
            i <= n,
            out@ == buffer@.subrange(0, i as int),
            nul_free_prefix(buffer@, i as int),
        decreases n - i,
    {
        if buffer[i] == 0 {
            return Some(out);
        }
        out.push(buffer[i]);
        i = i + 1;
        assert(out@ =~= buffer@.subrange(0, i as int));
    }
    assert(!buffer@.contains(0u8)) by {
        if buffer@.contains(0u8) {
            let k = choose|k: int| 0 <= k < buffer@.len() && buffer@[k] == 0u8;
            assert(buffer@[k] != 0u8);
        }
    }
    None
}

/// Reading a C string back stops at its terminator: the bytes that
/// [`c_string`] makes of a NUL-free text have their first NUL right after
/// the text, so [`bytes_until_nul`] gives the text's bytes back.
pub proof fn lemma_c_string_reads_back(bytes: Seq<u8>)
    requires
        !bytes.contains(0u8),
    ensures
        bytes.push(0u8)[bytes.len() as int] == 0u8,
        nul_free_prefix(bytes.push(0u8), bytes.len() as int),
        bytes.push(0u8).subrange(0, bytes.len() as int) == bytes,
{
    assert forall|j: int| 0 <= j < bytes.len() implies bytes.push(0u8)[j] != 0u8 by {
        assert(bytes.push(0u8)[j] == bytes[j]);
    }
    assert(bytes.push(0u8).subrange(0, bytes.len() as int) =~= bytes);
}

} // verus!
