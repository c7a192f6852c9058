//! What a load hands to the engine: a NUL-terminated path, or the length
//! and ownership options of an in-memory buffer.
use vstd::prelude::*;
use crate::error::{SoloudError, SoloudErrorKind};

verus! {

/// Whether `s` holds a NUL byte.
pub open spec fn has_nul(s: Seq<u8>) -> bool {
    exists|i: int| 0 <= i < s.len() && s[i] == 0
}

/// Whether `p` is the position of the first NUL byte of `s`.
pub open spec fn is_first_nul(s: Seq<u8>, p: int) -> bool {
    &&& 0 <= p < s.len()
    &&& s[p] == 0
    &&& forall|j: int| 0 <= j < p ==> s[j] != 0
}

/// The engine's text form of a path: its bytes and a terminating NUL. A
/// path that holds a NUL byte cannot be represented, and is refused with the
/// position of its first NUL, before any call into the engine.
pub fn encode_path(path: &[u8]) -> (r: Result<Vec<u8>, SoloudError>)
    ensures
        r is Err <==> has_nul(path@),
        r matches Ok(v) ==> v@ == path@.push(0u8),
        r matches Err(e) ==> (e matches SoloudError::NullError(p) && is_first_nul(path@, p as int)),
{
    let mut out: Vec<u8> = Vec::new();
    let mut i: usize = 0;
    while i < path.len()
        invariant
            0 <= i <= path.len(),
            out@ == path@.subrange(0, i as int),
            forall|j: int| 0 <= j < i ==> path@[j] != 0,
        decreases path.len() - i,
    {
        if path[i] == 0 {
            return Err(SoloudError::NullError(i));
        }
        out.push(path[i]);
        i = i + 1;
    }
    assert(path@.subrange(0, path@.len() as int) =~= path@);
    out.push(0u8);
    Ok(out)
}

/// The arguments of an in-memory load: the buffer's length as the engine
/// takes it, whether the engine copies the buffer, and whether it frees it.
#[derive(Debug, Clone, Copy, PartialEq, Eq, Structural)]
pub struct MemLoad {
    pub len: u32,
    pub copy: bool,
    pub take_ownership: bool,
}

/// The largest buffer length the engine can take.
pub const MAX_MEM_LEN: usize = 4294967295;

/// The outcome of an in-memory load request of `len` bytes.
pub open spec fn mem_load_outcome(len: nat, copy: bool, take_ownership: bool) -> Result<MemLoad, SoloudError> {
    if len <= MAX_MEM_LEN {
        Ok(MemLoad { len: len as u32, copy, take_ownership })
    } else {
        Err(SoloudError::Internal(SoloudErrorKind::InvalidParemeter))
    }
}

/// The arguments of a load from `data` with the given options. With
/// `copy` false the engine keeps a reference into `data`, and with
/// `take_ownership` true it frees the buffer itself: both are the caller's
/// responsibility. A buffer longer than the engine can take is an invalid
/// parameter.
pub fn load_mem_ex_args(data: &[u8], copy: bool, take_ownership: bool) -> (r: Result<MemLoad, SoloudError>)
    ensures
        r == mem_load_outcome(data@.len(), copy, take_ownership),
        r is Ok <==> data@.len() <= MAX_MEM_LEN,
{
    if data.len() <= MAX_MEM_LEN {
        Ok(MemLoad { len: data.len() as u32, copy, take_ownership })
    } else {
        Err(SoloudError::Internal(SoloudErrorKind::InvalidParemeter))
    }
}

/// The arguments of a plain load from `data`: the engine always copies the
/// buffer and owns the copy, so the caller's buffer stays the caller's,
/// untouched and free to change or drop after the call.
pub fn load_mem_args(data: &[u8]) -> (r: Result<MemLoad, SoloudError>)
    ensures
        r == mem_load_outcome(data@.len(), true, true),
        r is Ok <==> data@.len() <= MAX_MEM_LEN,
        r matches Ok(m) ==> m.copy && m.len == data@.len(),
{
    load_mem_ex_args(data, true, true)
}

} // verus!
