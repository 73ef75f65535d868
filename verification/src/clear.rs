use vstd::prelude::*;

verus! {

/// A value that can overwrite itself so that no secret it held stays in memory.
pub trait Clear {
    /// Overwrites this value.
    fn clear(&mut self);
}

/// Overwrites a word with `<u64 as clear_on_drop::clear::Clear>::clear`.
/// Trusted: the word is zero afterwards (`u64` is cleared to its default).
#[verifier::external_body]
pub(crate) fn clear_word(w: &mut u64)
    ensures
        *final(w) == 0,
{
    clear_on_drop::clear::Clear::clear(w);
}

impl Clear for u64 {
    fn clear(&mut self)
        ensures
            *final(self) == 0,
    {
        clear_word(self);
    }
}

/// Overwrites every byte of `buf` with `<[u8] as clear_on_drop::clear::Clear>::clear`.
/// Trusted: the length stays and every byte is zero afterwards (a slice of
/// bytes is cleared by writing zeros over it).
#[verifier::external_body]
pub(crate) fn clear_bytes(buf: &mut Vec<u8>)
    ensures
        final(buf)@.len() == old(buf)@.len(),
        forall|i: int| 0 <= i < final(buf)@.len() ==> final(buf)@[i] == 0,
{
    clear_on_drop::clear::Clear::clear(buf.as_mut_slice());
}

} // verus!
