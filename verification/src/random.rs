use vstd::prelude::*;
use rand::rngs::OsRng;

verus! {

#[verifier::external_type_specification]
#[verifier::external_body]
pub struct ExOsRng(OsRng);

/// Opens the operating system's random number generator with
/// `rand::rngs::OsRng::new`. Nothing is promised of the outcome: it depends on
/// the machine.
#[verifier::external_body]
fn open_os_rng() -> Option<OsRng> {
    OsRng::new().ok()
}

/// Fills `dest` with random bytes with `rand::RngCore::try_fill_bytes`.
/// Trusted: the length of `dest` stays; the bytes, and whether the call
/// succeeded, depend on the machine and are not stated.
#[verifier::external_body]
fn fill_random(rng: &mut OsRng, dest: &mut Vec<u8>) -> (ok: bool)
    ensures
        final(dest)@.len() == old(dest)@.len(),
{
    rand::RngCore::try_fill_bytes(rng, dest.as_mut_slice()).is_ok()
}

/// `len` bytes from the operating system's random number generator; `None`
/// where the generator cannot be opened or read.
pub fn random_bytes(len: usize) -> (r: Option<Vec<u8>>)
    ensures
        r matches Some(bytes) ==> bytes@.len() == len,
{
    let mut rng = match open_os_rng() {
        Some(rng) => rng,
        None => return None,
    };
    let mut bytes: Vec<u8> = Vec::new();
    for i in 0..len
        invariant
            bytes@.len() == i,
    {
        bytes.push(0u8);
    }
    if fill_random(&mut rng, &mut bytes) {
        Some(bytes)
    } else {
        None
    }
}

} // verus!
