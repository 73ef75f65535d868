use vstd::prelude::*;

verus! {

/// Memory of the key derivation, in 1 KiB blocks.
pub const ARGON2_MEMORY_COST: u32 = 512;

/// Lanes of the key derivation.
pub const ARGON2_PARALLELISM: u32 = 1;

/// Why a key derivation was refused.
#[derive(Clone, Copy, Debug, PartialEq, Eq, Structural)]
pub enum Argon2Error {
    /// No pass over the memory was asked for.
    TimeTooSmall,
    /// The derived key would be shorter than four bytes.
    OutputTooShort,
    /// The derived key would be longer than `u32::MAX` bytes.
    OutputTooLong,
    /// The password is longer than `u32::MAX` bytes.
    PasswordTooLong,
    /// The salt is shorter than eight bytes.
    SaltTooShort,
    /// The salt is longer than `u32::MAX` bytes.
    SaltTooLong,
}

/// The Argon2d (version 0x13) key of `key_length` bytes derived from
/// `password` and `salt` in `iterations` passes over `memory_cost` blocks of
/// 1 KiB in `parallelism` lanes.
pub uninterp spec fn argon2d_kdf(
    password: Seq<u8>,
    salt: Seq<u8>,
    iterations: u32,
    key_length: usize,
    memory_cost: u32,
    parallelism: u32,
) -> Seq<u8>;

/// Whether Argon2 accepts these parameters: enough memory for the lanes, at
/// least one pass, between one and `0xFF_FFFF` lanes, a key of four to
/// `u32::MAX` bytes, a password of at most `u32::MAX` bytes and a salt of eight
/// to `u32::MAX` bytes.
pub open spec fn argon2_accepts(
    memory_cost: u32,
    parallelism: u32,
    password_len: nat,
    salt_len: nat,
    iterations: u32,
    key_length: nat,
) -> bool {
    &&& memory_cost >= 8
    &&& memory_cost >= parallelism * 8
    &&& iterations >= 1
    &&& 1 <= parallelism <= 0xFF_FFFF
    &&& 4 <= key_length <= 0xFFFF_FFFF
    &&& password_len <= 0xFFFF_FFFF
    &&& 8 <= salt_len <= 0xFFFF_FFFF
}

/// The first parameter of a derivation that Argon2 refuses, checked in the
/// order in which it checks them; `None` where it accepts them all.
pub open spec fn kdf_parameter_error(password_len: nat, salt_len: nat, iterations: u32, key_length: nat) -> Option<Argon2Error> {
    if iterations < 1 {
        Some(Argon2Error::TimeTooSmall)
    } else if key_length < 4 {
        Some(Argon2Error::OutputTooShort)
    } else if key_length > 0xFFFF_FFFF {
        Some(Argon2Error::OutputTooLong)
    } else if password_len > 0xFFFF_FFFF {
        Some(Argon2Error::PasswordTooLong)
    } else if salt_len < 8 {
        Some(Argon2Error::SaltTooShort)
    } else if salt_len > 0xFFFF_FFFF {
        Some(Argon2Error::SaltTooLong)
    } else {
        None
    }
}

#[verifier::external_type_specification]
#[verifier::external_body]
pub struct ExArgon2Error(argon2::Error);

/// Derives an Argon2d (version 0x13) key with `argon2::Argon2::hash_password_into`,
/// after building its parameters with `argon2::Params::new` (`memory_cost`
/// blocks of memory, `parallelism` lanes, `iterations` passes, `key_length`
/// bytes of output).
/// Trusted: the call succeeds exactly when none of the parameter checks that
/// the crate's source makes fails, and then gives `key_length` bytes that are a
/// function of the six arguments alone. The lane count is bounded so that the
/// crate's `parallelism * 8` cannot overflow.
#[verifier::external_body]
fn argon2d_hash(
    password: &[u8],
    salt: &[u8],
    iterations: u32,
    key_length: usize,
    memory_cost: u32,
    parallelism: u32,
) -> (r: Result<Vec<u8>, argon2::Error>)
    requires
        parallelism <= 0x1FFF_FFFF,
    ensures
        r is Ok <==> argon2_accepts(memory_cost, parallelism, password@.len(), salt@.len(), iterations, key_length as nat),
        r matches Ok(key) ==> key@ == argon2d_kdf(password@, salt@, iterations, key_length, memory_cost, parallelism),
        r matches Ok(key) ==> key@.len() == key_length,
{
    let params = argon2::Params::new(memory_cost, iterations, parallelism, Some(key_length))?;
    let hasher = argon2::Argon2::new(argon2::Algorithm::Argon2d, argon2::Version::V0x13, params);
    let mut key = vec![0u8; key_length];
    hasher.hash_password_into(password, salt, &mut key)?;
    Ok(key)
}

/// The parameter check that refuses a derivation first, if any.
fn parameter_error(password_len: usize, salt_len: usize, iterations: u32, key_length: usize) -> (r: Option<Argon2Error>)
    ensures
        r == kdf_parameter_error(password_len as nat, salt_len as nat, iterations, key_length as nat),
{
    if iterations < 1 {
        Some(Argon2Error::TimeTooSmall)
    } else if key_length < 4 {
        Some(Argon2Error::OutputTooShort)
    } else if key_length as u64 > 0xFFFF_FFFFu64 {
        Some(Argon2Error::OutputTooLong)
    } else if password_len as u64 > 0xFFFF_FFFFu64 {
        Some(Argon2Error::PasswordTooLong)
    } else if salt_len < 8 {
        Some(Argon2Error::SaltTooShort)
    } else if salt_len as u64 > 0xFFFF_FFFFu64 {
        Some(Argon2Error::SaltTooLong)
    } else {
        None
    }
}

/// What `compute_argon2_kdf` gives for these arguments.
pub open spec fn kdf_result(password: Seq<u8>, salt: Seq<u8>, iterations: u32, key_length: nat) -> Result<Seq<u8>, Argon2Error> {
    match kdf_parameter_error(password.len(), salt.len(), iterations, key_length) {
        Some(e) => Err(e),
        None => Ok(argon2d_kdf(password, salt, iterations, key_length as usize, ARGON2_MEMORY_COST, ARGON2_PARALLELISM)),
    }
}

/// A derivation that succeeds gives the Argon2d key for exactly the password,
/// salt, passes and length asked for, with this library's memory and lanes.
pub proof fn lemma_kdf_result_is_the_key(password: Seq<u8>, salt: Seq<u8>, iterations: u32, key_length: usize)
    ensures
        kdf_result(password, salt, iterations, key_length as nat) matches Ok(key) ==> key == argon2d_kdf(
            password,
            salt,
            iterations,
            key_length,
            ARGON2_MEMORY_COST,
            ARGON2_PARALLELISM,
        ),
        kdf_result(password, salt, iterations, key_length as nat) is Ok <==> iterations >= 1 && 4 <= key_length
            <= 0xFFFF_FFFF && password.len() <= 0xFFFF_FFFF && 8 <= salt.len() <= 0xFFFF_FFFF,
{
}

/// With the memory and lane counts of this library, Argon2 accepts the
/// parameters exactly when no check of `kdf_parameter_error` refuses them.
pub proof fn lemma_accepts_iff_no_parameter_error(password_len: nat, salt_len: nat, iterations: u32, key_length: nat)
    ensures
        argon2_accepts(ARGON2_MEMORY_COST, ARGON2_PARALLELISM, password_len, salt_len, iterations, key_length)
            <==> kdf_parameter_error(password_len, salt_len, iterations, key_length) is None,
{
}

/// Derives a key of `derived_key_length` bytes from a password and a salt
/// with Argon2d in `iterations` passes.
pub fn compute_argon2_kdf(password: &[u8], salt: &[u8], iterations: u32, derived_key_length: usize) -> (r: Result<Vec<u8>, Argon2Error>)
    ensures
        r matches Ok(key) ==> kdf_result(password@, salt@, iterations, derived_key_length as nat) == Ok::<Seq<u8>, Argon2Error>(key@),
        r matches Err(e) ==> kdf_result(password@, salt@, iterations, derived_key_length as nat) == Err::<Seq<u8>, Argon2Error>(e),
        r matches Ok(key) ==> key@.len() == derived_key_length,
        r matches Ok(key) ==> key@ == argon2d_kdf(password@, salt@, iterations, derived_key_length, ARGON2_MEMORY_COST, ARGON2_PARALLELISM),
        r is Ok <==> kdf_parameter_error(password@.len(), salt@.len(), iterations, derived_key_length as nat) is None,
{
    proof {
        lemma_accepts_iff_no_parameter_error(password@.len(), salt@.len(), iterations, derived_key_length as nat);
    }
    match argon2d_hash(password, salt, iterations, derived_key_length, ARGON2_MEMORY_COST, ARGON2_PARALLELISM) {
        Ok(key) => Ok(key),
        Err(_) => {
            match parameter_error(password.len(), salt.len(), iterations, derived_key_length) {
                Some(e) => Err(e),
                None => {
                    proof {
                        assert(false);
                    }
                    Err(Argon2Error::TimeTooSmall)
                },
            }
        },
    }
}

} // verus!
