use vstd::prelude::*;
use core::marker::PhantomData;
use crate::clear::{Clear, clear_bytes};
use crate::kdf::{
    Argon2Error, compute_argon2_kdf, kdf_result, kdf_parameter_error, argon2d_kdf, ARGON2_MEMORY_COST,
    ARGON2_PARALLELISM,
};
use crate::random::random_bytes;
use crate::serialization::{Deserialize, Serialize, lemma_u64_roundtrip};

verus! {

/// A value that can check its own integrity.
pub trait Verify {
    /// Whether the value is intact.
    fn verify(&self) -> bool;
}

/// Byte-wise exclusive or of two sequences, as long as `b`.
pub open spec fn xor_bytes(a: Seq<u8>, b: Seq<u8>) -> Seq<u8> {
    Seq::new(b.len(), |i: int| a[i] ^ b[i])
}

/// Xors `key` in place with `secret`, byte by byte; the pad of the secret
/// under that key.
pub fn xor_pad(key: &mut Vec<u8>, secret: &[u8])
    requires
        old(key)@.len() == secret@.len(),
    ensures
        final(key)@ == xor_bytes(old(key)@, secret@),
        final(key)@.len() == secret@.len(),
        forall|i: int| 0 <= i < secret@.len() ==> #[trigger] final(key)@[i] == old(key)@[i] ^ secret@[i],
{
    let ghost derived = key@;
    let n: usize = secret.len();
    for i in 0..n
        invariant
            n == secret@.len(),
            derived.len() == n,
            key@.len() == n,
            forall|j: int| 0 <= j < i ==> key@[j] == derived[j] ^ secret@[j],
            forall|j: int| i <= j < n ==> key@[j] == derived[j],
    {
        let b: u8 = key[i] ^ secret[i];
        key.set(i, b);
    }
    assert(key@ =~= xor_bytes(derived, secret@));
}

/// Byte `i` of the pad of `b` under `a` is byte `i` of `a` xor byte `i` of
/// `b`, and the pad is as long as `b`.
pub proof fn lemma_xor_bytes_bytewise(a: Seq<u8>, b: Seq<u8>)
    ensures
        xor_bytes(a, b).len() == b.len(),
        forall|i: int| 0 <= i < b.len() ==> #[trigger] xor_bytes(a, b)[i] == a[i] ^ b[i],
{
}

/// A one-time pad that succeeds masks every byte of the secret with the
/// Argon2d key derived, in exactly the passes asked for, from the password and
/// the salt; it succeeds exactly when the derivation accepts its parameters.
pub proof fn lemma_otp_masks_every_byte(secret: Seq<u8>, password: Seq<u8>, iterations: u32, salt: Seq<u8>)
    ensures
        otp_result(secret, password, iterations, salt) is Ok <==> kdf_parameter_error(password.len(), salt.len(), iterations, secret.len()) is None,
        otp_result(secret, password, iterations, salt) matches Ok(pad) ==> {
            &&& pad.len() == secret.len()
            &&& forall|i: int| 0 <= i < secret.len() ==> #[trigger] pad[i] == argon2d_kdf(
                password,
                salt,
                iterations,
                secret.len() as usize,
                ARGON2_MEMORY_COST,
                ARGON2_PARALLELISM,
            )[i] ^ secret[i]
        },
{
}

/// Xoring twice with the same key gives the bytes back.
pub proof fn lemma_xor_involution(key: Seq<u8>, data: Seq<u8>)
    ensures
        xor_bytes(key, xor_bytes(key, data)) == data,
{
    let pad = xor_bytes(key, data);
    assert forall|i: int| 0 <= i < data.len() implies #[trigger] xor_bytes(key, pad)[i] == data[i] by {
        let k: u8 = key[i];
        let s: u8 = data[i];
        assert(k ^ (k ^ s) == s) by (bit_vector);
    }
    assert(xor_bytes(key, pad) =~= data);
}

/// The one-time pad of `secret`: the secret xor-ed with an Argon2d key as long
/// as the secret, derived from the password, the salt and the iterations.
pub open spec fn otp_result(secret: Seq<u8>, password: Seq<u8>, iterations: u32, salt: Seq<u8>) -> Result<Seq<u8>, Argon2Error> {
    match kdf_result(password, salt, iterations, secret.len()) {
        Ok(key) => Ok(xor_bytes(key, secret)),
        Err(e) => Err(e),
    }
}

/// A secret of type `T`, encrypted with a one-time pad derived from a password.
pub struct Locked<T: Clear + Deserialize + Serialize> {
    lock: Vec<u8>,
    salt: Vec<u8>,
    iterations: u32,
    phantom: PhantomData<T>,
}

impl<T: Clear + Deserialize + Serialize> Locked<T> {
    /// The encrypted bytes.
    pub closed spec fn ciphertext(&self) -> Seq<u8> {
        self.lock@
    }

    /// The salt of the key derivation.
    pub closed spec fn salt(&self) -> Seq<u8> {
        self.salt@
    }

    /// The passes of the key derivation.
    pub closed spec fn iterations(&self) -> u32 {
        self.iterations
    }

    /// The secret bytes that `password` unlocks, or the error of the key derivation.
    pub open spec fn plaintext(&self, password: Seq<u8>) -> Result<Seq<u8>, Argon2Error> {
        otp_result(self.ciphertext(), password, self.iterations(), self.salt())
    }

    /// The value that `password` unlocks, if the derivation succeeds and the
    /// decrypted bytes decode.
    pub open spec fn unlocked_value(&self, password: Seq<u8>) -> Option<T> {
        match self.plaintext(password) {
            Ok(bytes) => T::deserialized(bytes),
            Err(_) => None,
        }
    }

    /// Xors `secret` with the key derived from the password.
    pub fn otp(secret: &[u8], password: &[u8], iterations: u32, salt: &[u8]) -> (r: Result<Vec<u8>, Argon2Error>)
        ensures
            r matches Ok(pad) ==> otp_result(secret@, password@, iterations, salt@) == Ok::<Seq<u8>, Argon2Error>(pad@),
            r matches Err(e) ==> otp_result(secret@, password@, iterations, salt@) == Err::<Seq<u8>, Argon2Error>(e),
            r matches Ok(pad) ==> pad@.len() == secret@.len(),
            r matches Ok(pad) ==> forall|i: int| 0 <= i < secret@.len() ==> #[trigger] pad@[i] == argon2d_kdf(
                password@,
                salt@,
                iterations,
                secret@.len() as usize,
                ARGON2_MEMORY_COST,
                ARGON2_PARALLELISM,
            )[i] ^ secret@[i],
            r is Ok <==> kdf_parameter_error(password@.len(), salt@.len(), iterations, secret@.len()) is None,
    {
        let mut key = compute_argon2_kdf(password, salt, iterations, secret.len())?;
        xor_pad(&mut key, secret);
        Ok(key)
    }

    /// Encrypts `secret` under `password` with the given salt and passes.
    pub fn lock(secret: &T, password: &[u8], iterations: u32, salt: Vec<u8>) -> (r: Result<Self, Argon2Error>)
        ensures
            r matches Ok(locked) ==> {
                &&& otp_result(secret.serialized(), password@, iterations, salt@) == Ok::<Seq<u8>, Argon2Error>(locked.ciphertext())
                &&& locked.salt() == salt@
                &&& locked.iterations() == iterations
            },
            r matches Err(e) ==> otp_result(secret.serialized(), password@, iterations, salt@) == Err::<Seq<u8>, Argon2Error>(e),
    {
        let mut data = secret.serialize_to_vec();
        let lock = Self::otp(data.as_slice(), password, iterations, salt.as_slice())?;
        // The unencrypted bytes are overwritten before they are dropped.
        clear_bytes(&mut data);
        Ok(Locked { lock, salt, iterations, phantom: PhantomData })
    }

    /// Encrypts `secret` under `password` with a fresh random salt of `salt_length` bytes.
    fn new(secret: &T, password: &[u8], iterations: u32, salt_length: usize) -> (r: Result<Self, LockError>)
        ensures
            r matches Ok(locked) ==> {
                &&& locked.salt().len() == salt_length
                &&& otp_result(secret.serialized(), password@, iterations, locked.salt()) == Ok::<Seq<u8>, Argon2Error>(locked.ciphertext())
                &&& locked.iterations() == iterations
            },
            r matches Err(LockError::Argon2(e)) ==> kdf_parameter_error(password@.len(), salt_length as nat, iterations, secret.serialized().len()) == Some(e),
            kdf_parameter_error(password@.len(), salt_length as nat, iterations, secret.serialized().len()) is Some ==> r is Err,
    {
        let salt = match random_bytes(salt_length) {
            Some(salt) => salt,
            None => return Err(LockError::RandomnessUnavailable),
        };
        match Self::lock(secret, password, iterations, salt) {
            Ok(locked) => Ok(locked),
            Err(e) => Err(LockError::Argon2(e)),
        }
    }

    /// Decrypts the secret with `password` without checking its integrity.
    /// The container comes back unchanged where the key derivation fails or the
    /// decrypted bytes do not decode.
    pub fn unlock_unchecked(self, password: &[u8]) -> (r: Result<Unlocked<T>, Locked<T>>)
        ensures
            r matches Ok(unlocked) ==> {
                &&& self.unlocked_value(password@) == Some(unlocked.data())
                &&& unlocked.locked() == self
            },
            r matches Err(locked) ==> locked == self && self.unlocked_value(password@) is None,
    {
        let mut key = match Self::otp(self.lock.as_slice(), password, self.iterations, self.salt.as_slice()) {
            Ok(key) => key,
            Err(_) => return Err(self),
        };
        let result = T::deserialize_from_vec(&key);
        // The unencrypted bytes are overwritten before they are dropped.
        clear_bytes(&mut key);
        match result {
            Some(data) => Ok(Unlocked { data, lock: self }),
            None => Err(self),
        }
    }

    /// Wraps the locked container into the generic container.
    pub fn into_otp_lock(self) -> (r: OtpLock<T>)
        ensures
            r == OtpLock::Locked(self),
    {
        OtpLock::Locked(self)
    }
}

impl<T: Clear + Deserialize + Serialize + Verify> Locked<T> {
    /// Decrypts the secret with `password` and checks its integrity; the
    /// container comes back unchanged where either fails.
    pub fn unlock(self, password: &[u8]) -> (r: Result<Unlocked<T>, Locked<T>>)
        ensures
            r matches Ok(unlocked) ==> {
                &&& self.unlocked_value(password@) == Some(unlocked.data())
                &&& call_ensures(T::verify, (&unlocked.data(),), true)
                &&& unlocked.locked() == self
            },
            r matches Err(locked) ==> {
                &&& locked == self
                &&& (self.unlocked_value(password@) matches Some(v) ==> call_ensures(T::verify, (&v,), false))
            },
    {
        let unlocked = self.unlock_unchecked(password);
        match unlocked {
            Ok(unlocked) => {
                if unlocked.data.verify() {
                    Ok(unlocked)
                } else {
                    Err(Unlocked::lock(unlocked))
                }
            },
            Err(locked) => Err(locked),
        }
    }
}

/// Why a container could not be locked.
#[derive(Clone, Copy, Debug, PartialEq, Eq, Structural)]
pub enum LockError {
    /// The key derivation refused its parameters.
    Argon2(Argon2Error),
    /// No random salt could be drawn.
    RandomnessUnavailable,
}

/// A secret in the clear, together with the locked container it belongs to.
/// The secret is overwritten when the container is locked again with
/// `Unlocked::lock` (or through `OtpLock::lock`, `OtpLock::locked` or a failed
/// `Locked::unlock`); dropping the container does not overwrite it.
pub struct Unlocked<T: Clear + Deserialize + Serialize> {
    data: T,
    lock: Locked<T>,
}

impl<T: Clear + Deserialize + Serialize> Unlocked<T> {
    /// The secret in the clear.
    pub closed spec fn data(&self) -> T {
        self.data
    }

    /// The locked container of the secret.
    pub closed spec fn locked(&self) -> Locked<T> {
        self.lock
    }

    /// Locks the container again: the secret in the clear is overwritten and
    /// the locked container is given back.
    pub fn lock(lock: Self) -> (r: Locked<T>)
        ensures
            r == lock.locked(),
    {
        let Unlocked { mut data, lock } = lock;
        data.clear();
        lock
    }

    /// Wraps the unlocked container into the generic container.
    pub fn into_otp_lock(lock: Self) -> (r: OtpLock<T>)
        ensures
            r == OtpLock::Unlocked(lock),
    {
        OtpLock::Unlocked(lock)
    }

    /// Takes the secret out of the container.
    pub fn into_unlocked_data(lock: Self) -> (r: T)
        ensures
            r == lock.data(),
    {
        lock.data
    }
}

/// A secret that is either locked or unlocked. `new_locked` overwrites the
/// secret it was given once it is locked; an unlocked container's secret is
/// overwritten only when it is locked again, never when it is dropped.
pub enum OtpLock<T: Clear + Deserialize + Serialize> {
    Unlocked(Unlocked<T>),
    Locked(Locked<T>),
}

/// What a freshly built locked container holds: `salt_length` bytes of salt,
/// the passes, and the one-time pad of the secret's bytes under that salt.
pub open spec fn fresh_lock<T: Clear + Deserialize + Serialize>(locked: Locked<T>, secret: T, password: Seq<u8>, iterations: u32, salt_length: usize) -> bool {
    &&& locked.salt().len() == salt_length
    &&& locked.iterations() == iterations
    &&& otp_result(secret.serialized(), password, iterations, locked.salt()) == Ok::<Seq<u8>, Argon2Error>(locked.ciphertext())
}

impl<T: Clear + Deserialize + Serialize> OtpLock<T> {
    /// Passes of the key derivation that the `_with_defaults` constructors use.
    pub const DEFAULT_ITERATIONS: u32 = 256;

    /// Salt length, in bytes, that the `_with_defaults` constructors use.
    pub const DEFAULT_SALT_LENGTH: usize = 32;

    /// The container after locking: an unlocked one gives back its locked
    /// container, a locked one stays as it is.
    pub open spec fn relocked(self) -> OtpLock<T> {
        match self {
            OtpLock::Unlocked(unlocked) => OtpLock::Locked(unlocked.locked()),
            OtpLock::Locked(locked) => OtpLock::Locked(locked),
        }
    }

    /// The locked container of either state.
    pub open spec fn locked_part(self) -> Locked<T> {
        match self {
            OtpLock::Unlocked(unlocked) => unlocked.locked(),
            OtpLock::Locked(locked) => locked,
        }
    }

    /// Locks `secret` under `password` with a fresh random salt of
    /// `salt_length` bytes and keeps it unlocked.
    pub fn new_unlocked(secret: T, password: &[u8], iterations: u32, salt_length: usize) -> (r: Result<Self, LockError>)
        ensures
            r matches Ok(lock) ==> lock matches OtpLock::Unlocked(unlocked) && unlocked.data() == secret
                && fresh_lock(unlocked.locked(), secret, password@, iterations, salt_length),
            r matches Err(LockError::Argon2(e)) ==> kdf_parameter_error(password@.len(), salt_length as nat, iterations, secret.serialized().len()) == Some(e),
            kdf_parameter_error(password@.len(), salt_length as nat, iterations, secret.serialized().len()) is Some ==> r is Err,
    {
        let locked = match Locked::new(&secret, password, iterations, salt_length) {
            Ok(locked) => locked,
            Err(e) => return Err(e),
        };
        Ok(OtpLock::Unlocked(Unlocked { data: secret, lock: locked }))
    }

    /// `new_unlocked` with the default passes and salt length.
    pub fn new_unlocked_with_defaults(secret: T, password: &[u8]) -> (r: Result<Self, LockError>)
        ensures
            r matches Ok(lock) ==> lock matches OtpLock::Unlocked(unlocked) && unlocked.data() == secret
                && fresh_lock(unlocked.locked(), secret, password@, Self::DEFAULT_ITERATIONS, Self::DEFAULT_SALT_LENGTH),
            r matches Err(LockError::Argon2(e)) ==> kdf_parameter_error(password@.len(), Self::DEFAULT_SALT_LENGTH as nat, Self::DEFAULT_ITERATIONS, secret.serialized().len()) == Some(e),
            kdf_parameter_error(password@.len(), Self::DEFAULT_SALT_LENGTH as nat, Self::DEFAULT_ITERATIONS, secret.serialized().len()) is Some ==> r is Err,
    {
        Self::new_unlocked(secret, password, Self::DEFAULT_ITERATIONS, Self::DEFAULT_SALT_LENGTH)
    }

    /// Locks `secret` under `password` with a fresh random salt of
    /// `salt_length` bytes; the secret in the clear is overwritten once it is
    /// locked.
    pub fn new_locked(secret: T, password: &[u8], iterations: u32, salt_length: usize) -> (r: Result<Self, LockError>)
        ensures
            r matches Ok(lock) ==> lock matches OtpLock::Locked(locked)
                && fresh_lock(locked, secret, password@, iterations, salt_length),
            r matches Err(LockError::Argon2(e)) ==> kdf_parameter_error(password@.len(), salt_length as nat, iterations, secret.serialized().len()) == Some(e),
            kdf_parameter_error(password@.len(), salt_length as nat, iterations, secret.serialized().len()) is Some ==> r is Err,
    {
        let mut secret = secret;
        let result = match Locked::new(&secret, password, iterations, salt_length) {
            Ok(locked) => locked,
            Err(e) => return Err(e),
        };
        // The secret in the clear is overwritten before it is dropped.
        secret.clear();
        Ok(OtpLock::Locked(result))
    }

    /// `new_locked` with the default passes and salt length.
    pub fn new_locked_with_defaults(secret: T, password: &[u8]) -> (r: Result<Self, LockError>)
        ensures
            r matches Ok(lock) ==> lock matches OtpLock::Locked(locked)
                && fresh_lock(locked, secret, password@, Self::DEFAULT_ITERATIONS, Self::DEFAULT_SALT_LENGTH),
            r matches Err(LockError::Argon2(e)) ==> kdf_parameter_error(password@.len(), Self::DEFAULT_SALT_LENGTH as nat, Self::DEFAULT_ITERATIONS, secret.serialized().len()) == Some(e),
            kdf_parameter_error(password@.len(), Self::DEFAULT_SALT_LENGTH as nat, Self::DEFAULT_ITERATIONS, secret.serialized().len()) is Some ==> r is Err,
    {
        Self::new_locked(secret, password, Self::DEFAULT_ITERATIONS, Self::DEFAULT_SALT_LENGTH)
    }

    /// Whether the secret is locked.
    pub fn is_locked(&self) -> (r: bool)
        ensures
            r == (*self is Locked),
    {
        match self {
            OtpLock::Locked(_) => true,
            _ => false,
        }
    }

    /// Whether the secret is in the clear.
    pub fn is_unlocked(&self) -> (r: bool)
        ensures
            r == (*self is Unlocked),
    {
        !self.is_locked()
    }

    /// Locks the container; a locked one stays as it is.
    pub fn lock(self) -> (r: Self)
        ensures
            r == self.relocked(),
    {
        match self {
            OtpLock::Unlocked(unlocked) => OtpLock::Locked(Unlocked::lock(unlocked)),
            l => l,
        }
    }

    /// The locked container, locking it first where it is unlocked.
    pub fn locked(self) -> (r: Locked<T>)
        ensures
            r == self.locked_part(),
    {
        match self {
            OtpLock::Unlocked(unlocked) => Unlocked::lock(unlocked),
            OtpLock::Locked(locked) => locked,
        }
    }

    /// The unlocked container, or the container itself where it is locked.
    pub fn unlocked(self) -> (r: Result<Unlocked<T>, Self>)
        ensures
            r matches Ok(unlocked) ==> self == OtpLock::Unlocked(unlocked),
            r matches Err(lock) ==> lock == self && self is Locked,
    {
        match self {
            OtpLock::Unlocked(unlocked) => Ok(unlocked),
            l => Err(l),
        }
    }

    /// A reference to the unlocked container, if the secret is in the clear.
    pub fn unlocked_ref(&self) -> (r: Option<&Unlocked<T>>)
        ensures
            r matches Some(unlocked) ==> *self == OtpLock::Unlocked(*unlocked),
            r is None <==> *self is Locked,
    {
        match self {
            OtpLock::Unlocked(unlocked) => Some(unlocked),
            _ => None,
        }
    }
}

impl<T: Clear + Deserialize + Serialize> core::ops::Deref for Unlocked<T> {
    type Target = T;

    fn deref(&self) -> (r: &T)
        ensures
            *r == self.data(),
    {
        &self.data
    }
}

/// Encrypting twice with the same password, salt and passes gives back the
/// plaintext: where `Locked::otp` pads `secret` into `c`, padding `c` gives
/// `secret` back.
pub proof fn lemma_otp_involution(secret: Seq<u8>, password: Seq<u8>, iterations: u32, salt: Seq<u8>)
    requires
        otp_result(secret, password, iterations, salt) is Ok,
    ensures
        otp_result(otp_result(secret, password, iterations, salt)->Ok_0, password, iterations, salt)
            == Ok::<Seq<u8>, Argon2Error>(secret),
{
    let key = kdf_result(password, salt, iterations, secret.len())->Ok_0;
    lemma_xor_involution(key, secret);
}

/// A container locked from `secret` unlocks, with the same password, to the
/// value that the secret's own bytes decode to.
pub proof fn lemma_unlock_after_lock<T: Clear + Deserialize + Serialize>(
    locked: Locked<T>,
    secret: T,
    password: Seq<u8>,
    iterations: u32,
    salt_length: usize,
)
    requires
        fresh_lock(locked, secret, password, iterations, salt_length),
    ensures
        locked.plaintext(password) == Ok::<Seq<u8>, Argon2Error>(secret.serialized()),
        locked.unlocked_value(password) == T::deserialized(secret.serialized()),
{
    lemma_otp_involution(secret.serialized(), password, iterations, locked.salt());
}

/// A locked `u64` unlocks, with the same password, to itself.
pub proof fn lemma_unlock_after_lock_u64(
    locked: Locked<u64>,
    secret: u64,
    password: Seq<u8>,
    iterations: u32,
    salt_length: usize,
)
    requires
        fresh_lock(locked, secret, password, iterations, salt_length),
    ensures
        locked.unlocked_value(password) == Some(secret),
{
    lemma_unlock_after_lock(locked, secret, password, iterations, salt_length);
    lemma_u64_roundtrip(secret);
}

/// Locking always leaves the container locked, and locking it again changes nothing.
pub proof fn lemma_relock_idempotent<T: Clear + Deserialize + Serialize>(lock: OtpLock<T>)
    ensures
        lock.relocked() is Locked,
        lock.relocked().relocked() == lock.relocked(),
        lock.relocked().locked_part() == lock.locked_part(),
{
}

} // verus!
