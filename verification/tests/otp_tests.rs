use nimiq_core::clear::Clear;
use nimiq_core::kdf::Argon2Error;
use nimiq_core::kdf::compute_argon2_kdf;
use nimiq_core::otp::{xor_pad, LockError, Locked, OtpLock, Unlocked};
use nimiq_core::serialization::{Deserialize, Serialize};

const PASSWORD: &[u8] = b"correct horse battery staple";

fn locked_u64(secret: u64) -> OtpLock<u64> {
    OtpLock::new_locked(secret, PASSWORD, 2, 16).expect("locking succeeds")
}

#[test]
fn lock_then_unlock_gives_back_the_secret() {
    let lock = locked_u64(0x0123_4567_89ab_cdef);
    assert!(lock.is_locked());
    let unlocked = lock.locked().unlock_unchecked(PASSWORD).ok().expect("right password unlocks");
    assert_eq!(*unlocked, 0x0123_4567_89ab_cdef);
    assert_eq!(Unlocked::into_unlocked_data(unlocked), 0x0123_4567_89ab_cdef);
}

#[test]
fn wrong_password_does_not_give_back_the_secret() {
    let lock = locked_u64(42);
    match lock.locked().unlock_unchecked(b"wrong password") {
        Ok(unlocked) => assert_ne!(*unlocked, 42),
        Err(_) => {}
    }
}

#[test]
fn new_unlocked_keeps_the_secret_in_the_clear() {
    let lock = OtpLock::new_unlocked(7u64, PASSWORD, 1, 8).expect("locking succeeds");
    assert!(lock.is_unlocked());
    assert!(!lock.is_locked());
    assert_eq!(**lock.unlocked_ref().expect("unlocked"), 7);
    let locked = lock.lock();
    assert!(locked.is_locked());
    assert!(locked.unlocked_ref().is_none());
    let again = locked.locked().unlock_unchecked(PASSWORD).ok().expect("unlocks");
    assert_eq!(*again, 7);
}

#[test]
fn defaults_lock_and_unlock() {
    assert_eq!(OtpLock::<u64>::DEFAULT_ITERATIONS, 256);
    assert_eq!(OtpLock::<u64>::DEFAULT_SALT_LENGTH, 32);
    let lock = OtpLock::new_locked_with_defaults(99u64, PASSWORD).expect("locking succeeds");
    let unlocked = lock.locked().unlock_unchecked(PASSWORD).ok().expect("unlocks");
    assert_eq!(*unlocked, 99);
    let lock = OtpLock::new_unlocked_with_defaults(5u64, PASSWORD).expect("locking succeeds");
    assert_eq!(*lock.unlocked().ok().expect("unlocked"), 5);
}

#[test]
fn relocking_gives_back_the_same_container() {
    let locked = locked_u64(1234).locked();
    let unlocked = locked.unlock_unchecked(PASSWORD).ok().expect("unlocks");
    let relocked: Locked<u64> = Unlocked::lock(unlocked);
    let unlocked = relocked.unlock_unchecked(PASSWORD).ok().expect("unlocks again");
    assert_eq!(*unlocked, 1234);
    let generic = Unlocked::into_otp_lock(unlocked);
    assert!(generic.is_unlocked());
    let locked = generic.locked();
    assert!(locked.into_otp_lock().is_locked());
}

#[test]
fn unlocked_of_a_locked_container_gives_it_back() {
    let lock = locked_u64(3);
    match lock.unlocked() {
        Ok(_) => panic!("a locked container is not unlocked"),
        Err(l) => assert!(l.is_locked()),
    }
}

#[test]
fn short_salt_is_refused() {
    match OtpLock::new_locked(1u64, PASSWORD, 1, 4) {
        Err(e) => assert_eq!(e, LockError::Argon2(Argon2Error::SaltTooShort)),
        Ok(_) => panic!("a four byte salt is refused"),
    }
}

#[test]
fn zero_iterations_are_refused() {
    match OtpLock::new_unlocked(1u64, PASSWORD, 0, 16) {
        Err(e) => assert_eq!(e, LockError::Argon2(Argon2Error::TimeTooSmall)),
        Ok(_) => panic!("zero passes are refused"),
    }
}

#[test]
fn clear_overwrites_a_word() {
    let mut x: u64 = 0xdead_beef;
    x.clear();
    assert_eq!(x, 0);
}

#[test]
fn u64_encoding_is_big_endian() {
    let bytes = 0x0102_0304_0506_0708u64.serialize_to_vec();
    assert_eq!(bytes, vec![1, 2, 3, 4, 5, 6, 7, 8]);
    assert_eq!(u64::deserialize_from_vec(&bytes), Some(0x0102_0304_0506_0708));
    assert_eq!(u64::deserialize_from_vec(&vec![1, 2, 3]), None);
    assert_eq!(u64::deserialize_from_vec(&vec![0, 0, 0, 0, 0, 0, 0, 9, 77]), Some(9));
}

#[test]
fn xor_pad_xors_byte_by_byte() {
    let mut key = vec![0xff, 0x0f, 0x00, 0xaa];
    xor_pad(&mut key, &[0x0f, 0x0f, 0x12, 0xaa]);
    assert_eq!(key, vec![0xf0, 0x00, 0x12, 0x00]);
    xor_pad(&mut key, &[0x0f, 0x0f, 0x12, 0xaa]);
    assert_eq!(key, vec![0xff, 0x0f, 0x00, 0xaa]);
}

#[test]
fn lock_with_a_given_salt_is_the_pad_of_the_encoding() {
    let salt = b"given salt bytes".to_vec();
    let locked: Locked<u64> = Locked::lock(&0x0102_0304_0506_0708u64, PASSWORD, 1, salt.clone()).ok().expect("locks");
    let mut pad = compute_argon2_kdf(PASSWORD, &salt, 1, 8).expect("valid parameters");
    xor_pad(&mut pad, &[1, 2, 3, 4, 5, 6, 7, 8]);
    let again: Locked<u64> = Locked::lock(&0x0102_0304_0506_0708u64, PASSWORD, 1, salt).ok().expect("locks");
    let unlocked = again.unlock_unchecked(PASSWORD).ok().expect("unlocks");
    assert_eq!(*unlocked, 0x0102_0304_0506_0708);
    let unlocked = locked.unlock_unchecked(PASSWORD).ok().expect("unlocks");
    assert_eq!(*unlocked, 0x0102_0304_0506_0708);
    assert_ne!(pad, vec![1, 2, 3, 4, 5, 6, 7, 8]);
    match Locked::<u64>::lock(&1u64, PASSWORD, 1, b"short".to_vec()) {
        Err(e) => assert_eq!(e, Argon2Error::SaltTooShort),
        Ok(_) => panic!("a five byte salt is refused"),
    }
}

#[test]
fn otp_applied_twice_gives_the_input_back() {
    let secret = [9u8, 8, 7, 6, 5, 4, 3, 2, 1];
    let salt = b"pad twice salt";
    let pad = Locked::<u64>::otp(&secret, PASSWORD, 1, salt).expect("valid parameters");
    assert_eq!(pad.len(), secret.len());
    assert_ne!(pad, secret.to_vec());
    let back = Locked::<u64>::otp(&pad, PASSWORD, 1, salt).expect("valid parameters");
    assert_eq!(back, secret.to_vec());
    assert_eq!(Locked::<u64>::otp(&secret, PASSWORD, 1, b"short"), Err(Argon2Error::SaltTooShort));
}
