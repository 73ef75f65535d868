use nimiq_core::kdf::{compute_argon2_kdf, Argon2Error};
use nimiq_core::networks::NetworkId;
use nimiq_core::serialization::{Deserialize, Serialize};

const ALL: [NetworkId; 5] = [NetworkId::Test, NetworkId::Dev, NetworkId::Bounty, NetworkId::Dummy, NetworkId::Main];

#[test]
fn network_bytes() {
    assert_eq!(NetworkId::Test.to_u8(), 1);
    assert_eq!(NetworkId::Dev.to_u8(), 2);
    assert_eq!(NetworkId::Bounty.to_u8(), 3);
    assert_eq!(NetworkId::Dummy.to_u8(), 4);
    assert_eq!(NetworkId::Main.to_u8(), 42);
}

#[test]
fn network_from_bytes() {
    for id in ALL.iter() {
        assert_eq!(NetworkId::from_u8(id.to_u8()), Some(*id));
    }
    assert_eq!(NetworkId::from_u8(0), None);
    assert_eq!(NetworkId::from_u8(5), None);
    assert_eq!(NetworkId::from_u8(41), None);
    assert_eq!(NetworkId::from_u8(255), None);
}

#[test]
fn network_names() {
    assert_eq!(NetworkId::Test.to_string(), "Test");
    assert_eq!(NetworkId::Dev.to_string(), "Dev");
    assert_eq!(NetworkId::Bounty.to_string(), "Bounty");
    assert_eq!(NetworkId::Dummy.to_string(), "Dummy");
    assert_eq!(NetworkId::Main.to_string(), "Main");
}

#[test]
fn network_order_follows_the_bytes() {
    assert!(NetworkId::Test < NetworkId::Dev);
    assert!(NetworkId::Dev < NetworkId::Bounty);
    assert!(NetworkId::Bounty < NetworkId::Dummy);
    assert!(NetworkId::Dummy < NetworkId::Main);
}

#[test]
fn network_encoding_is_one_byte() {
    for id in ALL.iter() {
        let bytes = id.serialize_to_vec();
        assert_eq!(bytes, vec![id.to_u8()]);
        assert_eq!(NetworkId::deserialize_from_vec(&bytes), Some(*id));
    }
    assert_eq!(NetworkId::deserialize_from_vec(&vec![]), None);
    assert_eq!(NetworkId::deserialize_from_vec(&vec![7]), None);
    assert_eq!(NetworkId::deserialize_from_vec(&vec![42, 1]), Some(NetworkId::Main));
}

#[test]
fn kdf_is_deterministic_and_sized() {
    let a = compute_argon2_kdf(b"password", b"saltsaltsalt", 1, 40).expect("valid parameters");
    let b = compute_argon2_kdf(b"password", b"saltsaltsalt", 1, 40).expect("valid parameters");
    assert_eq!(a.len(), 40);
    assert_eq!(a, b);
    let c = compute_argon2_kdf(b"password", b"othersaltsalt", 1, 40).expect("valid parameters");
    assert_ne!(a, c);
    let d = compute_argon2_kdf(b"password", b"saltsaltsalt", 2, 40).expect("valid parameters");
    assert_ne!(a, d);
    assert_ne!(&a[..8], &b"password"[..]);
}

#[test]
fn kdf_refuses_bad_parameters() {
    assert_eq!(compute_argon2_kdf(b"pw", b"saltsalt", 0, 32), Err(Argon2Error::TimeTooSmall));
    assert_eq!(compute_argon2_kdf(b"pw", b"saltsalt", 1, 3), Err(Argon2Error::OutputTooShort));
    assert_eq!(compute_argon2_kdf(b"pw", b"salt", 1, 32), Err(Argon2Error::SaltTooShort));
    assert_eq!(compute_argon2_kdf(b"pw", b"salt", 0, 3), Err(Argon2Error::TimeTooSmall));
    assert_eq!(compute_argon2_kdf(b"", b"saltsalt", 1, 4).map(|k| k.len()), Ok(4));
}
