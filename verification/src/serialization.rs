use vstd::prelude::*;
use crate::networks::{NetworkId, network_id_byte, network_id_of_byte};

verus! {

/// A value with a byte encoding.
pub trait Serialize {
    /// The bytes that encode `self`.
    spec fn serialized(&self) -> Seq<u8>;

    /// Encodes `self` into a fresh vector.
    fn serialize_to_vec(&self) -> (bytes: Vec<u8>)
        ensures
            bytes@ == self.serialized(),
    ;
}

/// A value that can be read back from bytes.
pub trait Deserialize: Sized {
    /// The value that `bytes` encode, or `None` where they encode none.
    spec fn deserialized(bytes: Seq<u8>) -> Option<Self>;

    /// Decodes a value from the front of `bytes`.
    fn deserialize_from_vec(bytes: &Vec<u8>) -> (r: Option<Self>)
        ensures
            r == Self::deserialized(bytes@),
    ;
}

/// Big-endian bytes of a `u64`.
pub open spec fn u64_be_bytes(x: u64) -> Seq<u8> {
    seq![
        (x >> 56u64) as u8,
        (x >> 48u64) as u8,
        (x >> 40u64) as u8,
        (x >> 32u64) as u8,
        (x >> 24u64) as u8,
        (x >> 16u64) as u8,
        (x >> 8u64) as u8,
        x as u8,
    ]
}

/// The `u64` whose big-endian bytes are `b0` to `b7`.
pub open spec fn u64_from_be(b0: u8, b1: u8, b2: u8, b3: u8, b4: u8, b5: u8, b6: u8, b7: u8) -> u64 {
    ((b0 as u64) << 56u64) | ((b1 as u64) << 48u64) | ((b2 as u64) << 40u64) | ((b3 as u64)
        << 32u64) | ((b4 as u64) << 24u64) | ((b5 as u64) << 16u64) | ((b6 as u64) << 8u64) | (
    b7 as u64)
}

impl Serialize for u64 {
    open spec fn serialized(&self) -> Seq<u8> {
        u64_be_bytes(*self)
    }

    fn serialize_to_vec(&self) -> (bytes: Vec<u8>) {
        let x: u64 = *self;
        let mut v: Vec<u8> = Vec::new();
        v.push((x >> 56u64) as u8);
        v.push((x >> 48u64) as u8);
        v.push((x >> 40u64) as u8);
        v.push((x >> 32u64) as u8);
        v.push((x >> 24u64) as u8);
        v.push((x >> 16u64) as u8);
        v.push((x >> 8u64) as u8);
        v.push(x as u8);
        assert(v@ =~= u64_be_bytes(x));
        v
    }
}

impl Deserialize for u64 {
    open spec fn deserialized(bytes: Seq<u8>) -> Option<u64> {
        if bytes.len() >= 8 {
            Some(
                u64_from_be(
                    bytes[0],
                    bytes[1],
                    bytes[2],
                    bytes[3],
                    bytes[4],
                    bytes[5],
                    bytes[6],
                    bytes[7],
                ),
            )
        } else {
            None
        }
    }

    fn deserialize_from_vec(bytes: &Vec<u8>) -> (r: Option<u64>) {
        if bytes.len() >= 8 {
            Some(
                ((bytes[0] as u64) << 56u64) | ((bytes[1] as u64) << 48u64) | ((bytes[2] as u64)
                    << 40u64) | ((bytes[3] as u64) << 32u64) | ((bytes[4] as u64) << 24u64) | ((
                bytes[5] as u64) << 16u64) | ((bytes[6] as u64) << 8u64) | (bytes[7] as u64),
            )
        } else {
            None
        }
    }
}

/// A `u64` read back from its own encoding is the same `u64`.
pub proof fn lemma_u64_roundtrip(x: u64)
    ensures
        <u64 as Deserialize>::deserialized(x.serialized()) == Some(x),
{
    let b = u64_be_bytes(x);
    assert(u64_from_be(b[0], b[1], b[2], b[3], b[4], b[5], b[6], b[7]) == x) by {
        assert(u64_from_be(
            (x >> 56u64) as u8,
            (x >> 48u64) as u8,
            (x >> 40u64) as u8,
            (x >> 32u64) as u8,
            (x >> 24u64) as u8,
            (x >> 16u64) as u8,
            (x >> 8u64) as u8,
            x as u8,
        ) == x) by (bit_vector);
    }
}

impl Serialize for NetworkId {
    open spec fn serialized(&self) -> Seq<u8> {
        seq![network_id_byte(*self)]
    }

    fn serialize_to_vec(&self) -> (bytes: Vec<u8>) {
        let mut v: Vec<u8> = Vec::new();
        v.push(self.to_u8());
        assert(v@ =~= seq![network_id_byte(*self)]);
        v
    }
}

impl Deserialize for NetworkId {
    open spec fn deserialized(bytes: Seq<u8>) -> Option<NetworkId> {
        if bytes.len() >= 1 {
            network_id_of_byte(bytes[0])
        } else {
            None
        }
    }

    fn deserialize_from_vec(bytes: &Vec<u8>) -> (r: Option<NetworkId>) {
        if bytes.len() >= 1 {
            NetworkId::from_u8(bytes[0])
        } else {
            None
        }
    }
}

/// A network identifier read back from its own encoding is the same identifier.
pub proof fn lemma_network_id_roundtrip(id: NetworkId)
    ensures
        NetworkId::deserialized(id.serialized()) == Some(id),
{
}

} // verus!
