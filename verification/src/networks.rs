use vstd::prelude::*;

verus! {

/// The network a node belongs to.
#[derive(Clone, Copy, Debug, PartialEq, Eq, Structural, PartialOrd, Ord, Hash)]
pub enum NetworkId {
    Test,
    Dev,
    Bounty,
    Dummy,
    Main,
}

/// The byte that stands for each network on the wire.
pub open spec fn network_id_byte(id: NetworkId) -> u8 {
    match id {
        NetworkId::Test => 1,
        NetworkId::Dev => 2,
        NetworkId::Bounty => 3,
        NetworkId::Dummy => 4,
        NetworkId::Main => 42,
    }
}

/// The network whose byte is `b`, if there is one.
pub open spec fn network_id_of_byte(b: u8) -> Option<NetworkId> {
    if b == 1 {
        Some(NetworkId::Test)
    } else if b == 2 {
        Some(NetworkId::Dev)
    } else if b == 3 {
        Some(NetworkId::Bounty)
    } else if b == 4 {
        Some(NetworkId::Dummy)
    } else if b == 42 {
        Some(NetworkId::Main)
    } else {
        None
    }
}

/// The name of each network, as it is displayed.
pub open spec fn network_name(id: NetworkId) -> Seq<char> {
    match id {
        NetworkId::Test => "Test"@,
        NetworkId::Dev => "Dev"@,
        NetworkId::Bounty => "Bounty"@,
        NetworkId::Dummy => "Dummy"@,
        NetworkId::Main => "Main"@,
    }
}

impl NetworkId {
    /// The displayed name of the network.
    pub fn to_string(&self) -> (r: String)
        ensures
            r@ == network_name(*self),
    {
        match self {
            NetworkId::Test => String::from_str("Test"),
            NetworkId::Dev => String::from_str("Dev"),
            NetworkId::Bounty => String::from_str("Bounty"),
            NetworkId::Dummy => String::from_str("Dummy"),
            NetworkId::Main => String::from_str("Main"),
        }
    }

    /// The wire byte of this network.
    pub fn to_u8(self) -> (b: u8)
        ensures
            b == network_id_byte(self),
    {
        match self {
            NetworkId::Test => 1,
            NetworkId::Dev => 2,
            NetworkId::Bounty => 3,
            NetworkId::Dummy => 4,
            NetworkId::Main => 42,
        }
    }

    /// The network whose wire byte is `b`; `None` for any other byte.
    pub fn from_u8(b: u8) -> (r: Option<NetworkId>)
        ensures
            r == network_id_of_byte(b),
    {
        if b == 1 {
            Some(NetworkId::Test)
        } else if b == 2 {
            Some(NetworkId::Dev)
        } else if b == 3 {
            Some(NetworkId::Bounty)
        } else if b == 4 {
            Some(NetworkId::Dummy)
        } else if b == 42 {
            Some(NetworkId::Main)
        } else {
            None
        }
    }
}

/// Every network survives the trip to its byte and back.
pub proof fn lemma_network_id_byte_roundtrip(id: NetworkId)
    ensures
        network_id_of_byte(network_id_byte(id)) == Some(id),
{
}

/// A byte that names a network is the byte of that network.
pub proof fn lemma_network_id_byte_unique(b: u8)
    ensures
        network_id_of_byte(b) matches Some(id) ==> network_id_byte(id) == b,
{
}

} // verus!
