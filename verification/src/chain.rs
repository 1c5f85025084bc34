//! The networks this library knows, with their fork versions and builder
//! domains.

use vstd::prelude::*;

verus! {

/// Genesis fork version of the main network.
pub const MAINNET_FORK_VERSION: [u8; 4] = [0, 0, 0, 0];

/// Genesis fork version of the Holesky test network.
pub const HOLESKY_FORK_VERSION: [u8; 4] = [1, 1, 112, 0];

/// Genesis fork version of the Sepolia test network.
pub const SEPOLIA_FORK_VERSION: [u8; 4] = [144, 0, 0, 105];

/// Genesis fork version of the Helder test network.
pub const HELDER_FORK_VERSION: [u8; 4] = [16, 0, 0, 0];

/// Builder domain of the main network.
pub const MAINNET_BUILDER_DOMAIN: [u8; 32] = [
    0, 0, 0, 1, 245, 165, 253, 66, 209, 106, 32, 48, 39, 152, 239, 110, 211, 9, 151, 155, 67, 0,
    61, 35, 32, 217, 240, 232, 234, 152, 49, 169,
];

/// Builder domain of the Holesky test network.
pub const HOLESKY_BUILDER_DOMAIN: [u8; 32] = [
    0, 0, 0, 1, 91, 131, 162, 55, 89, 197, 96, 178, 208, 198, 69, 118, 225, 220, 252, 52, 234,
    148, 196, 152, 143, 62, 13, 159, 119, 240, 83, 135,
];

/// Builder domain of the Sepolia test network.
pub const SEPOLIA_BUILDER_DOMAIN: [u8; 32] = [
    0, 0, 0, 1, 211, 1, 7, 120, 205, 8, 238, 81, 75, 8, 254, 103, 182, 197, 3, 181, 16, 152, 122,
    76, 228, 63, 66, 48, 109, 151, 198, 124,
];

/// Builder domain of the Helder test network.
pub const HELDER_BUILDER_DOMAIN: [u8; 32] = [
    0, 0, 0, 1, 148, 196, 26, 244, 132, 255, 247, 150, 73, 105, 224, 189, 217, 34, 248, 45, 255,
    15, 75, 232, 122, 96, 208, 102, 76, 201, 209, 255,
];

/// A network. The set is closed: a new network needs a new variant, with its
/// fork version and builder domain.
#[derive(Clone, Copy, Debug, PartialEq, Eq, Structural)]
pub enum Chain {
    Mainnet,
    Holesky,
    Sepolia,
    Helder,
}

impl Chain {
    /// The four bytes of the network's genesis fork version.
    pub open spec fn fork_version(self) -> Seq<u8> {
        match self {
            Chain::Mainnet => MAINNET_FORK_VERSION@,
            Chain::Holesky => HOLESKY_FORK_VERSION@,
            Chain::Sepolia => SEPOLIA_FORK_VERSION@,
            Chain::Helder => HELDER_FORK_VERSION@,
        }
    }

    /// The 32 bytes recorded as the network's builder domain.
    pub open spec fn recorded_builder_domain(self) -> Seq<u8> {
        match self {
            Chain::Mainnet => MAINNET_BUILDER_DOMAIN@,
            Chain::Holesky => HOLESKY_BUILDER_DOMAIN@,
            Chain::Sepolia => SEPOLIA_BUILDER_DOMAIN@,
            Chain::Helder => HELDER_BUILDER_DOMAIN@,
        }
    }

    /// The network's genesis fork version.
    pub fn genesis_fork_version(&self) -> (version: [u8; 4])
        ensures
            version@ == self.fork_version(),
    {
        match self {
            Chain::Mainnet => MAINNET_FORK_VERSION,
            Chain::Holesky => HOLESKY_FORK_VERSION,
            Chain::Sepolia => SEPOLIA_FORK_VERSION,
            Chain::Helder => HELDER_FORK_VERSION,
        }
    }

    /// The network's builder domain, as recorded. Its first four bytes are
    /// the builder domain-type mask.
    pub fn builder_domain(&self) -> (domain: [u8; 32])
        ensures
            domain@ == self.recorded_builder_domain(),
            domain@.subrange(0, 4) == crate::constants::APPLICATION_BUILDER_DOMAIN@,
    {
        let domain = match self {
            Chain::Mainnet => MAINNET_BUILDER_DOMAIN,
            Chain::Holesky => HOLESKY_BUILDER_DOMAIN,
            Chain::Sepolia => SEPOLIA_BUILDER_DOMAIN,
            Chain::Helder => HELDER_BUILDER_DOMAIN,
        };
        assert(domain@.subrange(0, 4) =~= crate::constants::APPLICATION_BUILDER_DOMAIN@);
        domain
    }
}

} // verus!
