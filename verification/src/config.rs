use vstd::prelude::*;

verus! {

/// The per-daemon slice of the configuration record: the local RPC port the
/// daemon listens on.
#[derive(Clone, Copy, PartialEq, Eq, Structural, Debug)]
pub struct NodeSection {
    pub port: u16,
}

/// Fields shared by the five basic-auth daemons: one credential pair reused
/// for all of them.
pub struct SharedSection {
    pub rpcuser: String,
    pub rpcpassword: String,
}

/// The immutable, already-parsed configuration record: one section per
/// daemon plus the shared defaults. Loaded once at startup and read-only for
/// the process lifetime.
pub struct Configuration {
    pub main: NodeSection,
    pub testchain: NodeSection,
    pub bitassets: NodeSection,
    pub bitnames: NodeSection,
    pub zcash: NodeSection,
    pub ethereum: NodeSection,
    pub shared: SharedSection,
}

/// Mathematical model of the configuration record.
pub struct ConfigurationModel {
    pub main_port: u16,
    pub testchain_port: u16,
    pub bitassets_port: u16,
    pub bitnames_port: u16,
    pub zcash_port: u16,
    pub ethereum_port: u16,
    pub rpcuser: Seq<char>,
    pub rpcpassword: Seq<char>,
}

impl View for Configuration {
    type V = ConfigurationModel;

    open spec fn view(&self) -> ConfigurationModel {
        ConfigurationModel {
            main_port: self.main.port,
            testchain_port: self.testchain.port,
            bitassets_port: self.bitassets.port,
            bitnames_port: self.bitnames.port,
            zcash_port: self.zcash.port,
            ethereum_port: self.ethereum.port,
            rpcuser: self.shared.rpcuser@,
            rpcpassword: self.shared.rpcpassword@,
        }
    }
}

impl Configuration {
    /// An exact copy of the record: the copy and its source model
    /// identically.
    pub fn duplicate(&self) -> (r: Configuration)
        ensures
            r@ == self@,
    {
        Configuration {
            main: self.main,
            testchain: self.testchain,
            bitassets: self.bitassets,
            bitnames: self.bitnames,
            zcash: self.zcash,
            ethereum: self.ethereum,
            shared: SharedSection {
                rpcuser: self.shared.rpcuser.clone(),
                rpcpassword: self.shared.rpcpassword.clone(),
            },
        }
    }
}

} // verus!
