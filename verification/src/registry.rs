use vstd::prelude::*;
use vstd::string::StringExecFns;

use crate::config::{Configuration, ConfigurationModel};
use crate::daemon::{
    Credentials, CredentialsModel, DaemonDescriptor, DaemonKind, DescriptorModel, Dialect,
};

verus! {

/// The request-id tag stamped on every classic-dialect request.
pub open spec fn request_tag() -> Seq<char> {
    "switchboard-gui"@
}

/// Every daemon is reached over local loopback.
pub open spec fn loopback_host() -> Seq<char> {
    "localhost"@
}

/// The port the configuration record assigns to a daemon.
pub open spec fn configured_port(kind: DaemonKind, c: ConfigurationModel) -> u16 {
    match kind {
        DaemonKind::Mainchain => c.main_port,
        DaemonKind::Testchain => c.testchain_port,
        DaemonKind::Bitassets => c.bitassets_port,
        DaemonKind::Bitnames => c.bitnames_port,
        DaemonKind::Zcash => c.zcash_port,
        DaemonKind::Ethereum => c.ethereum_port,
    }
}

/// The one descriptor that a configuration record determines for a daemon:
/// loopback host, the configured port, and for the five classic-dialect
/// daemons the shared credential pair and the fixed request-id tag. The
/// Ethereum-compatible daemon speaks plain HTTP JSON-RPC with neither.
pub open spec fn descriptor_for(kind: DaemonKind, c: ConfigurationModel) -> DescriptorModel {
    DescriptorModel {
        kind: kind,
        host: loopback_host(),
        port: configured_port(kind, c),
        credentials: if kind is Ethereum {
            None
        } else {
            Some(CredentialsModel { user: c.rpcuser, password: c.rpcpassword })
        },
        dialect: if kind is Ethereum {
            Dialect::PlainHttpJsonRpc
        } else {
            Dialect::BasicAuthJsonRpc
        },
        request_id: if kind is Ethereum {
            None
        } else {
            Some(request_tag())
        },
    }
}

/// One RPC client descriptor per daemon, built once from the configuration
/// record and held for the process lifetime. Construction never touches the
/// network: a daemon may still be starting when its descriptor is built.
pub struct Registry {
    pub main: DaemonDescriptor,
    pub testchain: DaemonDescriptor,
    pub bitassets: DaemonDescriptor,
    pub bitnames: DaemonDescriptor,
    pub zcash: DaemonDescriptor,
    pub ethereum: DaemonDescriptor,
}

impl Registry {
    /// The descriptor the registry holds for a daemon.
    pub open spec fn spec_client(&self, kind: DaemonKind) -> DescriptorModel {
        match kind {
            DaemonKind::Mainchain => self.main@,
            DaemonKind::Testchain => self.testchain@,
            DaemonKind::Bitassets => self.bitassets@,
            DaemonKind::Bitnames => self.bitnames@,
            DaemonKind::Zcash => self.zcash@,
            DaemonKind::Ethereum => self.ethereum@,
        }
    }

    /// The registry is exactly what the configuration record determines.
    pub open spec fn built_from(&self, c: ConfigurationModel) -> bool {
        forall|kind: DaemonKind| #[trigger] self.spec_client(kind) == descriptor_for(kind, c)
    }

    /// Builds the six descriptors from the configuration record.
    pub fn build(config: &Configuration) -> (r: Registry)
        ensures
            r.built_from(config@),
    {
        let r = Registry {
            main: Self::classic_descriptor(DaemonKind::Mainchain, config.main.port, config),
            testchain: Self::classic_descriptor(
                DaemonKind::Testchain,
                config.testchain.port,
                config,
            ),
            bitassets: Self::classic_descriptor(
                DaemonKind::Bitassets,
                config.bitassets.port,
                config,
            ),
            bitnames: Self::classic_descriptor(DaemonKind::Bitnames, config.bitnames.port, config),
            zcash: Self::classic_descriptor(DaemonKind::Zcash, config.zcash.port, config),
            ethereum: DaemonDescriptor {
                kind: DaemonKind::Ethereum,
                host: String::from_str("localhost"),
                port: config.ethereum.port,
                credentials: None,
                dialect: Dialect::PlainHttpJsonRpc,
                request_id: None,
            },
        };
        assert forall|kind: DaemonKind| #[trigger] r.spec_client(kind) == descriptor_for(
            kind,
            config@,
        ) by {
            match kind {
                DaemonKind::Mainchain => {}
                DaemonKind::Testchain => {}
                DaemonKind::Bitassets => {}
                DaemonKind::Bitnames => {}
                DaemonKind::Zcash => {}
                DaemonKind::Ethereum => {}
            }
        }
        r
    }

    fn classic_descriptor(kind: DaemonKind, port: u16, config: &Configuration) -> (r:
        DaemonDescriptor)
        requires
            !(kind is Ethereum),
        ensures
            r@ == (DescriptorModel {
                kind: kind,
                host: loopback_host(),
                port: port,
                credentials: Some(
                    CredentialsModel {
                        user: config@.rpcuser,
                        password: config@.rpcpassword,
                    },
                ),
                dialect: Dialect::BasicAuthJsonRpc,
                request_id: Some(request_tag()),
            }),
    {
        DaemonDescriptor {
            kind,
            host: String::from_str("localhost"),
            port,
            credentials: Some(
                Credentials {
                    user: config.shared.rpcuser.clone(),
                    password: config.shared.rpcpassword.clone(),
                },
            ),
            dialect: Dialect::BasicAuthJsonRpc,
            request_id: Some(String::from_str("switchboard-gui")),
        }
    }

    /// Routes a daemon key to the one registered descriptor for it: the
    /// dispatcher's selection step, total over the closed key set.
    pub fn client(&self, kind: DaemonKind) -> (r: &DaemonDescriptor)
        ensures
            r@ == self.spec_client(kind),
    {
        match kind {
            DaemonKind::Mainchain => &self.main,
            DaemonKind::Testchain => &self.testchain,
            DaemonKind::Bitassets => &self.bitassets,
            DaemonKind::Bitnames => &self.bitnames,
            DaemonKind::Zcash => &self.zcash,
            DaemonKind::Ethereum => &self.ethereum,
        }
    }
}

/// The character for one decimal digit.
pub open spec fn digit_char(d: int) -> char {
    if d == 0 {
        '0'
    } else if d == 1 {
        '1'
    } else if d == 2 {
        '2'
    } else if d == 3 {
        '3'
    } else if d == 4 {
        '4'
    } else if d == 5 {
        '5'
    } else if d == 6 {
        '6'
    } else if d == 7 {
        '7'
    } else if d == 8 {
        '8'
    } else {
        '9'
    }
}

/// The usual decimal rendering of a non-negative number, most significant
/// digit first, no leading zeroes.
pub open spec fn decimal_of(n: int) -> Seq<char>
    decreases n,
{
    if n < 10 {
        seq![digit_char(n)]
    } else {
        decimal_of(n / 10) + seq![digit_char(n % 10)]
    }
}

/// The HTTP URL at which a descriptor's daemon serves JSON-RPC.
pub open spec fn endpoint_text(host: Seq<char>, port: u16) -> Seq<char> {
    "http://"@ + host + ":"@ + decimal_of(port as int)
}

fn digit_str(d: u16) -> (r: &'static str)
    requires
        d < 10,
    ensures
        r@ == seq![digit_char(d as int)],
{
    match d {
        0 => {
            proof {
                reveal_strlit("0");
            }
            "0"
        }
        1 => {
            proof {
                reveal_strlit("1");
            }
            "1"
        }
        2 => {
            proof {
                reveal_strlit("2");
            }
            "2"
        }
        3 => {
            proof {
                reveal_strlit("3");
            }
            "3"
        }
        4 => {
            proof {
                reveal_strlit("4");
            }
            "4"
        }
        5 => {
            proof {
                reveal_strlit("5");
            }
            "5"
        }
        6 => {
            proof {
                reveal_strlit("6");
            }
            "6"
        }
        7 => {
            proof {
                reveal_strlit("7");
            }
            "7"
        }
        8 => {
            proof {
                reveal_strlit("8");
            }
            "8"
        }
        _ => {
            proof {
                reveal_strlit("9");
            }
            "9"
        }
    }
}

fn push_decimal(n: u16, out: &mut String)
    ensures
        final(out)@ == old(out)@ + decimal_of(n as int),
    decreases n,
{
    if n >= 10 {
        push_decimal(n / 10, out);
    }
    out.append(digit_str(n % 10));
    proof {
        assert(out@ =~= old(out)@ + decimal_of(n as int));
    }
}

/// The decimal rendering of a port number.
pub fn decimal_string(n: u16) -> (r: String)
    ensures
        r@ == decimal_of(n as int),
{
    let mut s = String::new();
    push_decimal(n, &mut s);
    proof {
        assert(s@ =~= decimal_of(n as int));
    }
    s
}

/// Builds the HTTP endpoint URL for a descriptor's daemon.
pub fn rpc_endpoint(descriptor: &DaemonDescriptor) -> (r: String)
    ensures
        r@ == endpoint_text(descriptor.host@, descriptor.port),
{
    let mut s = String::from_str("http://");
    s.append(descriptor.host.as_str());
    s.append(":");
    let port = decimal_string(descriptor.port);
    s.append(port.as_str());
    proof {
        assert(s@ =~= endpoint_text(descriptor.host@, descriptor.port));
    }
    s
}

/// Registry construction is a function of the configuration record's fields
/// alone: two records that model identically - in particular, one written to
/// the external store and reloaded unchanged - determine identical
/// registries, descriptor by descriptor.
pub proof fn lemma_registry_round_trip(a: Registry, b: Registry, c1: Configuration, c2: Configuration)
    requires
        c1@ == c2@,
        a.built_from(c1@),
        b.built_from(c2@),
    ensures
        forall|kind: DaemonKind| #[trigger] a.spec_client(kind) == b.spec_client(kind),
{
}

} // verus!
