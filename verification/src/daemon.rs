use vstd::prelude::*;

verus! {

/// The closed set of six daemons managed by this orchestration layer.
#[derive(Clone, Copy, PartialEq, Eq, Structural, Debug)]
pub enum DaemonKind {
    Mainchain,
    Testchain,
    Bitassets,
    Bitnames,
    Zcash,
    Ethereum,
}

/// The RPC conventions a daemon speaks: five daemons use classic JSON-RPC
/// with HTTP basic authentication; the Ethereum-compatible daemon uses plain
/// HTTP JSON-RPC without the basic-auth scheme.
#[derive(Clone, Copy, PartialEq, Eq, Structural, Debug)]
pub enum Dialect {
    BasicAuthJsonRpc,
    PlainHttpJsonRpc,
}

/// A basic-auth user/password pair.
pub struct Credentials {
    pub user: String,
    pub password: String,
}

/// Mathematical model of a credential pair.
pub struct CredentialsModel {
    pub user: Seq<char>,
    pub password: Seq<char>,
}

impl View for Credentials {
    type V = CredentialsModel;

    open spec fn view(&self) -> CredentialsModel {
        CredentialsModel { user: self.user@, password: self.password@ }
    }
}

/// Everything needed to reach one daemon's RPC endpoint. Immutable once
/// constructed; an RPC client is bound to exactly one descriptor.
pub struct DaemonDescriptor {
    pub kind: DaemonKind,
    pub host: String,
    pub port: u16,
    pub credentials: Option<Credentials>,
    pub dialect: Dialect,
    pub request_id: Option<String>,
}

/// Mathematical model of a daemon descriptor.
pub struct DescriptorModel {
    pub kind: DaemonKind,
    pub host: Seq<char>,
    pub port: u16,
    pub credentials: Option<CredentialsModel>,
    pub dialect: Dialect,
    pub request_id: Option<Seq<char>>,
}

impl View for DaemonDescriptor {
    type V = DescriptorModel;

    open spec fn view(&self) -> DescriptorModel {
        DescriptorModel {
            kind: self.kind,
            host: self.host@,
            port: self.port,
            credentials: match self.credentials {
                Some(c) => Some(c@),
                None => None,
            },
            dialect: self.dialect,
            request_id: match self.request_id {
                Some(s) => Some(s@),
                None => None,
            },
        }
    }
}

} // verus!
