//! Endpoint configuration: chain selection and address assembly.

use vstd::prelude::*;
use vstd::string::StringExecFns;

use crate::numfmt::dec_chars;
use crate::numfmt::u64_to_dec_string;
use crate::BASE_URL;

verus! {

/// The endpoint address a configuration stands for: base address, access key
/// and decimal chain identifier, joined by the fixed path template.
pub open spec fn spec_endpoint_url(c: BuilderConfig) -> Seq<char> {
    c.base_url + seq!['/'] + c.key + seq!['/'] + dec_chars(c.chain as nat)
}

/// A chain selector: either a well-known named chain or a raw numeric
/// identifier, which bypasses the name table entirely.
pub enum ChainId {
    Named(ChainName),
    Id(u64),
}

/// The well-known chains with a fixed numeric identifier.
pub enum ChainName {
    Mainnet,
    Polygon,
    Bsc,
}

impl ChainId {
    /// The numeric identifier this selector stands for.
    pub open spec fn spec_as_u64(&self) -> u64 {
        match self {
            ChainId::Named(chain) => chain.spec_as_u64(),
            ChainId::Id(id) => *id,
        }
    }

    pub fn as_u64(&self) -> (r: u64)
        ensures
            r == self.spec_as_u64(),
    {
        match self {
            ChainId::Named(chain) => chain.as_u64(),
            ChainId::Id(id) => *id,
        }
    }
}

impl ChainName {
    /// The canonical identifier of each named chain.
    pub open spec fn spec_as_u64(&self) -> u64 {
        match self {
            ChainName::Mainnet => 1,
            ChainName::Polygon => 137,
            ChainName::Bsc => 56,
        }
    }

    pub fn as_u64(&self) -> (r: u64)
        ensures
            r == self.spec_as_u64(),
    {
        match self {
            ChainName::Mainnet => 1,
            ChainName::Polygon => 137,
            ChainName::Bsc => 56,
        }
    }
}

/// Builder struct for connections: accumulates an access key, a chain
/// identifier and a base address, and assembles the endpoint address.
pub struct ConnectionBuilder {
    key: String,
    chain: u64,
    base_url: String,
}

/// Abstract value of a [`ConnectionBuilder`]: the three configuration values.
pub struct BuilderConfig {
    pub key: Seq<char>,
    pub chain: u64,
    pub base_url: Seq<char>,
}

impl View for ConnectionBuilder {
    type V = BuilderConfig;

    closed spec fn view(&self) -> BuilderConfig {
        BuilderConfig { key: self.key@, chain: self.chain, base_url: self.base_url@ }
    }
}

impl ConnectionBuilder {
    /// Fresh configuration: the given key, the primary chain, the well-known
    /// default base address.
    pub fn new(key: &str) -> (r: Self)
        ensures
            r@.key == key@,
            r@.chain == ChainName::Mainnet.spec_as_u64(),
            r@.base_url == BASE_URL@,
    {
        Self { key: String::from_str(key), chain: ChainName::Mainnet.as_u64(), base_url: String::from_str(BASE_URL) }
    }

    /// Overrides the connection's base address. This is generally not required
    /// but is left open for flexibility.
    pub fn base_url(self, url: &str) -> (r: Self)
        ensures
            r@.base_url == url@,
            r@.key == self@.key,
            r@.chain == self@.chain,
    {
        Self { base_url: String::from_str(url), ..self }
    }

    pub fn mainnet(self) -> (r: Self)
        ensures
            r@.chain == ChainName::Mainnet.spec_as_u64(),
            r@.key == self@.key,
            r@.base_url == self@.base_url,
    {
        Self { chain: ChainName::Mainnet.as_u64(), ..self }
    }

    pub fn polygon(self) -> (r: Self)
        ensures
            r@.chain == ChainName::Polygon.spec_as_u64(),
            r@.key == self@.key,
            r@.base_url == self@.base_url,
    {
        Self { chain: ChainName::Polygon.as_u64(), ..self }
    }

    pub fn bsc(self) -> (r: Self)
        ensures
            r@.chain == ChainName::Bsc.spec_as_u64(),
            r@.key == self@.key,
            r@.base_url == self@.base_url,
    {
        Self { chain: ChainName::Bsc.as_u64(), ..self }
    }

    pub fn chain(self, chain_id: ChainId) -> (r: Self)
        ensures
            r@.chain == chain_id.spec_as_u64(),
            r@.key == self@.key,
            r@.base_url == self@.base_url,
    {
        Self { chain: chain_id.as_u64(), ..self }
    }

    /// Joins base address, access key and chain identifier into the final
    /// endpoint address. This is the whole computation a connection attempt
    /// performs before handing the address to the channel-establishment
    /// primitive.
    pub fn endpoint_url(&self) -> (r: String)
        ensures
            r@ == spec_endpoint_url(self@),
    {
        proof {
            reveal_strlit("/");
        }
        let mut url = self.base_url.clone();
        url.append("/");
        url.append(self.key.as_str());
        url.append("/");
        let chain = u64_to_dec_string(self.chain);
        url.append(chain.as_str());
        proof {
            assert(url@ =~= spec_endpoint_url(self@));
        }
        url
    }
}

} // verus!
