//! Static configuration of the relayer and the rotating pool of signing accounts.
use crate::primitives::{address_bytes_of, is_address_text, Address};
use crate::rotation::rotate;
use alloy::signers::local::PrivateKeySigner;
use alloy::transports::http::reqwest::Url;
use std::str::FromStr;
use vstd::prelude::*;

verus! {

/// Where the relayer's own services live.
#[derive(Debug, Clone, PartialEq, Eq)]
pub struct ServerConfig {
    /// URL the server listens on.
    pub server_url: String,
    /// URL of the database.
    pub db_url: String,
}

/// Configuration of one chain.
#[derive(Debug, Clone, PartialEq, Eq)]
pub struct ChainsConfig {
    /// Name of the network, if it has one.
    pub name: Option<String>,
    /// RPC endpoint of the chain.
    pub rpc_url: String,
    /// Numeric identifier of the chain.
    pub chain_id: u64,
    /// Private keys of the accounts that pay for submissions, in rotation order.
    pub accounts_private_keys: Vec<String>,
    /// Address of the trusted forwarder contract on this chain.
    pub trusted_forwarder: String,
}

/// Configuration of the whole relayer.
#[derive(Debug, Clone, PartialEq, Eq)]
pub struct RelayerConfig {
    /// Name of the relayer server.
    pub name: Option<String>,
    /// One entry per chain served.
    pub chains: Vec<ChainsConfig>,
    /// Server settings.
    pub server: ServerConfig,
}

/// The signing accounts of one chain, in the order in which they will pay.
#[derive(Debug, Clone, PartialEq, Eq)]
pub struct RelayerAccounts {
    keys: Vec<String>,
}

/// Why a chain's configuration cannot be served.
#[derive(Debug, Clone, Copy, PartialEq, Eq, Structural)]
pub enum ConfigurationError {
    /// No signing account is configured.
    EmptyAccounts,
    /// The key at `index` is not the text of a private key.
    InvalidAccountKey { index: usize },
    /// The RPC endpoint is not a URL.
    InvalidRpcUrl,
    /// The trusted forwarder is not the text of an address.
    InvalidForwarderAddress,
}

/// Whether alloy's local signer takes `key` as the text of a private key.
pub uninterp spec fn signing_key_accepted(key: Seq<char>) -> bool;

/// Whether `url` parses as a URL.
pub uninterp spec fn rpc_url_accepted(url: Seq<char>) -> bool;

/// Asks `PrivateKeySigner::from_str` of alloy-signer-local whether it takes
/// the text: sixty-four hexadecimal digits that spell a valid secp256k1
/// secret. The answer depends on the text alone and is given the name
/// [`signing_key_accepted`].
#[verifier::external_body]
fn signing_key_parses(key: &str) -> (accepted: bool)
    ensures
        accepted == signing_key_accepted(key@),
{
    PrivateKeySigner::from_str(key).is_ok()
}

/// Asks `Url::from_str` of the url crate, as the HTTP transport re-exports
/// it, whether it takes the text. The answer depends on the text alone and
/// is given the name [`rpc_url_accepted`].
#[verifier::external_body]
fn rpc_url_parses(url: &str) -> (accepted: bool)
    ensures
        accepted == rpc_url_accepted(url@),
{
    Url::from_str(url).is_ok()
}

/// Whether every key of `keys` is the text of a private key.
pub open spec fn all_keys_accepted(keys: Seq<Seq<char>>) -> bool {
    forall|i: int| 0 <= i < keys.len() ==> signing_key_accepted(#[trigger] keys[i])
}

impl ChainsConfig {
    /// The signing keys in rotation order, each as its text.
    pub open spec fn account_keys(&self) -> Seq<Seq<char>> {
        self.accounts_private_keys.deep_view()
    }

    /// Whether a processor can be built on this configuration: there is an
    /// account to pay, every key is a private key, the endpoint is a URL and
    /// the forwarder is an address.
    pub open spec fn usable(&self) -> bool {
        &&& self.account_keys().len() > 0
        &&& all_keys_accepted(self.account_keys())
        &&& rpc_url_accepted(self.rpc_url@)
        &&& is_address_text(self.trusted_forwarder@)
    }

    /// Whether `e` says what is wrong with this configuration, first fault
    /// first: an empty account list, else the first key that is no private
    /// key, else an endpoint that is no URL, else a forwarder that is no
    /// address.
    pub open spec fn rejected_with(&self, e: ConfigurationError) -> bool {
        let keys = self.account_keys();
        match e {
            ConfigurationError::EmptyAccounts => keys.len() == 0,
            ConfigurationError::InvalidAccountKey { index } => {
                &&& index < keys.len()
                &&& !signing_key_accepted(keys[index as int])
                &&& all_keys_accepted(keys.take(index as int))
            },
            ConfigurationError::InvalidRpcUrl => {
                &&& keys.len() > 0
                &&& all_keys_accepted(keys)
                &&& !rpc_url_accepted(self.rpc_url@)
            },
            ConfigurationError::InvalidForwarderAddress => {
                &&& keys.len() > 0
                &&& all_keys_accepted(keys)
                &&& rpc_url_accepted(self.rpc_url@)
                &&& !is_address_text(self.trusted_forwarder@)
            },
        }
    }

    /// Collects the settings of one chain.
    pub fn new(
        name: Option<String>,
        rpc_url: String,
        chain_id: u64,
        accounts_private_keys: Vec<String>,
        trusted_forwarder: String,
    ) -> (config: Self)
        ensures
            config == (ChainsConfig {
                name,
                rpc_url,
                chain_id,
                accounts_private_keys,
                trusted_forwarder,
            }),
    {
        Self { name, rpc_url, chain_id, accounts_private_keys, trusted_forwarder }
    }

    /// Checks the configuration and returns the forwarder's address, or the
    /// first fault found.
    pub fn validate(&self) -> (r: Result<Address, ConfigurationError>)
        ensures
            r is Ok <==> self.usable(),
            r matches Ok(forwarder) ==> forwarder@ == address_bytes_of(self.trusted_forwarder@),
            r matches Err(e) ==> self.rejected_with(e),
    {
        let ghost keys = self.account_keys();
        if self.accounts_private_keys.len() == 0 {
            return Err(ConfigurationError::EmptyAccounts);
        }
        let mut i: usize = 0;
        while i < self.accounts_private_keys.len()
            invariant
                i <= self.accounts_private_keys.len(),
                keys == self.account_keys(),
                all_keys_accepted(keys.take(i as int)),
            decreases self.accounts_private_keys.len() - i,
        {
            if !signing_key_parses(self.accounts_private_keys[i].as_str()) {
                assert(keys[i as int] == self.accounts_private_keys[i as int]@);
                return Err(ConfigurationError::InvalidAccountKey { index: i });
            }
            assert(keys[i as int] == self.accounts_private_keys[i as int]@);
            assert forall|j: int| 0 <= j < i + 1 implies signing_key_accepted(
                #[trigger] keys.take(i + 1)[j],
            ) by {
                if j < i {
                    assert(keys.take(i as int)[j] == keys[j]);
                }
            }
            i += 1;
        }
        assert(keys.take(i as int) =~= keys);
        if !rpc_url_parses(self.rpc_url.as_str()) {
            return Err(ConfigurationError::InvalidRpcUrl);
        }
        match Address::parse(self.trusted_forwarder.as_str()) {
            Ok(forwarder) => Ok(forwarder),
            Err(_) => Err(ConfigurationError::InvalidForwarderAddress),
        }
    }
}

/// A usable configuration is rejected with nothing, and an unusable one
/// with one fault and no other.
pub proof fn lemma_fault_is_unique(config: ChainsConfig, e1: ConfigurationError, e2: ConfigurationError)
    requires
        config.rejected_with(e1),
    ensures
        !config.usable(),
        config.rejected_with(e2) ==> e1 == e2,
{
    let keys = config.account_keys();
    if let ConfigurationError::InvalidAccountKey { index } = e1 {
        assert(!signing_key_accepted(keys[index as int]));
        if let ConfigurationError::InvalidAccountKey { index: other } = e2 {
            if config.rejected_with(e2) && index != other {
                if index < other {
                    assert(keys.take(other as int)[index as int] == keys[index as int]);
                } else {
                    assert(keys.take(index as int)[other as int] == keys[other as int]);
                }
            }
        }
    } else if let ConfigurationError::InvalidAccountKey { index } = e2 {
        if config.rejected_with(e2) {
            assert(!signing_key_accepted(keys[index as int]));
        }
    }
}

impl View for RelayerAccounts {
    type V = Seq<Seq<char>>;

    /// The keys from front to back, each as its text.
    closed spec fn view(&self) -> Seq<Seq<char>> {
        self.keys.deep_view()
    }
}

impl RelayerAccounts {
    /// A pool that hands out `keys` from first to last, then starts over.
    pub fn new(keys: Vec<String>) -> (pool: Self)
        ensures
            pool@ == keys.deep_view(),
    {
        Self { keys }
    }

    /// The keys from front to back.
    pub fn keys(&self) -> (keys: &Vec<String>)
        ensures
            keys.deep_view() == self@,
    {
        &self.keys
    }

    /// Number of accounts in the pool.
    pub fn len(&self) -> (n: usize)
        ensures
            n == self@.len(),
    {
        self.keys.len()
    }

    /// Whether the pool holds no account.
    pub fn is_empty(&self) -> (empty: bool)
        ensures
            empty == (self@.len() == 0),
    {
        self.keys.len() == 0
    }

    /// Hands out the account at the front and moves it to the back.
    pub fn get_current_key(&mut self) -> (key: String)
        requires
            old(self)@.len() > 0,
        ensures
            key@ == old(self)@.first(),
            final(self)@ == rotate(old(self)@),
    {
        let key = self.keys.remove(0);
        self.keys.push(key.clone());
        assert(self.keys.deep_view() =~= rotate(old(self).keys.deep_view()));
        key
    }
}

} // verus!
