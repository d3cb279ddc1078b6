//! Network configuration: which anchor endpoint and registry are consulted,
//! and the display URLs of the block explorer.
use vstd::prelude::*;
use vstd::string::StringExecFns;

verus! {

/// Chain identifier of the Sepolia test network.
pub const TESTNET_CHAIN_ID: u64 = 5003;

/// Chain identifier of the main network.
pub const MAINNET_CHAIN_ID: u64 = 5000;

/// The endpoint used where none is configured.
pub open spec fn default_rpc_url() -> Seq<char> {
    "https://rpc.sepolia.mantle.xyz"@
}

/// The block explorer base URL for a chain.
pub open spec fn explorer_base(chain_id: u64) -> Seq<char> {
    if chain_id == TESTNET_CHAIN_ID {
        "https://explorer.testnet.mantle.xyz"@
    } else {
        "https://explorer.mantle.xyz"@
    }
}

/// Configuration of the anchor network and registry.
#[derive(Debug, Clone)]
pub struct MantleConfig {
    /// Endpoint URL of the anchor lookup.
    pub rpc_url: String,
    /// Chain identifier, which selects the explorer.
    pub chain_id: u64,
    /// Address of the anchor registry.
    pub registry_address: String,
}

/// Errors of loading a configuration.
#[derive(Debug, Clone, Copy, PartialEq, Eq)]
pub enum ConfigError {
    /// No registry address was supplied.
    MissingRegistryAddress,
}

impl ConfigError {
    /// A human-readable description of the error.
    pub fn message(&self) -> (r: &'static str)
        ensures
            r@ == "MERKLE_BATCH_REGISTRY_ADDRESS environment variable not set"@,
    {
        match self {
            ConfigError::MissingRegistryAddress => "MERKLE_BATCH_REGISTRY_ADDRESS environment variable not set",
        }
    }
}

impl MantleConfig {
    /// A configuration with explicit values.
    pub fn new(rpc_url: String, chain_id: u64, registry_address: String) -> (r: Self)
        ensures
            r.rpc_url@ == rpc_url@,
            r.chain_id == chain_id,
            r.registry_address@ == registry_address@,
    {
        MantleConfig { rpc_url, chain_id, registry_address }
    }

    /// A configuration from optional settings: the endpoint defaults to the
    /// test network's, the chain to the test network; the registry address
    /// must be given.
    pub fn from_values(
        rpc_url: Option<String>,
        chain_id: Option<u64>,
        registry_address: Option<String>,
    ) -> (r: Result<Self, ConfigError>)
        ensures
            registry_address is None <==> r == Err::<Self, ConfigError>(
                ConfigError::MissingRegistryAddress,
            ),
            r matches Ok(c) ==> {
                &&& registry_address matches Some(a) && c.registry_address@ == a@
                &&& c.chain_id == match chain_id {
                    Some(id) => id,
                    None => TESTNET_CHAIN_ID,
                }
                &&& c.rpc_url@ == match rpc_url {
                    Some(u) => u@,
                    None => default_rpc_url(),
                }
            },
    {
        let registry_address = match registry_address {
            Some(a) => a,
            None => return Err(ConfigError::MissingRegistryAddress),
        };
        let rpc_url = match rpc_url {
            Some(u) => u,
            None => String::from_str("https://rpc.sepolia.mantle.xyz"),
        };
        let chain_id = match chain_id {
            Some(id) => id,
            None => TESTNET_CHAIN_ID,
        };
        Ok(MantleConfig { rpc_url, chain_id, registry_address })
    }

    /// Whether the configuration names the test network.
    pub fn is_testnet(&self) -> (r: bool)
        ensures
            r == (self.chain_id == TESTNET_CHAIN_ID),
    {
        self.chain_id == TESTNET_CHAIN_ID
    }

    /// Whether the configuration names the main network.
    pub fn is_mainnet(&self) -> (r: bool)
        ensures
            r == (self.chain_id == MAINNET_CHAIN_ID),
    {
        self.chain_id == MAINNET_CHAIN_ID
    }

    /// The block explorer base URL of this network.
    pub fn explorer_url(&self) -> (r: &'static str)
        ensures
            r@ == explorer_base(self.chain_id),
    {
        if self.is_testnet() {
            "https://explorer.testnet.mantle.xyz"
        } else {
            "https://explorer.mantle.xyz"
        }
    }

    /// The explorer URL of a transaction.
    pub fn tx_url(&self, tx_hash: &str) -> (r: String)
        ensures
            r@ == explorer_base(self.chain_id) + "/tx/"@ + tx_hash@,
    {
        let mut url = String::from_str(self.explorer_url());
        url.append("/tx/");
        url.append(tx_hash);
        url
    }

    /// The explorer URL of the registry contract.
    pub fn contract_url(&self) -> (r: String)
        ensures
            r@ == explorer_base(self.chain_id) + "/address/"@ + self.registry_address@,
    {
        let mut url = String::from_str(self.explorer_url());
        url.append("/address/");
        url.append(self.registry_address.as_str());
        url
    }
}

impl Default for MantleConfig {
    /// The test network's endpoint, with no registry address.
    fn default() -> (r: Self)
        ensures
            r.rpc_url@ == default_rpc_url(),
            r.chain_id == TESTNET_CHAIN_ID,
            r.registry_address@ == Seq::<char>::empty(),
    {
        MantleConfig {
            rpc_url: String::from_str("https://rpc.sepolia.mantle.xyz"),
            chain_id: TESTNET_CHAIN_ID,
            registry_address: String::new(),
        }
    }
}

} // verus!
