use vstd::prelude::*;

verus! {

/// Where the contracts' sources live and where their compiled artifacts go.
#[derive(Debug)]
pub struct ContractConfig {
    /// The Solidity compiler to run.
    pub solc: String,
    /// The directory that holds the contracts' sources.
    pub source_directory: String,
    /// The directory that receives the compiled ABI and binary files.
    pub compile_directory: String,
}

/// The settings of a service: the chain and group it talks to, the account
/// that signs, and how long a deployment waits for its receipt.
#[derive(Debug)]
pub struct Config {
    pub contract: ContractConfig,
    /// The PEM file that holds the signing account's key.
    pub account: String,
    pub group_id: u32,
    pub chain_id: u32,
    /// How long `deploy` waits for the receipt of its transaction.
    pub timeout_seconds: u64,
    /// Whether the chain uses the SM national cryptography suite.
    pub sm_crypto: bool,
}

/// The account that signs transactions.
#[derive(Debug)]
pub struct Account {
    pub private_key: Vec<u8>,
    pub public_key: Vec<u8>,
    /// The account's address, as raw bytes.
    pub address: Vec<u8>,
}

impl Config {
    /// A copy of the settings.
    pub fn copy(&self) -> (r: Config)
        ensures
            r == *self,
    {
        Config {
            contract: ContractConfig {
                solc: self.contract.solc.clone(),
                source_directory: self.contract.source_directory.clone(),
                compile_directory: self.contract.compile_directory.clone(),
            },
            account: self.account.clone(),
            group_id: self.group_id,
            chain_id: self.chain_id,
            timeout_seconds: self.timeout_seconds,
            sm_crypto: self.sm_crypto,
        }
    }
}

} // verus!
