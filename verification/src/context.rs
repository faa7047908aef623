//! What every command carries along: the global settings, amounts of gas and
//! tokens, and the errors a command can end with.
use vstd::prelude::*;

verus! {

/// The settings that every command starts from: the directory that holds the
/// credentials and the names of the configured networks, in their order.
#[derive(Debug, PartialEq, Eq)]
pub struct GlobalContext {
    pub credentials_home_dir: String,
    pub network_names: Vec<String>,
}

/// An amount of gas.
#[derive(Clone, Copy, Debug, PartialEq, Eq, Structural)]
pub struct NearGas {
    pub gas: u64,
}

/// The gas in one teragas.
pub const ONE_TERAGAS: u64 = 1_000_000_000_000;

impl NearGas {
    /// `n` teragas.
    pub fn from_tgas(n: u64) -> (r: NearGas)
        requires
            n * ONE_TERAGAS <= u64::MAX,
        ensures
            r.gas == n * ONE_TERAGAS,
    {
        NearGas { gas: n * ONE_TERAGAS }
    }

    /// The amount in gas units.
    pub fn as_gas(&self) -> (r: u64)
        ensures
            r == self.gas,
    {
        self.gas
    }
}

/// An amount of NEAR tokens, counted in yoctoNEAR.
#[derive(Clone, Copy, Debug, PartialEq, Eq, Structural)]
pub struct NearToken {
    pub yocto: u128,
}

/// The yoctoNEAR in one NEAR.
pub const ONE_NEAR: u128 = 1_000_000_000_000_000_000_000_000;

impl NearToken {
    /// `n` NEAR.
    pub fn from_near(n: u128) -> (r: NearToken)
        requires
            n * ONE_NEAR <= u128::MAX,
        ensures
            r.yocto == n * ONE_NEAR,
    {
        NearToken { yocto: n * ONE_NEAR }
    }

    /// The amount in yoctoNEAR.
    pub fn as_yoctonear(&self) -> (r: u128)
        ensures
            r == self.yocto,
    {
        self.yocto
    }
}

/// The ways a command can fail.
#[derive(Debug)]
pub enum CliError {
    /// An argument has no value and cannot be asked for here; it names the argument.
    NonInteractiveInputRequired(String),
    /// An argument has no value; the message says which and what is known.
    MissingArgument(String),
    /// A text is not a valid account ID.
    InvalidAccountId(near_primitives::account::id::ParseAccountError),
    /// A text is not a public key.
    InvalidPublicKey(near_crypto::ParseKeyError),
    /// The user cancelled while the access key was being looked up.
    AccessKeyCheckCancelled,
}

} // verus!
