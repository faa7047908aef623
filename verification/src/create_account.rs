//! `account create-account fund-myself`: the first steps of creating an account
//! funded by an existing one.
use vstd::prelude::*;
use crate::account_id::AccountId;
use crate::context::{CliError, GlobalContext, NearToken};
use crate::public_key::PublicKey;

verus! {

/// The arguments of the command: the new account and the tokens it starts with.
#[derive(Debug, PartialEq, Eq)]
pub struct NewAccount {
    pub new_account_id: AccountId,
    pub initial_balance: NearToken,
}

/// The command's state once the new account and its balance are known.
#[derive(Debug, PartialEq, Eq)]
pub struct NewAccountContext {
    pub global_context: GlobalContext,
    pub new_account_id: AccountId,
    pub initial_balance: NearToken,
}

impl NewAccountContext {
    /// Records the new account and its balance.
    pub fn from_previous_context(previous_context: GlobalContext, scope: &NewAccount) -> (r: Result<
        Self,
        CliError,
    >)
        ensures
            r matches Ok(c) && c.global_context == previous_context && c.new_account_id
                == scope.new_account_id && c.initial_balance == scope.initial_balance,
    {
        Ok(NewAccountContext {
            global_context: previous_context,
            new_account_id: scope.new_account_id.duplicate(),
            initial_balance: scope.initial_balance,
        })
    }
}

impl NewAccount {
    /// The new account cannot be asked for: it must be given.
    pub fn input_new_account_id(_context: &GlobalContext) -> (r: Result<Option<AccountId>, CliError>)
        ensures
            r matches Err(CliError::NonInteractiveInputRequired(what)) && what@
                == "new account ID"@,
    {
        Err(CliError::NonInteractiveInputRequired("new account ID".to_string()))
    }

    /// The initial balance cannot be asked for: it must be given.
    pub fn input_initial_balance(_context: &GlobalContext) -> (r: Result<Option<NearToken>, CliError>)
        ensures
            r matches Err(CliError::NonInteractiveInputRequired(what)) && what@
                == "initial balance"@,
    {
        Err(CliError::NonInteractiveInputRequired("initial balance".to_string()))
    }
}

/// What a new account is made with: its ID, its first access key and its balance.
#[derive(Debug, PartialEq, Eq)]
pub struct AccountProperties {
    pub new_account_id: AccountId,
    pub public_key: PublicKey,
    pub initial_balance: NearToken,
}

} // verus!
