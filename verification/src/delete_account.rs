//! `account delete-account`: deletes an account and sends its tokens to a beneficiary.
use vstd::prelude::*;
use crate::account_id::AccountId;
use crate::context::{CliError, GlobalContext};
use crate::transaction::{
    Action, ActionContext, ActionContextView, ActionView, BeforeSigning, BeforeSigningView,
    DeleteAccountAction, PrepopulatedTransaction, TransactionView,
};

verus! {

/// The arguments of the command: the account to delete and the beneficiary step.
#[derive(Debug, PartialEq, Eq)]
pub struct DeleteAccount {
    pub account_id: AccountId,
    pub beneficiary: BeneficiaryAccount,
}

/// The command's state once the account to delete is known.
#[derive(Debug, PartialEq, Eq)]
pub struct DeleteAccountContext {
    pub global_context: GlobalContext,
    pub account_id: AccountId,
}

impl DeleteAccountContext {
    /// Records the account to delete.
    pub fn from_previous_context(previous_context: GlobalContext, scope: &DeleteAccount) -> (r:
        Result<Self, CliError>)
        ensures
            r matches Ok(c) && c.global_context == previous_context && c.account_id
                == scope.account_id,
    {
        Ok(DeleteAccountContext {
            global_context: previous_context,
            account_id: scope.account_id.duplicate(),
        })
    }
}

/// The beneficiary step: the account that receives the deleted account's tokens.
#[derive(Debug, PartialEq, Eq)]
pub struct BeneficiaryAccount {
    pub beneficiary_account_id: AccountId,
}

/// The command's state once the beneficiary is known.
#[derive(Debug, PartialEq, Eq)]
pub struct BeneficiaryAccountContext {
    pub global_context: GlobalContext,
    pub account_id: AccountId,
    pub beneficiary_account_id: AccountId,
}

impl BeneficiaryAccountContext {
    /// Records the beneficiary.
    pub fn from_previous_context(
        previous_context: DeleteAccountContext,
        scope: &BeneficiaryAccount,
    ) -> (r: Result<Self, CliError>)
        ensures
            r matches Ok(c) && c.global_context == previous_context.global_context
                && c.account_id == previous_context.account_id && c.beneficiary_account_id
                == scope.beneficiary_account_id,
    {
        Ok(BeneficiaryAccountContext {
            global_context: previous_context.global_context,
            account_id: previous_context.account_id,
            beneficiary_account_id: scope.beneficiary_account_id.duplicate(),
        })
    }
}

impl BeneficiaryAccount {
    /// The beneficiary cannot be asked for: it must be given.
    pub fn input_beneficiary_account_id(_context: &DeleteAccountContext) -> (r: Result<
        Option<AccountId>,
        CliError,
    >)
        ensures
            r matches Err(CliError::NonInteractiveInputRequired(what)) && what@
                == "beneficiary account ID"@,
    {
        Err(CliError::NonInteractiveInputRequired("beneficiary account ID".to_string()))
    }
}

/// What the delete-account command hands over: the account signs a transaction
/// to itself that deletes it in favour of the beneficiary.
pub open spec fn delete_account_action_context(item: BeneficiaryAccountContext) -> ActionContextView {
    ActionContextView {
        global_context: item.global_context,
        interacting_with_account_ids: seq![item.account_id],
        prepopulated_transaction: TransactionView {
            signer_id: item.account_id,
            receiver_id: item.account_id,
            actions: seq![ActionView::DeleteAccount { beneficiary_id: item.beneficiary_account_id }],
        },
        on_before_signing: BeforeSigningView::KeepActions,
        sign_as_delegate_action: false,
    }
}

impl ActionContext {
    /// The transaction that deletes the account.
    pub fn from_beneficiary_account_context(item: BeneficiaryAccountContext) -> (r: ActionContext)
        ensures
            r@ == delete_account_action_context(item),
    {
        let ghost spec_item = item;
        let transaction = PrepopulatedTransaction {
            signer_id: item.account_id.duplicate(),
            receiver_id: item.account_id.duplicate(),
            actions: vec![
                Action::DeleteAccount(
                    DeleteAccountAction { beneficiary_id: item.beneficiary_account_id },
                ),
            ],
        };
        let r = ActionContext {
            global_context: item.global_context,
            interacting_with_account_ids: vec![item.account_id],
            prepopulated_transaction: transaction,
            on_before_signing: BeforeSigning::KeepActions,
            sign_as_delegate_action: false,
        };
        assert(r@.prepopulated_transaction.actions =~= seq![
            ActionView::DeleteAccount { beneficiary_id: spec_item.beneficiary_account_id },
        ]);
        assert(r@.interacting_with_account_ids =~= seq![spec_item.account_id]);
        r
    }
}

} // verus!
