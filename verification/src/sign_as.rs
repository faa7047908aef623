//! `transaction send-meta-transaction ... sign-as`: a relayer submits a signed
//! delegate action on behalf of its sender.
use vstd::prelude::*;
use crate::account_id::AccountId;
use crate::context::{CliError, GlobalContext};
use crate::text::{account_id_texts, join_account_ids, joined};
use crate::transaction::{
    Action, ActionContext, ActionContextView, ActionView, BeforeSigning, BeforeSigningView,
    PrepopulatedTransaction, SignedDelegateAction, SignedDelegateActionView, TransactionView, action_views,
};

verus! {

/// The command's state once the signed delegate action is known.
#[derive(Debug, PartialEq, Eq)]
pub struct SignedMetaTransactionContext {
    pub global_context: GlobalContext,
    pub signed_delegate_action: SignedDelegateAction,
}

/// The relayer step: the account that pays for and submits the delegate action.
#[derive(Debug, PartialEq, Eq)]
pub struct RelayerAccountId {
    pub relayer_account_id: AccountId,
}

/// The command's final state: what it hands over to be signed and sent.
#[derive(Debug, PartialEq, Eq)]
pub struct RelayerAccountIdContext(pub ActionContext);

/// What the relayer command hands over: the relayer signs a transaction to the
/// delegate action's sender that carries the signed delegate action, and
/// before signing the actions are set to that delegate action again.
pub open spec fn relayer_action_context(
    global_context: GlobalContext,
    signed_delegate_action: SignedDelegateActionView,
    relayer_account_id: AccountId,
) -> ActionContextView {
    ActionContextView {
        global_context: global_context,
        interacting_with_account_ids: seq![relayer_account_id],
        prepopulated_transaction: TransactionView {
            signer_id: relayer_account_id,
            receiver_id: signed_delegate_action.delegate_action.sender_id,
            actions: seq![ActionView::Delegate(signed_delegate_action)],
        },
        on_before_signing: BeforeSigningView::ReplaceActions(
            seq![ActionView::Delegate(signed_delegate_action)],
        ),
        sign_as_delegate_action: false,
    }
}

impl RelayerAccountIdContext {
    /// Prepares the relayer's transaction.
    pub fn from_previous_context(
        previous_context: SignedMetaTransactionContext,
        scope: &RelayerAccountId,
    ) -> (r: Result<Self, CliError>)
        ensures
            r matches Ok(c) && c.0@ == relayer_action_context(
                previous_context.global_context,
                previous_context.signed_delegate_action@,
                scope.relayer_account_id,
            ),
    {
        let ghost sda = previous_context.signed_delegate_action@;
        let ghost relayer = scope.relayer_account_id;
        let signed_delegate_action = previous_context.signed_delegate_action;
        let transaction = PrepopulatedTransaction {
            signer_id: scope.relayer_account_id.duplicate(),
            receiver_id: signed_delegate_action.delegate_action.sender_id.duplicate(),
            actions: vec![Action::Delegate(Box::new(signed_delegate_action.duplicate()))],
        };
        let replacement = vec![Action::Delegate(Box::new(signed_delegate_action))];
        assert(action_views(replacement@) =~= seq![ActionView::Delegate(sda)]);
        let on_before_signing = BeforeSigning::ReplaceActions(replacement);
        let context = ActionContext {
            global_context: previous_context.global_context,
            interacting_with_account_ids: vec![scope.relayer_account_id.duplicate()],
            prepopulated_transaction: transaction,
            on_before_signing,
            sign_as_delegate_action: false,
        };
        assert(context@.prepopulated_transaction.actions =~= seq![ActionView::Delegate(sda)]);
        assert(context@.interacting_with_account_ids =~= seq![relayer]);
        Ok(RelayerAccountIdContext(context))
    }
}

impl ActionContext {
    /// The relayer's context as it was prepared.
    pub fn from_relayer_account_id_context(item: RelayerAccountIdContext) -> (r: ActionContext)
        ensures
            r == item.0,
    {
        item.0
    }
}

/// The message given when no relayer is named.
pub open spec fn missing_relayer_message(known_accounts: Seq<AccountId>) -> Seq<char> {
    "Missing required argument <relayer-account-id>. Provide it explicitly to run non-interactively. Known local accounts: "@
        + joined(account_id_texts(known_accounts), ", "@)
}

impl RelayerAccountId {
    /// The relayer cannot be asked for: the error lists the accounts used on
    /// this machine, `known_accounts`.
    pub fn input_relayer_account_id(
        _context: &SignedMetaTransactionContext,
        known_accounts: &Vec<AccountId>,
    ) -> (r: Result<Option<AccountId>, CliError>)
        ensures
            r matches Err(CliError::MissingArgument(m)) && m@ == missing_relayer_message(
                known_accounts@,
            ),
    {
        let known = join_account_ids(known_accounts, ", ");
        let mut message = "Missing required argument <relayer-account-id>. Provide it explicitly to run non-interactively. Known local accounts: ".to_string();
        message.append(known.as_str());
        Err(CliError::MissingArgument(message))
    }
}

} // verus!
