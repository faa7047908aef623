//! Properties that hold of every command's hand-over.
use vstd::prelude::*;
use crate::account_id::AccountId;
use crate::call_function::{
    CallFunction, call_function_context, deposit_context, function_call_action_context,
    function_context, prepaid_gas_context, signer_account_id_context,
};
use crate::context::GlobalContext;
use crate::delete_account::{BeneficiaryAccountContext, delete_account_action_context};
use crate::delete_key::delete_keys_action_context;
use crate::public_key::KeyType;
use crate::sign_as::relayer_action_context;
use crate::import_account::{accepted_as_implicit, implicit_key_text};
use crate::transaction::{
    ActionContextView, ActionView, BeforeSigningView, SignedDelegateActionView, TransactionView,
    signed_transaction,
};

verus! {

/// The account that signs the prepared transaction is among the accounts the
/// command interacts with.
pub open spec fn signer_is_interacting(c: ActionContextView) -> bool {
    c.interacting_with_account_ids.contains(c.prepopulated_transaction.signer_id)
}

/// The hook that runs before signing leaves the prepared transaction as it is.
pub open spec fn signing_keeps_prepared_transaction(c: ActionContextView) -> bool {
    signed_transaction(c.on_before_signing, c.prepopulated_transaction) == c.prepopulated_transaction
}

/// Each command (delete account, delete keys, call a function, relay a
/// delegate action) lists the signer of its transaction among the accounts it
/// interacts with.
pub proof fn lemma_signer_is_interacting(
    delete_account: BeneficiaryAccountContext,
    keys_global_context: GlobalContext,
    keys_owner: AccountId,
    keys: Seq<(KeyType, Seq<u8>)>,
    call: crate::call_function::SignerAccountIdContext,
    relay_global_context: GlobalContext,
    signed_delegate_action: SignedDelegateActionView,
    relayer: AccountId,
)
    ensures
        signer_is_interacting(delete_account_action_context(delete_account)),
        signer_is_interacting(delete_keys_action_context(keys_global_context, keys_owner, keys)),
        signer_is_interacting(function_call_action_context(call)),
        signer_is_interacting(
            relayer_action_context(relay_global_context, signed_delegate_action, relayer),
        ),
{
    assert(delete_account_action_context(delete_account).interacting_with_account_ids[0]
        == delete_account.account_id);
    assert(delete_keys_action_context(keys_global_context, keys_owner, keys).interacting_with_account_ids[0]
        == keys_owner);
    assert(function_call_action_context(call).interacting_with_account_ids[0]
        == call.signer_account_id);
    assert(relayer_action_context(
        relay_global_context,
        signed_delegate_action,
        relayer,
    ).interacting_with_account_ids[0] == relayer);
}

/// For each command, signing the prepared transaction signs exactly that
/// transaction: the relayer's hook puts back the very delegate action that the
/// transaction already carries, and the other commands have no hook.
pub proof fn lemma_signing_keeps_prepared_transaction(
    delete_account: BeneficiaryAccountContext,
    keys_global_context: GlobalContext,
    keys_owner: AccountId,
    keys: Seq<(KeyType, Seq<u8>)>,
    call: crate::call_function::SignerAccountIdContext,
    relay_global_context: GlobalContext,
    signed_delegate_action: SignedDelegateActionView,
    relayer: AccountId,
)
    ensures
        signing_keeps_prepared_transaction(delete_account_action_context(delete_account)),
        signing_keeps_prepared_transaction(
            delete_keys_action_context(keys_global_context, keys_owner, keys),
        ),
        signing_keeps_prepared_transaction(function_call_action_context(call)),
        signing_keeps_prepared_transaction(
            relayer_action_context(relay_global_context, signed_delegate_action, relayer),
        ),
{
}

/// The call-function transaction is made of the values given along the
/// command: it is signed by the signer named at the last step, goes to the
/// contract named at the first, and holds one call of the named method with
/// the arguments as read, the gas and the deposit given at their steps.
pub proof fn lemma_function_call_from_arguments(
    global_context: GlobalContext,
    command: CallFunction,
    function_args: Vec<u8>,
)
    ensures
        ({
            let function = command.function;
            let gas = function.prepaid_gas;
            let deposit = gas.attached_deposit;
            let c = signer_account_id_context(
                deposit_context(
                    prepaid_gas_context(
                        function_context(
                            call_function_context(global_context, command),
                            function,
                            function_args,
                        ),
                        gas,
                    ),
                    deposit,
                ),
                deposit.sign_as,
            );
            let tx = function_call_action_context(c).prepopulated_transaction;
            &&& tx.signer_id == deposit.sign_as.signer_account_id
            &&& tx.receiver_id == command.contract_account_id
            &&& tx.actions == seq![
                ActionView::FunctionCall {
                    method_name: function.function_name@,
                    args: function_args@,
                    gas: gas.gas.gas,
                    deposit: deposit.deposit.yocto,
                },
            ]
        }),
{
}

} // verus!

verus! {

/// Deleting an account hands over an ordinary transaction, with no hook before
/// signing, that the account signs to itself and that holds exactly one
/// action: deleting the account in favour of the beneficiary given.  Only the
/// account to delete takes part.
pub proof fn lemma_delete_account_hand_over(c: BeneficiaryAccountContext)
    ensures
        delete_account_action_context(c).prepopulated_transaction == (TransactionView {
            signer_id: c.account_id,
            receiver_id: c.account_id,
            actions: seq![ActionView::DeleteAccount { beneficiary_id: c.beneficiary_account_id }],
        }),
        delete_account_action_context(c).interacting_with_account_ids == seq![c.account_id],
        delete_account_action_context(c).global_context == c.global_context,
        delete_account_action_context(c).on_before_signing == BeforeSigningView::KeepActions,
        !delete_account_action_context(c).sign_as_delegate_action,
{
}

/// Deleting keys hands over an ordinary transaction, with no hook before
/// signing, that the owner signs to itself and that holds one key deletion per
/// given key, in the given order and nothing else.
pub proof fn lemma_delete_keys_hand_over(
    global_context: GlobalContext,
    owner: AccountId,
    keys: Seq<(KeyType, Seq<u8>)>,
)
    ensures
        ({
            let c = delete_keys_action_context(global_context, owner, keys);
            &&& c.prepopulated_transaction.signer_id == owner
            &&& c.prepopulated_transaction.receiver_id == owner
            &&& c.prepopulated_transaction.actions.len() == keys.len()
            &&& forall|i: int|
                0 <= i < keys.len() ==> #[trigger] c.prepopulated_transaction.actions[i]
                    == (ActionView::DeleteKey { public_key: keys[i] })
            &&& c.interacting_with_account_ids == seq![owner]
            &&& c.global_context == global_context
            &&& c.on_before_signing == BeforeSigningView::KeepActions
            &&& !c.sign_as_delegate_action
        }),
{
}

/// Calling a function hands over an ordinary transaction, with no hook before
/// signing, that the signer sends to the contract and that holds exactly one
/// call of the method with the arguments, gas and deposit given; the signer and
/// the contract take part, in that order.
pub proof fn lemma_function_call_hand_over(c: crate::call_function::SignerAccountIdContext)
    ensures
        function_call_action_context(c).prepopulated_transaction == (TransactionView {
            signer_id: c.signer_account_id,
            receiver_id: c.contract_account_id,
            actions: seq![
                ActionView::FunctionCall {
                    method_name: c.function_name@,
                    args: c.function_args@,
                    gas: c.gas.gas,
                    deposit: c.deposit.yocto,
                },
            ],
        }),
        function_call_action_context(c).interacting_with_account_ids == seq![
            c.signer_account_id,
            c.contract_account_id,
        ],
        function_call_action_context(c).global_context == c.global_context,
        function_call_action_context(c).on_before_signing == BeforeSigningView::KeepActions,
        !function_call_action_context(c).sign_as_delegate_action,
{
}

/// Relaying hands over an ordinary transaction that the relayer signs, sent to
/// the delegate action's sender (never to its receiver), carrying exactly the
/// signed delegate action; before signing its actions are set to that same
/// delegate action.  Only the relayer takes part.
pub proof fn lemma_relayer_hand_over(
    global_context: GlobalContext,
    signed_delegate_action: SignedDelegateActionView,
    relayer: AccountId,
)
    ensures
        ({
            let c = relayer_action_context(global_context, signed_delegate_action, relayer);
            &&& c.prepopulated_transaction.signer_id == relayer
            &&& c.prepopulated_transaction.receiver_id
                == signed_delegate_action.delegate_action.sender_id
            &&& c.prepopulated_transaction.actions == seq![ActionView::Delegate(signed_delegate_action)]
            &&& c.on_before_signing == BeforeSigningView::ReplaceActions(
                seq![ActionView::Delegate(signed_delegate_action)],
            )
            &&& c.interacting_with_account_ids == seq![relayer]
            &&& c.global_context == global_context
            &&& !c.sign_as_delegate_action
        }),
{
}

/// The login takes an account at once exactly when it is NEAR-implicit and the
/// text form of its key is the key being imported, whatever that key is.
pub proof fn lemma_implicit_account_accepted(
    implicit_key_text: Option<Seq<char>>,
    public_key_str: Seq<char>,
)
    ensures
        accepted_as_implicit(implicit_key_text, public_key_str) <==> implicit_key_text == Some(
            public_key_str,
        ),
        accepted_as_implicit(Some(public_key_str), public_key_str),
{
}

/// The key text that the login compares with the imported key exists exactly
/// for IDs of 64 lower-case hexadecimal digits, and is then `ed25519:`
/// followed by the base58 form of the 32 bytes those digits encode.
pub proof fn lemma_implicit_key_text(account_id: Seq<char>)
    ensures
        crate::account_id::is_near_implicit(account_id) ==> implicit_key_text(account_id) == Some(
            "ed25519:"@ + crate::public_key::base58_text(crate::account_id::hex_decoded(account_id)),
        ),
        !crate::account_id::is_near_implicit(account_id) ==> implicit_key_text(account_id) is None,
{
    assert("ed25519"@ + ":"@ =~= "ed25519:"@) by {
        reveal_strlit("ed25519");
        reveal_strlit(":");
        reveal_strlit("ed25519:");
    }
    if crate::account_id::is_near_implicit(account_id) {
        assert(!crate::account_id::is_eth_implicit(account_id));
        assert(("ed25519"@ + ":"@) + crate::public_key::base58_text(
            crate::account_id::hex_decoded(account_id),
        ) =~= "ed25519"@ + ":"@ + crate::public_key::base58_text(crate::account_id::hex_decoded(account_id)));
    }
}

} // verus!
