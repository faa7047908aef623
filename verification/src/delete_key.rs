//! `account delete-keys`: deletes access keys of an account.
use vstd::prelude::*;
use crate::account_id::AccountId;
use crate::context::{CliError, GlobalContext};
use crate::public_key::{KeyType, PublicKey};
use crate::text::{joined, join_strings, string_texts};
use crate::transaction::{
    Action, ActionContext, ActionContextView, ActionView, BeforeSigning, BeforeSigningView,
    DeleteKeyAction, PrepopulatedTransaction, TransactionView, action_views,
};

verus! {

/// The command's state once the account whose keys go is known.
#[derive(Debug, PartialEq, Eq)]
pub struct DeleteKeysCommandContext {
    pub global_context: GlobalContext,
    pub owner_account_id: AccountId,
}

/// The keys step: the public keys to delete.
#[derive(Debug, PartialEq, Eq)]
pub struct PublicKeyList {
    pub public_keys: Vec<PublicKey>,
}

/// The views of a list of keys.
pub open spec fn key_views(keys: Seq<PublicKey>) -> Seq<(KeyType, Seq<u8>)> {
    keys.map_values(|k: PublicKey| k@)
}

/// The command's state once the keys are known.
#[derive(Debug, PartialEq, Eq)]
pub struct PublicKeyListContext {
    pub global_context: GlobalContext,
    pub owner_account_id: AccountId,
    pub public_keys: Vec<PublicKey>,
}

impl PublicKeyListContext {
    /// Records the keys to delete.
    pub fn from_previous_context(
        previous_context: DeleteKeysCommandContext,
        scope: &PublicKeyList,
    ) -> (r: Result<Self, CliError>)
        ensures
            r matches Ok(c) && c.global_context == previous_context.global_context
                && c.owner_account_id == previous_context.owner_account_id && key_views(
                c.public_keys@,
            ) == key_views(scope.public_keys@),
    {
        let mut public_keys: Vec<PublicKey> = Vec::new();
        let mut i: usize = 0;
        while i < scope.public_keys.len()
            invariant
                i <= scope.public_keys.len(),
                public_keys@.len() == i,
                forall|j: int| 0 <= j < i ==> #[trigger] public_keys@[j]@ == scope.public_keys@[j]@,
            decreases scope.public_keys.len() - i,
        {
            public_keys.push(scope.public_keys[i].duplicate());
            i = i + 1;
        }
        assert(key_views(public_keys@) =~= key_views(scope.public_keys@));
        Ok(PublicKeyListContext {
            global_context: previous_context.global_context,
            owner_account_id: previous_context.owner_account_id,
            public_keys,
        })
    }
}

/// The message given when no keys are named.
pub open spec fn missing_public_keys_message(network_names: Seq<String>) -> Seq<char> {
    "Missing required argument <public-keys>. Automatic key selection is disabled for non-interactive mode. Provide a comma-separated list of public keys. Networks available: "@
        + joined(string_texts(network_names), ", "@)
}

impl PublicKeyList {
    /// The keys cannot be picked automatically: the error lists the networks.
    pub fn input_public_keys(context: &DeleteKeysCommandContext) -> (r: Result<
        Option<Vec<PublicKey>>,
        CliError,
    >)
        ensures
            r matches Err(CliError::MissingArgument(m)) && m@ == missing_public_keys_message(
                context.global_context.network_names@,
            ),
    {
        let known_networks = join_strings(&context.global_context.network_names, ", ");
        let mut message = "Missing required argument <public-keys>. Automatic key selection is disabled for non-interactive mode. Provide a comma-separated list of public keys. Networks available: ".to_string();
        message.append(known_networks.as_str());
        Err(CliError::MissingArgument(message))
    }
}

/// The delete-key actions for a list of keys, in order.
pub open spec fn delete_key_actions(keys: Seq<(KeyType, Seq<u8>)>) -> Seq<ActionView> {
    keys.map_values(|k: (KeyType, Seq<u8>)| ActionView::DeleteKey { public_key: k })
}

/// What the delete-keys command hands over: the owner signs a transaction to
/// itself that deletes each key, in the order given.
pub open spec fn delete_keys_action_context(
    global_context: GlobalContext,
    owner_account_id: AccountId,
    keys: Seq<(KeyType, Seq<u8>)>,
) -> ActionContextView {
    ActionContextView {
        global_context: global_context,
        interacting_with_account_ids: seq![owner_account_id],
        prepopulated_transaction: TransactionView {
            signer_id: owner_account_id,
            receiver_id: owner_account_id,
            actions: delete_key_actions(keys),
        },
        on_before_signing: BeforeSigningView::KeepActions,
        sign_as_delegate_action: false,
    }
}

impl ActionContext {
    /// The transaction that deletes the keys.
    pub fn from_public_key_list_context(item: PublicKeyListContext) -> (r: ActionContext)
        ensures
            r@ == delete_keys_action_context(
                item.global_context,
                item.owner_account_id,
                key_views(item.public_keys@),
            ),
    {
        let ghost keys = key_views(item.public_keys@);
        let ghost owner = item.owner_account_id;
        let mut public_keys = item.public_keys;
        let ghost given = public_keys@;
        let mut actions: Vec<Action> = Vec::new();
        while public_keys.len() > 0
            invariant
                public_keys@ == given.skip(actions@.len() as int),
                actions@.len() <= given.len(),
                forall|j: int|
                    0 <= j < actions@.len() ==> #[trigger] actions@[j]@ == (ActionView::DeleteKey {
                        public_key: given[j]@,
                    }),
            decreases public_keys@.len(),
        {
            let key = public_keys.remove(0);
            actions.push(Action::DeleteKey(Box::new(DeleteKeyAction { public_key: key })));
        }
        assert(action_views(actions@) =~= delete_key_actions(keys));
        let r = ActionContext {
            global_context: item.global_context,
            interacting_with_account_ids: vec![item.owner_account_id.duplicate()],
            prepopulated_transaction: PrepopulatedTransaction {
                signer_id: item.owner_account_id.duplicate(),
                receiver_id: item.owner_account_id,
                actions,
            },
            on_before_signing: BeforeSigning::KeepActions,
            sign_as_delegate_action: false,
        };
        assert(r@.interacting_with_account_ids =~= seq![owner]);
        r
    }
}

} // verus!
