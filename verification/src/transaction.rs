//! The transactions that the commands prepare, and the context in which a
//! command hands one over to be signed and sent.
use vstd::prelude::*;
use crate::account_id::AccountId;
use crate::context::GlobalContext;
use crate::public_key::{KeyType, PublicKey, Signature};

verus! {

/// An action that a delegate action carries for its sender, kept in its Borsh
/// wire form: the commands here pass it on and never look inside.
#[derive(Debug, PartialEq, Eq)]
pub struct NonDelegateAction {
    pub encoded: Vec<u8>,
}

impl View for NonDelegateAction {
    type V = Seq<u8>;

    open spec fn view(&self) -> Seq<u8> {
        self.encoded@
    }
}

impl NonDelegateAction {
    /// A copy of the action.
    pub fn duplicate(&self) -> (r: NonDelegateAction)
        ensures
            r@ == self@,
    {
        NonDelegateAction { encoded: vstd::slice::slice_to_vec(self.encoded.as_slice()) }
    }
}

/// The views of a list of inner actions.
pub open spec fn non_delegate_views(actions: Seq<NonDelegateAction>) -> Seq<Seq<u8>> {
    actions.map_values(|a: NonDelegateAction| a@)
}

/// A list of actions that `sender_id` asks a relayer to submit on its behalf.
#[derive(Debug, PartialEq, Eq)]
pub struct DelegateAction {
    pub sender_id: AccountId,
    pub receiver_id: AccountId,
    pub actions: Vec<NonDelegateAction>,
    pub nonce: u64,
    pub max_block_height: u64,
    pub public_key: PublicKey,
}

/// The mathematical value of a [`DelegateAction`].
pub struct DelegateActionView {
    pub sender_id: AccountId,
    pub receiver_id: AccountId,
    pub actions: Seq<Seq<u8>>,
    pub nonce: u64,
    pub max_block_height: u64,
    pub public_key: (KeyType, Seq<u8>),
}

impl View for DelegateAction {
    type V = DelegateActionView;

    open spec fn view(&self) -> DelegateActionView {
        DelegateActionView {
            sender_id: self.sender_id,
            receiver_id: self.receiver_id,
            actions: non_delegate_views(self.actions@),
            nonce: self.nonce,
            max_block_height: self.max_block_height,
            public_key: self.public_key@,
        }
    }
}

impl DelegateAction {
    /// A copy of the delegate action.
    pub fn duplicate(&self) -> (r: DelegateAction)
        ensures
            r@ == self@,
    {
        let mut actions: Vec<NonDelegateAction> = Vec::new();
        let mut i: usize = 0;
        while i < self.actions.len()
            invariant
                i <= self.actions.len(),
                actions@.len() == i,
                forall|j: int| 0 <= j < i ==> #[trigger] actions@[j]@ == self.actions@[j]@,
            decreases self.actions.len() - i,
        {
            actions.push(self.actions[i].duplicate());
            i = i + 1;
        }
        assert(non_delegate_views(actions@) =~= non_delegate_views(self.actions@));
        DelegateAction {
            sender_id: self.sender_id.duplicate(),
            receiver_id: self.receiver_id.duplicate(),
            actions,
            nonce: self.nonce,
            max_block_height: self.max_block_height,
            public_key: self.public_key.duplicate(),
        }
    }
}

/// A delegate action with its sender's signature.
#[derive(Debug, PartialEq, Eq)]
pub struct SignedDelegateAction {
    pub delegate_action: DelegateAction,
    pub signature: Signature,
}

/// The mathematical value of a [`SignedDelegateAction`].
pub struct SignedDelegateActionView {
    pub delegate_action: DelegateActionView,
    pub signature: (KeyType, Seq<u8>),
}

impl View for SignedDelegateAction {
    type V = SignedDelegateActionView;

    open spec fn view(&self) -> SignedDelegateActionView {
        SignedDelegateActionView {
            delegate_action: self.delegate_action@,
            signature: self.signature@,
        }
    }
}

impl SignedDelegateAction {
    /// A copy of the signed delegate action.
    pub fn duplicate(&self) -> (r: SignedDelegateAction)
        ensures
            r@ == self@,
    {
        SignedDelegateAction {
            delegate_action: self.delegate_action.duplicate(),
            signature: self.signature.duplicate(),
        }
    }
}

/// A call of `method_name` with `args`, `gas` and an attached `deposit` in yoctoNEAR.
#[derive(Debug, PartialEq, Eq)]
pub struct FunctionCallAction {
    pub method_name: String,
    pub args: Vec<u8>,
    pub gas: u64,
    pub deposit: u128,
}

/// Removes an access key from the receiver account.
#[derive(Debug, PartialEq, Eq)]
pub struct DeleteKeyAction {
    pub public_key: PublicKey,
}

/// Deletes the receiver account and sends what it holds to `beneficiary_id`.
#[derive(Debug, PartialEq, Eq)]
pub struct DeleteAccountAction {
    pub beneficiary_id: AccountId,
}

/// The actions that the commands here put in a transaction.
#[derive(Debug, PartialEq, Eq)]
pub enum Action {
    FunctionCall(Box<FunctionCallAction>),
    DeleteKey(Box<DeleteKeyAction>),
    DeleteAccount(DeleteAccountAction),
    Delegate(Box<SignedDelegateAction>),
}

/// The mathematical value of an [`Action`].
pub enum ActionView {
    FunctionCall { method_name: Seq<char>, args: Seq<u8>, gas: u64, deposit: u128 },
    DeleteKey { public_key: (KeyType, Seq<u8>) },
    DeleteAccount { beneficiary_id: AccountId },
    Delegate(SignedDelegateActionView),
}

impl View for Action {
    type V = ActionView;

    open spec fn view(&self) -> ActionView {
        match self {
            Action::FunctionCall(f) => ActionView::FunctionCall {
                method_name: f.method_name@,
                args: f.args@,
                gas: f.gas,
                deposit: f.deposit,
            },
            Action::DeleteKey(k) => ActionView::DeleteKey { public_key: k.public_key@ },
            Action::DeleteAccount(d) => ActionView::DeleteAccount { beneficiary_id: d.beneficiary_id },
            Action::Delegate(s) => ActionView::Delegate(s@),
        }
    }
}

/// The views of a list of actions.
pub open spec fn action_views(actions: Seq<Action>) -> Seq<ActionView> {
    actions.map_values(|a: Action| a@)
}

impl Action {
    /// A copy of the action.
    pub fn duplicate(&self) -> (r: Action)
        ensures
            r@ == self@,
    {
        match self {
            Action::FunctionCall(f) => Action::FunctionCall(
                Box::new(
                    FunctionCallAction {
                        method_name: f.method_name.clone(),
                        args: vstd::slice::slice_to_vec(f.args.as_slice()),
                        gas: f.gas,
                        deposit: f.deposit,
                    },
                ),
            ),
            Action::DeleteKey(k) => Action::DeleteKey(
                Box::new(DeleteKeyAction { public_key: k.public_key.duplicate() }),
            ),
            Action::DeleteAccount(d) => Action::DeleteAccount(
                DeleteAccountAction { beneficiary_id: d.beneficiary_id.duplicate() },
            ),
            Action::Delegate(s) => Action::Delegate(Box::new(s.duplicate())),
        }
    }
}

/// Copies a list of actions.
pub fn duplicate_actions(actions: &Vec<Action>) -> (r: Vec<Action>)
    ensures
        action_views(r@) == action_views(actions@),
{
    let mut r: Vec<Action> = Vec::new();
    let mut i: usize = 0;
    while i < actions.len()
        invariant
            i <= actions.len(),
            r@.len() == i,
            forall|j: int| 0 <= j < i ==> #[trigger] r@[j]@ == actions@[j]@,
        decreases actions.len() - i,
    {
        r.push(actions[i].duplicate());
        i = i + 1;
    }
    assert(action_views(r@) =~= action_views(actions@));
    r
}

/// A transaction before it has a nonce, a block hash and a signature.
#[derive(Debug, PartialEq, Eq)]
pub struct PrepopulatedTransaction {
    pub signer_id: AccountId,
    pub receiver_id: AccountId,
    pub actions: Vec<Action>,
}

/// The mathematical value of a [`PrepopulatedTransaction`].
pub struct TransactionView {
    pub signer_id: AccountId,
    pub receiver_id: AccountId,
    pub actions: Seq<ActionView>,
}

impl View for PrepopulatedTransaction {
    type V = TransactionView;

    open spec fn view(&self) -> TransactionView {
        TransactionView {
            signer_id: self.signer_id,
            receiver_id: self.receiver_id,
            actions: action_views(self.actions@),
        }
    }
}

/// What happens to the prepared transaction right before it is signed.
#[derive(Debug, PartialEq, Eq)]
pub enum BeforeSigning {
    /// The transaction is signed as prepared.
    KeepActions,
    /// The transaction's actions are replaced by these.
    ReplaceActions(Vec<Action>),
}

/// The mathematical value of a [`BeforeSigning`].
pub enum BeforeSigningView {
    KeepActions,
    ReplaceActions(Seq<ActionView>),
}

impl View for BeforeSigning {
    type V = BeforeSigningView;

    open spec fn view(&self) -> BeforeSigningView {
        match self {
            BeforeSigning::KeepActions => BeforeSigningView::KeepActions,
            BeforeSigning::ReplaceActions(a) => BeforeSigningView::ReplaceActions(action_views(a@)),
        }
    }
}

/// The transaction that is signed when `hook` runs on `tx` before signing.
pub open spec fn signed_transaction(hook: BeforeSigningView, tx: TransactionView) -> TransactionView {
    match hook {
        BeforeSigningView::KeepActions => tx,
        BeforeSigningView::ReplaceActions(a) => TransactionView { actions: a, ..tx },
    }
}

/// What a command hands over to be signed and sent: the global settings, the
/// accounts the transaction touches, the prepared transaction (the same on
/// every network), the hook that runs before signing and whether to sign a
/// delegate action instead of a transaction.  The hooks that run after signing
/// and after sending do nothing for these commands.
#[derive(Debug, PartialEq, Eq)]
pub struct ActionContext {
    pub global_context: GlobalContext,
    pub interacting_with_account_ids: Vec<AccountId>,
    pub prepopulated_transaction: PrepopulatedTransaction,
    pub on_before_signing: BeforeSigning,
    pub sign_as_delegate_action: bool,
}

/// The mathematical value of an [`ActionContext`].
pub struct ActionContextView {
    pub global_context: GlobalContext,
    pub interacting_with_account_ids: Seq<AccountId>,
    pub prepopulated_transaction: TransactionView,
    pub on_before_signing: BeforeSigningView,
    pub sign_as_delegate_action: bool,
}

impl View for ActionContext {
    type V = ActionContextView;

    open spec fn view(&self) -> ActionContextView {
        ActionContextView {
            global_context: self.global_context,
            interacting_with_account_ids: self.interacting_with_account_ids@,
            prepopulated_transaction: self.prepopulated_transaction@,
            on_before_signing: self.on_before_signing@,
            sign_as_delegate_action: self.sign_as_delegate_action,
        }
    }
}

impl ActionContext {
    /// Runs the hook that comes before signing on a transaction.
    pub fn before_signing(&self, tx: &mut PrepopulatedTransaction)
        ensures
            final(tx)@ == signed_transaction(self@.on_before_signing, old(tx)@),
    {
        match &self.on_before_signing {
            BeforeSigning::KeepActions => {},
            BeforeSigning::ReplaceActions(actions) => {
                tx.actions = duplicate_actions(actions);
            },
        }
    }
}

} // verus!
