use near_cli_rs::account_id::AccountId;
use near_cli_rs::context::{GlobalContext, NearGas, NearToken};
use near_cli_rs::call_function::SignerAccountIdContext;
use near_cli_rs::delete_account::BeneficiaryAccountContext;
use near_cli_rs::delete_key::PublicKeyListContext;
use near_cli_rs::public_key::{KeyType, PublicKey, Signature};
use near_cli_rs::sign_as::{RelayerAccountId, RelayerAccountIdContext, SignedMetaTransactionContext};
use near_cli_rs::transaction::{ActionContext, DelegateAction, SignedDelegateAction};

fn id(s: &str) -> AccountId {
    AccountId::parse(s).unwrap()
}

fn global() -> GlobalContext {
    GlobalContext { credentials_home_dir: "/tmp/creds".to_string(), network_names: vec![] }
}

fn contexts() -> Vec<ActionContext> {
    let delete_account = ActionContext::from_beneficiary_account_context(BeneficiaryAccountContext {
        global_context: global(),
        account_id: id("old.near"),
        beneficiary_account_id: id("heir.near"),
    });
    let delete_keys = ActionContext::from_public_key_list_context(PublicKeyListContext {
        global_context: global(),
        owner_account_id: id("owner.near"),
        public_keys: vec![PublicKey::from_parts(KeyType::Ed25519, vec![1; 32]).unwrap()],
    });
    let call = ActionContext::from_signer_account_id_context(SignerAccountIdContext {
        global_context: global(),
        contract_account_id: id("counter.near"),
        function_name: "get".to_string(),
        function_args: vec![],
        gas: NearGas { gas: 1 },
        deposit: NearToken { yocto: 0 },
        signer_account_id: id("alice.near"),
    });
    let RelayerAccountIdContext(relay) = RelayerAccountIdContext::from_previous_context(
        SignedMetaTransactionContext {
            global_context: global(),
            signed_delegate_action: SignedDelegateAction {
                delegate_action: DelegateAction {
                    sender_id: id("sender.near"),
                    receiver_id: id("app.near"),
                    actions: vec![],
                    nonce: 1,
                    max_block_height: 2,
                    public_key: PublicKey::from_parts(KeyType::Ed25519, vec![2; 32]).unwrap(),
                },
                signature: Signature { key_type: KeyType::Ed25519, data: vec![0; 64] },
            },
        },
        &RelayerAccountId { relayer_account_id: id("relayer.near") },
    )
    .unwrap();
    vec![delete_account, delete_keys, call, relay]
}

#[test]
fn signer_is_among_interacting_accounts() {
    for ctx in contexts() {
        assert!(ctx.interacting_with_account_ids.contains(&ctx.prepopulated_transaction.signer_id));
    }
}

#[test]
fn signing_keeps_the_prepared_transaction() {
    for ctx in contexts() {
        let prepared = &ctx.prepopulated_transaction;
        let mut tx = near_cli_rs::transaction::PrepopulatedTransaction {
            signer_id: prepared.signer_id.duplicate(),
            receiver_id: prepared.receiver_id.duplicate(),
            actions: near_cli_rs::transaction::duplicate_actions(&prepared.actions),
        };
        ctx.before_signing(&mut tx);
        assert_eq!(&tx, prepared);
    }
}
