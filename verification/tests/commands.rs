use near_cli_rs::account_id::AccountId;
use near_cli_rs::call_function::{
    CallFunction, CallFunctionContext, Deposit, DepositContext, Function, FunctionContext,
    PrepaidGas, PrepaidGasContext, SignerAccountId, SignerAccountIdContext,
};
use near_cli_rs::context::{CliError, GlobalContext, NearGas, NearToken};
use near_cli_rs::create_account::{NewAccount, NewAccountContext};
use near_cli_rs::delete_account::{
    BeneficiaryAccount, BeneficiaryAccountContext, DeleteAccount, DeleteAccountContext,
};
use near_cli_rs::delete_key::{DeleteKeysCommandContext, PublicKeyList, PublicKeyListContext};
use near_cli_rs::public_key::{KeyType, PublicKey, Signature};
use near_cli_rs::sign_as::{RelayerAccountId, RelayerAccountIdContext, SignedMetaTransactionContext};
use near_cli_rs::transaction::{
    Action, ActionContext, BeforeSigning, DelegateAction, NonDelegateAction,
    SignedDelegateAction,
};

fn id(s: &str) -> AccountId {
    AccountId::parse(s).unwrap()
}

fn global() -> GlobalContext {
    GlobalContext {
        credentials_home_dir: "/home/user/.near-credentials".to_string(),
        network_names: vec!["mainnet".to_string(), "testnet".to_string()],
    }
}

fn key(byte: u8) -> PublicKey {
    PublicKey::from_parts(KeyType::Ed25519, vec![byte; 32]).unwrap()
}

fn missing_message(err: CliError) -> String {
    match err {
        CliError::MissingArgument(m) => m,
        other => panic!("unexpected error {other:?}"),
    }
}

fn required_input(err: CliError) -> String {
    match err {
        CliError::NonInteractiveInputRequired(m) => m,
        other => panic!("unexpected error {other:?}"),
    }
}

#[test]
fn new_account_context_records_arguments() {
    let scope = NewAccount {
        new_account_id: id("new.alice.near"),
        initial_balance: NearToken::from_near(2),
    };
    let c = NewAccountContext::from_previous_context(global(), &scope).unwrap();
    assert_eq!(c.global_context, global());
    assert_eq!(c.new_account_id, id("new.alice.near"));
    assert_eq!(c.initial_balance.as_yoctonear(), 2_000_000_000_000_000_000_000_000);
}

#[test]
fn new_account_inputs_must_be_given() {
    let g = global();
    assert_eq!(required_input(NewAccount::input_new_account_id(&g).unwrap_err()), "new account ID");
    assert_eq!(required_input(NewAccount::input_initial_balance(&g).unwrap_err()), "initial balance");
}

#[test]
fn delete_account_transaction() {
    let scope = DeleteAccount {
        account_id: id("old.near"),
        beneficiary: BeneficiaryAccount { beneficiary_account_id: id("heir.near") },
    };
    let c1 = DeleteAccountContext::from_previous_context(global(), &scope).unwrap();
    assert_eq!(c1.account_id, id("old.near"));
    assert_eq!(
        required_input(BeneficiaryAccount::input_beneficiary_account_id(&c1).unwrap_err()),
        "beneficiary account ID"
    );
    let c2 = BeneficiaryAccountContext::from_previous_context(c1, &scope.beneficiary).unwrap();
    assert_eq!(c2.beneficiary_account_id, id("heir.near"));
    let ctx = ActionContext::from_beneficiary_account_context(c2);
    assert_eq!(ctx.global_context, global());
    assert_eq!(ctx.interacting_with_account_ids, vec![id("old.near")]);
    let tx = &ctx.prepopulated_transaction;
    assert_eq!(tx.signer_id, id("old.near"));
    assert_eq!(tx.receiver_id, id("old.near"));
    assert_eq!(tx.actions.len(), 1);
    match &tx.actions[0] {
        Action::DeleteAccount(d) => assert_eq!(d.beneficiary_id, id("heir.near")),
        other => panic!("unexpected action {other:?}"),
    }
    assert_eq!(ctx.on_before_signing, BeforeSigning::KeepActions);
    assert!(!ctx.sign_as_delegate_action);
}

#[test]
fn delete_keys_transaction_keeps_key_order() {
    let previous = DeleteKeysCommandContext { global_context: global(), owner_account_id: id("owner.near") };
    let scope = PublicKeyList { public_keys: vec![key(1), key(2), key(3)] };
    let c = PublicKeyListContext::from_previous_context(previous, &scope).unwrap();
    assert_eq!(c.public_keys, scope.public_keys);
    let ctx = ActionContext::from_public_key_list_context(c);
    assert_eq!(ctx.interacting_with_account_ids, vec![id("owner.near")]);
    let tx = &ctx.prepopulated_transaction;
    assert_eq!(tx.signer_id, id("owner.near"));
    assert_eq!(tx.receiver_id, id("owner.near"));
    let deleted: Vec<u8> = tx
        .actions
        .iter()
        .map(|a| match a {
            Action::DeleteKey(k) => k.public_key.data()[0],
            other => panic!("unexpected action {other:?}"),
        })
        .collect();
    assert_eq!(deleted, vec![1, 2, 3]);
    assert_eq!(ctx.on_before_signing, BeforeSigning::KeepActions);
}

#[test]
fn delete_keys_with_no_keys() {
    let previous = DeleteKeysCommandContext { global_context: global(), owner_account_id: id("owner.near") };
    let c = PublicKeyListContext::from_previous_context(previous, &PublicKeyList { public_keys: vec![] }).unwrap();
    let ctx = ActionContext::from_public_key_list_context(c);
    assert!(ctx.prepopulated_transaction.actions.is_empty());
}

#[test]
fn public_keys_must_be_given() {
    let context = DeleteKeysCommandContext { global_context: global(), owner_account_id: id("owner.near") };
    assert_eq!(
        missing_message(PublicKeyList::input_public_keys(&context).unwrap_err()),
        "Missing required argument <public-keys>. Automatic key selection is disabled for non-interactive mode. Provide a comma-separated list of public keys. Networks available: mainnet, testnet"
    );
}

fn call_command() -> CallFunction {
    CallFunction {
        contract_account_id: id("counter.near"),
        function: Function {
            function_name: "increment".to_string(),
            function_args: "{\"by\": 2}".to_string(),
            prepaid_gas: PrepaidGas {
                gas: NearGas::from_tgas(30),
                attached_deposit: Deposit {
                    deposit: NearToken { yocto: 5 },
                    sign_as: SignerAccountId { signer_account_id: id("alice.near") },
                },
            },
        },
    }
}

#[test]
fn function_call_transaction() {
    let command = call_command();
    let c1 = CallFunctionContext::from_previous_context(global(), &command).unwrap();
    assert_eq!(c1.contract_account_id, id("counter.near"));
    let args = b"{\"by\":2}".to_vec();
    let c2 = FunctionContext::from_previous_context(c1, &command.function, Ok(args.clone())).unwrap();
    assert_eq!(c2.function_name, "increment");
    assert_eq!(c2.function_args, args);
    let c3 = PrepaidGasContext::from_previous_context(c2, &command.function.prepaid_gas).unwrap();
    assert_eq!(c3.gas.as_gas(), 30_000_000_000_000);
    let c4 = DepositContext::from_previous_context(c3, &command.function.prepaid_gas.attached_deposit).unwrap();
    assert_eq!(c4.deposit, NearToken { yocto: 5 });
    let c5 = SignerAccountIdContext::from_previous_context(
        c4,
        &command.function.prepaid_gas.attached_deposit.sign_as,
    )
    .unwrap();
    assert_eq!(c5.signer_account_id, id("alice.near"));
    let ctx = ActionContext::from_signer_account_id_context(c5);
    assert_eq!(ctx.interacting_with_account_ids, vec![id("alice.near"), id("counter.near")]);
    let tx = &ctx.prepopulated_transaction;
    assert_eq!(tx.signer_id, id("alice.near"));
    assert_eq!(tx.receiver_id, id("counter.near"));
    assert_eq!(tx.actions.len(), 1);
    match &tx.actions[0] {
        Action::FunctionCall(f) => {
            assert_eq!(f.method_name, "increment");
            assert_eq!(f.args, args);
            assert_eq!(f.gas, 30_000_000_000_000);
            assert_eq!(f.deposit, 5);
        }
        other => panic!("unexpected action {other:?}"),
    }
}

#[test]
fn function_args_error_ends_the_command() {
    let command = call_command();
    let c1 = CallFunctionContext::from_previous_context(global(), &command).unwrap();
    let err = FunctionContext::from_previous_context(
        c1,
        &command.function,
        Err(CliError::MissingArgument("bad JSON".to_string())),
    )
    .unwrap_err();
    assert_eq!(missing_message(err), "bad JSON");
}

#[test]
fn default_gas_and_deposit() {
    let command = call_command();
    let c1 = CallFunctionContext::from_previous_context(global(), &command).unwrap();
    let c2 = FunctionContext::from_previous_context(c1, &command.function, Ok(vec![])).unwrap();
    let gas = PrepaidGas::input_gas(&c2).unwrap().unwrap();
    assert_eq!(gas.as_gas(), 100_000_000_000_000);
    let c3 = PrepaidGasContext::from_previous_context(c2, &command.function.prepaid_gas).unwrap();
    let deposit = Deposit::input_deposit(&c3).unwrap().unwrap();
    assert_eq!(deposit.as_yoctonear(), 0);
}

#[test]
fn missing_accounts_list_known_accounts() {
    let known = vec![id("alice.near"), id("bob.testnet")];
    let g = global();
    assert_eq!(
        missing_message(CallFunction::input_contract_account_id(&g, &known).unwrap_err()),
        "Missing required argument <contract-account-id>. Provide it explicitly to run non-interactively. Known local accounts: alice.near, bob.testnet"
    );
    let command = call_command();
    let c1 = CallFunctionContext::from_previous_context(global(), &command).unwrap();
    let c2 = FunctionContext::from_previous_context(c1, &command.function, Ok(vec![])).unwrap();
    let c3 = PrepaidGasContext::from_previous_context(c2, &command.function.prepaid_gas).unwrap();
    let c4 = DepositContext::from_previous_context(c3, &command.function.prepaid_gas.attached_deposit).unwrap();
    assert_eq!(
        missing_message(SignerAccountId::input_signer_account_id(&c4, &known).unwrap_err()),
        "Missing required argument <signer-account-id>. Provide it explicitly to run non-interactively. Known local accounts: alice.near, bob.testnet"
    );
    assert_eq!(
        missing_message(SignerAccountId::input_signer_account_id(&c4, &vec![]).unwrap_err()),
        "Missing required argument <signer-account-id>. Provide it explicitly to run non-interactively. Known local accounts: "
    );
}

fn signed_delegate_action() -> SignedDelegateAction {
    SignedDelegateAction {
        delegate_action: DelegateAction {
            sender_id: id("sender.near"),
            receiver_id: id("app.near"),
            actions: vec![NonDelegateAction { encoded: vec![3, 0, 0, 0] }],
            nonce: 7,
            max_block_height: 1000,
            public_key: key(5),
        },
        signature: Signature { key_type: KeyType::Ed25519, data: vec![9; 64] },
    }
}

#[test]
fn relayer_transaction() {
    let previous = SignedMetaTransactionContext {
        global_context: global(),
        signed_delegate_action: signed_delegate_action(),
    };
    let scope = RelayerAccountId { relayer_account_id: id("relayer.near") };
    let known = vec![id("relayer.near")];
    assert_eq!(
        missing_message(RelayerAccountId::input_relayer_account_id(&previous, &known).unwrap_err()),
        "Missing required argument <relayer-account-id>. Provide it explicitly to run non-interactively. Known local accounts: relayer.near"
    );
    let RelayerAccountIdContext(ctx) = RelayerAccountIdContext::from_previous_context(previous, &scope).unwrap();
    assert_eq!(ctx.interacting_with_account_ids, vec![id("relayer.near")]);
    let tx = &ctx.prepopulated_transaction;
    assert_eq!(tx.signer_id, id("relayer.near"));
    assert_eq!(tx.receiver_id, id("sender.near"));
    assert_eq!(tx.actions, vec![Action::Delegate(Box::new(signed_delegate_action()))]);
    assert_eq!(
        ctx.on_before_signing,
        BeforeSigning::ReplaceActions(vec![Action::Delegate(Box::new(signed_delegate_action()))])
    );
    let again = ActionContext::from_relayer_account_id_context(RelayerAccountIdContext(ctx));
    assert_eq!(again.prepopulated_transaction.receiver_id, id("sender.near"));
}

#[test]
fn relayer_hook_replaces_actions() {
    let previous = SignedMetaTransactionContext {
        global_context: global(),
        signed_delegate_action: signed_delegate_action(),
    };
    let scope = RelayerAccountId { relayer_account_id: id("relayer.near") };
    let RelayerAccountIdContext(ctx) = RelayerAccountIdContext::from_previous_context(previous, &scope).unwrap();
    let mut tx = near_cli_rs::transaction::PrepopulatedTransaction {
        signer_id: id("relayer.near"),
        receiver_id: id("sender.near"),
        actions: vec![],
    };
    ctx.before_signing(&mut tx);
    assert_eq!(tx.actions, vec![Action::Delegate(Box::new(signed_delegate_action()))]);
}
